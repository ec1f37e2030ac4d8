//! The cleanup run: its modes, its safety gates, and what it deletes.

use vstd::prelude::*;
use crate::gcroots::GcRootPlan;
use crate::generations::{GenerationKey, GenerationPlan};
use crate::planner::RetentionPolicy;
use crate::text::{same_text, texts};
use crate::time::Span;

verus! {

/// Options shared by every cleanup mode.
#[derive(Debug, Clone)]
pub struct CleanArgs {
    /// At least keep this number of generations.
    pub keep: u32,
    /// At least keep roots and generations modified this recently.
    pub keep_since: Span,
    /// Only show the plan.
    pub dry: bool,
    /// Ask before deleting.
    pub ask: bool,
    /// Do not run the store collector.
    pub no_gc: bool,
    /// Do not clean roots.
    pub no_gcroots: bool,
    /// Compact the store afterwards.
    pub optimise: bool,
    /// Bound handed to the store collector.
    pub max: Option<String>,
}

/// Options for cleaning one profile.
#[derive(Debug, Clone)]
pub struct CleanProfileArgs {
    pub common: CleanArgs,
    /// Which profile to clean.
    pub profile: String,
}

/// What to clean.
#[derive(Debug, Clone)]
pub enum CleanMode {
    /// Every profile on the system.
    All(CleanArgs),
    /// The profiles of the invoking user.
    User(CleanArgs),
    /// One given profile.
    Profile(CleanProfileArgs),
}

/// The cleanup subcommand.
#[derive(Debug, Clone)]
pub struct CleanProxy {
    pub command: CleanMode,
}

/// Why a run ends before anything is deleted.
#[derive(Clone, Copy, Debug, PartialEq, Eq, Structural)]
pub enum RunError {
    /// Cleaning the user's profiles was asked for by the superuser.
    RunAsRoot,
    /// The plan was shown and not confirmed.
    Rejected,
}

/// Where discovery looks, once the privilege gate is passed.
#[derive(Clone, Copy, Debug, PartialEq, Eq, Structural)]
pub enum Start {
    /// Re-execute with elevated privileges; nothing is scanned before that.
    Elevate,
    /// Scan the global, the per-user and every eligible account's profiles.
    ScanAll,
    /// Scan the invoking user's profile directories.
    ScanUser,
    /// Take the one profile given; no directory is walked.
    SingleProfile,
}

/// The plan of one profile.
#[derive(Debug)]
pub struct ProfilePlan {
    pub profile: String,
    pub generations: GenerationPlan,
}

/// What a confirmed run does to the system, in order.
#[derive(Debug)]
pub struct Execution {
    /// Paths to delete, each on its own and without regard to the others.
    pub removals: Vec<String>,
    /// Arguments for the store collector, `None` if it is not to run.
    pub collector: Option<Vec<String>>,
    /// Whether to compact the store afterwards.
    pub optimise: bool,
    /// Whether the commands above are only to be shown.
    pub dry: bool,
}

/// The paths tagged for removal, in plan order.
pub open spec fn flagged(paths: Seq<Seq<char>>, flags: Seq<bool>) -> Seq<Seq<char>>
    decreases paths.len(),
{
    if paths.len() == 0 || flags.len() == 0 {
        Seq::empty()
    } else if flags.last() {
        flagged(paths.drop_last(), flags.drop_last()).push(paths.last())
    } else {
        flagged(paths.drop_last(), flags.drop_last())
    }
}

/// The paths tagged for removal, last entry first.
pub open spec fn flagged_newest_first(paths: Seq<Seq<char>>, flags: Seq<bool>) -> Seq<Seq<char>>
    decreases paths.len(),
{
    if paths.len() == 0 || flags.len() == 0 {
        Seq::empty()
    } else if flags.last() {
        seq![paths.last()] + flagged_newest_first(paths.drop_last(), flags.drop_last())
    } else {
        flagged_newest_first(paths.drop_last(), flags.drop_last())
    }
}

/// The paths of planned generations, in plan order.
pub open spec fn generation_paths(keys: Seq<GenerationKey>) -> Seq<Seq<char>> {
    keys.map_values(|k: GenerationKey| k.path)
}

/// The generations to delete over all profiles: profile by profile, within a
/// profile from the highest number down.
pub open spec fn generation_removals(profiles: Seq<ProfilePlan>) -> Seq<Seq<char>>
    decreases profiles.len(),
{
    if profiles.len() == 0 {
        Seq::empty()
    } else {
        generation_removals(profiles.drop_last()) + flagged_newest_first(
            generation_paths(profiles.last().generations.keys()),
            profiles.last().generations.flags(),
        )
    }
}

/// Everything a run deletes: first the tagged roots, then the tagged generations.
pub open spec fn removals(gcroots: GcRootPlan, profiles: Seq<ProfilePlan>) -> Seq<Seq<char>> {
    flagged(gcroots.paths(), gcroots.flags()) + generation_removals(profiles)
}

/// The arguments of the collector call: `store gc`, then `--max` and the
/// bound if there is one.
pub open spec fn collector_args(max: Option<String>) -> Seq<Seq<char>> {
    match max {
        Some(m) => seq!["store"@, "gc"@, "--max"@, m@],
        None => seq!["store"@, "gc"@],
    }
}

/// The options `a` with the dry-run switch set to `dry`.
pub open spec fn set_dry(a: CleanArgs, dry: bool) -> CleanArgs {
    CleanArgs {
        keep: a.keep,
        keep_since: a.keep_since,
        dry,
        ask: a.ask,
        no_gc: a.no_gc,
        no_gcroots: a.no_gcroots,
        optimise: a.optimise,
        max: a.max,
    }
}

/// Every profile plan is well formed.
pub open spec fn plans_wf(profiles: Seq<ProfilePlan>) -> bool {
    forall|i: int| 0 <= i < profiles.len() ==> (#[trigger] profiles[i]).generations.wf()
}

impl CleanMode {
    /// The options shared by all modes.
    pub open spec fn options(&self) -> CleanArgs {
        match *self {
            CleanMode::All(x) => x,
            CleanMode::User(x) => x,
            CleanMode::Profile(x) => x.common,
        }
    }

    /// The same run with the dry-run switch set to `dry`.
    pub open spec fn with_dry(self, dry: bool) -> CleanMode {
        match self {
            CleanMode::All(x) => CleanMode::All(set_dry(x, dry)),
            CleanMode::User(x) => CleanMode::User(set_dry(x, dry)),
            CleanMode::Profile(x) => CleanMode::Profile(
                CleanProfileArgs { common: set_dry(x.common, dry), profile: x.profile },
            ),
        }
    }

    /// The retention policy that the options carry.
    pub open spec fn retention(&self) -> RetentionPolicy {
        RetentionPolicy { keep: self.options().keep, keep_since: self.options().keep_since }
    }

    /// The privilege gate: a single profile is taken as given; all profiles
    /// need the superuser, and elevation comes first without; the user's
    /// profiles are refused to the superuser.
    pub open spec fn first_step(&self, privileged: bool) -> Result<Start, RunError> {
        match *self {
            CleanMode::Profile(_) => Ok(Start::SingleProfile),
            CleanMode::All(_) => if privileged {
                Ok(Start::ScanAll)
            } else {
                Ok(Start::Elevate)
            },
            CleanMode::User(_) => if privileged {
                Err(RunError::RunAsRoot)
            } else {
                Ok(Start::ScanUser)
            },
        }
    }

    /// The roots are scanned: the run is not scoped to one profile, and the
    /// caller did not switch the scan off.
    pub open spec fn roots_in_scope(&self) -> bool {
        !(*self is Profile) && !self.options().no_gcroots
    }

    /// The plan must be confirmed: the caller asked for it and the run is not dry.
    pub open spec fn asks(&self) -> bool {
        self.options().ask && !self.options().dry
    }

    /// What the run deletes once it goes ahead: nothing when dry; else the
    /// tagged roots, if roots are in scope at all, and then the tagged
    /// generations.
    pub open spec fn deletions(&self, gcroots: GcRootPlan, profiles: Seq<ProfilePlan>) -> Seq<
        Seq<char>,
    > {
        if self.options().dry {
            Seq::empty()
        } else if self.roots_in_scope() {
            removals(gcroots, profiles)
        } else {
            generation_removals(profiles)
        }
    }

    /// The options shared by all modes.
    pub fn args(&self) -> (a: &CleanArgs)
        ensures
            *a == self.options(),
    {
        match self {
            CleanMode::All(a) => a,
            CleanMode::User(a) => a,
            CleanMode::Profile(p) => &p.common,
        }
    }

    /// The retention policy of this run.
    pub fn policy(&self) -> (p: RetentionPolicy)
        ensures
            p == self.retention(),
    {
        let a = self.args();
        RetentionPolicy { keep: a.keep, keep_since: a.keep_since }
    }

    /// The privilege gate, passed before anything is scanned. Cleaning the
    /// user's profiles as superuser is refused; cleaning all profiles without
    /// being superuser asks for elevation first.
    pub fn start(&self, privileged: bool) -> (r: Result<Start, RunError>)
        ensures
            r == self.first_step(privileged),
    {
        match self {
            CleanMode::Profile(_) => Ok(Start::SingleProfile),
            CleanMode::All(_) => {
                if privileged {
                    Ok(Start::ScanAll)
                } else {
                    Ok(Start::Elevate)
                }
            },
            CleanMode::User(_) => {
                if privileged {
                    Err(RunError::RunAsRoot)
                } else {
                    Ok(Start::ScanUser)
                }
            },
        }
    }

    /// Whether the roots are scanned: never for a single profile, and not
    /// when the caller switched it off.
    pub fn scans_gcroots(&self) -> (b: bool)
        ensures
            b == self.roots_in_scope(),
            *self is Profile ==> !b,
    {
        match self {
            CleanMode::Profile(_) => false,
            CleanMode::All(a) => !a.no_gcroots,
            CleanMode::User(a) => !a.no_gcroots,
        }
    }

    /// Whether the plan must be confirmed before it is carried out: when
    /// asked for, unless the run is dry.
    pub fn needs_confirmation(&self) -> (b: bool)
        ensures
            b == self.asks(),
    {
        let a = self.args();
        a.ask && !a.dry
    }

    /// What the run does after the plan was shown. `answer` is the reply to
    /// the confirmation prompt, `None` if none was given.
    ///
    /// A run that needs confirmation and did not get a yes is rejected, and
    /// with it every deletion and the collector. A dry run deletes nothing,
    /// and a run that does not scan the roots deletes none of them.
    pub fn execution(
        &self,
        answer: Option<bool>,
        gcroots: &GcRootPlan,
        profiles: &Vec<ProfilePlan>,
    ) -> (r: Result<Execution, RunError>)
        requires
            gcroots.wf(),
            plans_wf(profiles@),
        ensures
            (self.asks() && answer != Some(true)) ==> r == Err::<Execution, RunError>(
                RunError::Rejected,
            ),
            !(self.asks() && answer != Some(true)) ==> r is Ok,
            r is Ok ==> {
                let e = r.unwrap();
                &&& e.dry == self.options().dry
                &&& e.optimise == self.options().optimise
                &&& texts(e.removals@) == self.deletions(*gcroots, profiles@)
                &&& e.collector is None <==> self.options().no_gc
                &&& e.collector is Some ==> texts(e.collector.unwrap()@) == collector_args(
                    self.options().max,
                )
            },
    {
        let a = self.args();
        if self.needs_confirmation() {
            match answer {
                Some(true) => {},
                _ => {
                    return Err(RunError::Rejected);
                },
            }
        }
        let mut paths: Vec<String> = Vec::new();
        assert(texts(paths@) =~= Seq::<Seq<char>>::empty());
        if !a.dry {
            if self.scans_gcroots() {
                append_removed_roots(&mut paths, gcroots);
            }
            append_removed_generations(&mut paths, profiles);
            assert(texts(paths@) =~= self.deletions(*gcroots, profiles@));
        }
        let collector = if a.no_gc {
            None
        } else {
            Some(collector_command(&a.max))
        };
        Ok(Execution { removals: paths, collector, optimise: a.optimise, dry: a.dry })
    }
}

/// Builds the arguments of the collector call.
pub fn collector_command(max: &Option<String>) -> (args: Vec<String>)
    ensures
        texts(args@) == collector_args(*max),
{
    let mut args: Vec<String> = Vec::new();
    args.push("store".to_owned());
    args.push("gc".to_owned());
    match max {
        Some(m) => {
            args.push("--max".to_owned());
            args.push(m.clone());
        },
        None => {},
    }
    assert(texts(args@) =~= collector_args(*max));
    args
}

/// Appends the targets tagged for removal, in plan order.
pub fn append_removed_roots(out: &mut Vec<String>, gcroots: &GcRootPlan)
    requires
        gcroots.wf(),
    ensures
        texts(final(out)@) == texts(old(out)@) + flagged(gcroots.paths(), gcroots.flags()),
{
    let n: usize = gcroots.len();
    let mut i: usize = 0;
    let ghost paths = gcroots.paths();
    let ghost flags = gcroots.flags();
    assert(flagged(paths.take(0), flags.take(0)) =~= Seq::<Seq<char>>::empty());
    assert(texts(out@) =~= texts(old(out)@) + flagged(paths.take(0), flags.take(0)));
    while i < n
        invariant
            gcroots.wf(),
            paths == gcroots.paths(),
            flags == gcroots.flags(),
            n == paths.len(),
            n == flags.len(),
            i <= n,
            texts(out@) == texts(old(out)@) + flagged(paths.take(i as int), flags.take(i as int)),
        decreases n - i,
    {
        let ghost before = texts(out@);
        assert(paths.take(i + 1).drop_last() =~= paths.take(i as int));
        assert(flags.take(i + 1).drop_last() =~= flags.take(i as int));
        assert(paths.take(i + 1).last() == paths[i as int]);
        assert(flags.take(i + 1).last() == flags[i as int]);
        if gcroots.is_removed(i) {
            out.push(gcroots.target(i).clone());
            assert(texts(out@) =~= before.push(paths[i as int]));
            assert(texts(out@) =~= texts(old(out)@) + flagged(
                paths.take(i + 1),
                flags.take(i + 1),
            ));
        }
        i = i + 1;
    }
    assert(paths.take(i as int) =~= paths);
    assert(flags.take(i as int) =~= flags);
}

/// Appends the generations of one plan that are tagged for removal, from the
/// highest number down.
pub fn append_removed_of_profile(out: &mut Vec<String>, plan: &GenerationPlan)
    requires
        plan.wf(),
    ensures
        texts(final(out)@) == texts(old(out)@) + flagged_newest_first(
            generation_paths(plan.keys()),
            plan.flags(),
        ),
{
    let n: usize = plan.len();
    let mut i: usize = n;
    let ghost paths = generation_paths(plan.keys());
    let ghost flags = plan.flags();
    let ghost goal = texts(old(out)@) + flagged_newest_first(paths, flags);
    assert(paths.take(n as int) =~= paths);
    assert(flags.take(n as int) =~= flags);
    while i > 0
        invariant
            plan.wf(),
            paths == generation_paths(plan.keys()),
            flags == plan.flags(),
            n == paths.len(),
            n == flags.len(),
            i <= n,
            goal == texts(out@) + flagged_newest_first(paths.take(i as int), flags.take(i as int)),
        decreases i,
    {
        let ghost before = texts(out@);
        assert(paths.take(i as int).drop_last() =~= paths.take(i - 1));
        assert(flags.take(i as int).drop_last() =~= flags.take(i - 1));
        assert(paths.take(i as int).last() == paths[i - 1]);
        assert(flags.take(i as int).last() == flags[i - 1]);
        i = i - 1;
        if plan.is_removed(i) {
            out.push(plan.generation(i).path.clone());
            assert(texts(out@) =~= before.push(paths[i as int]));
            assert(goal =~= texts(out@) + flagged_newest_first(
                paths.take(i as int),
                flags.take(i as int),
            ));
        }
    }
    assert(flagged_newest_first(paths.take(0), flags.take(0)) =~= Seq::<Seq<char>>::empty());
    assert(goal =~= texts(out@));
}

/// Appends the tagged generations of every profile.
pub fn append_removed_generations(out: &mut Vec<String>, profiles: &Vec<ProfilePlan>)
    requires
        plans_wf(profiles@),
    ensures
        texts(final(out)@) == texts(old(out)@) + generation_removals(profiles@),
{
    let n: usize = profiles.len();
    let mut i: usize = 0;
    assert(generation_removals(profiles@.take(0)) =~= Seq::<Seq<char>>::empty());
    assert(texts(out@) =~= texts(old(out)@) + generation_removals(profiles@.take(0)));
    while i < n
        invariant
            plans_wf(profiles@),
            n == profiles@.len(),
            i <= n,
            texts(out@) == texts(old(out)@) + generation_removals(profiles@.take(i as int)),
        decreases n - i,
    {
        assert(profiles@.take(i + 1).drop_last() =~= profiles@.take(i as int));
        assert(profiles@.take(i + 1).last() == profiles@[i as int]);
        let ghost before = texts(out@);
        append_removed_of_profile(out, &profiles[i].generations);
        assert(texts(out@) =~= texts(old(out)@) + generation_removals(profiles@.take(i + 1)));
        i = i + 1;
    }
    assert(profiles@.take(i as int) =~= profiles@);
}

/// What filing `entry` does when `at` is the first place that holds its
/// profile, or the end if none does: the entry takes that place.
pub open spec fn filed_at(
    before: Seq<ProfilePlan>,
    after: Seq<ProfilePlan>,
    entry: ProfilePlan,
    at: int,
) -> bool {
    &&& 0 <= at <= before.len()
    &&& forall|j: int| 0 <= j < at ==> (#[trigger] before[j]).profile@ != entry.profile@
    &&& if at < before.len() {
        before[at].profile@ == entry.profile@ && after == before.update(at, entry)
    } else {
        after == before.push(entry)
    }
}

/// Files the plan of a profile. A profile planned before is replaced in its
/// place; a new one goes to the end.
pub fn record_profile(profiles: &mut Vec<ProfilePlan>, profile: String, generations: GenerationPlan)
    requires
        plans_wf(old(profiles)@),
        generations.wf(),
    ensures
        plans_wf(final(profiles)@),
        exists|at: int| #[trigger]
            filed_at(old(profiles)@, final(profiles)@, ProfilePlan { profile, generations }, at),
{
    let n: usize = profiles.len();
    let mut i: usize = 0;
    let mut found: bool = false;
    while i < n && !found
        invariant
            n == profiles@.len(),
            *profiles == *old(profiles),
            i <= n,
            forall|j: int| 0 <= j < i ==> (#[trigger] profiles@[j]).profile@ != profile@,
            found ==> i < n && profiles@[i as int].profile@ == profile@,
        decreases n - i + (if found { 0int } else { 1int }),
    {
        if same_text(profiles[i].profile.as_str(), profile.as_str()) {
            found = true;
        } else {
            i = i + 1;
        }
    }
    let ghost entry = ProfilePlan { profile, generations };
    if found {
        profiles[i] = ProfilePlan { profile, generations };
        assert(profiles@ =~= old(profiles)@.update(i as int, entry));
    } else {
        profiles.push(ProfilePlan { profile, generations });
    }
    assert(filed_at(old(profiles)@, profiles@, entry, i as int));
}

/// A dry run and the same run without the switch pass the same gate, scan
/// the same roots and plan under the same policy, so their plans are alike;
/// and the dry one deletes nothing.
pub proof fn law_dry_run(
    mode: CleanMode,
    privileged: bool,
    gcroots: GcRootPlan,
    profiles: Seq<ProfilePlan>,
)
    ensures
        mode.with_dry(true).first_step(privileged) == mode.with_dry(false).first_step(privileged),
        mode.with_dry(true).roots_in_scope() == mode.with_dry(false).roots_in_scope(),
        mode.with_dry(true).retention() == mode.with_dry(false).retention(),
        mode.with_dry(true).deletions(gcroots, profiles) == Seq::<Seq<char>>::empty(),
        !mode.with_dry(true).asks(),
{
}

/// A run scoped to one profile never scans the roots, whatever its options,
/// and deletes nothing but generations, whatever roots it is handed.
pub proof fn law_profile_run_skips_roots(
    mode: CleanMode,
    gcroots: GcRootPlan,
    profiles: Seq<ProfilePlan>,
)
    requires
        mode is Profile,
    ensures
        !mode.roots_in_scope(),
        mode.deletions(gcroots, profiles) == (if mode.options().dry {
            Seq::<Seq<char>>::empty()
        } else {
            generation_removals(profiles)
        }),
{
}

/// Cleaning the user's profiles as superuser is refused, and cleaning all
/// profiles without being superuser asks for elevation: in neither case is
/// anything scanned first.
pub proof fn law_privileges(mode: CleanMode)
    ensures
        mode is User ==> mode.first_step(true) == Err::<Start, RunError>(RunError::RunAsRoot),
        mode is All ==> mode.first_step(false) == Ok::<Start, RunError>(Start::Elevate),
{
}

} // verus!
