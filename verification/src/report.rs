//! The plan as the user sees it before anything is deleted.

use vstd::prelude::*;
use crate::clean::{generation_paths, plans_wf, CleanMode, ProfilePlan};
use crate::gcroots::{direnv_pattern, result_pattern, GcRootPlan};
use crate::time::Span;

verus! {

/// One line of the report.
#[derive(Debug, Clone, PartialEq, Eq)]
pub enum ReportLine {
    /// The policy: how many generations are kept at least, and how young a
    /// path must be to be kept.
    Keeping { generations: u32, newer_than: Span },
    /// Opens a section: the roots, or one profile by its path.
    Heading(String),
    /// A pattern of the allow-list for roots.
    Pattern(String),
    /// A path that stays.
    Kept(String),
    /// A path that will be deleted.
    Removed(String),
}

/// A report line over plain text.
pub enum Line {
    Keeping { generations: u32, newer_than: Span },
    Heading(Seq<char>),
    Pattern(Seq<char>),
    Kept(Seq<char>),
    Removed(Seq<char>),
}

impl View for ReportLine {
    type V = Line;

    open spec fn view(&self) -> Line {
        match *self {
            ReportLine::Keeping { generations, newer_than } => Line::Keeping {
                generations,
                newer_than,
            },
            ReportLine::Heading(s) => Line::Heading(s@),
            ReportLine::Pattern(s) => Line::Pattern(s@),
            ReportLine::Kept(s) => Line::Kept(s@),
            ReportLine::Removed(s) => Line::Removed(s@),
        }
    }
}

/// The lines of a report over plain text.
pub open spec fn lines(v: Seq<ReportLine>) -> Seq<Line> {
    v.map_values(|l: ReportLine| l@)
}

/// The line for one tagged path.
pub open spec fn tagged_line(path: Seq<char>, remove: bool) -> Line {
    if remove {
        Line::Removed(path)
    } else {
        Line::Kept(path)
    }
}

/// One line per path, in plan order.
pub open spec fn tagged_lines(paths: Seq<Seq<char>>, flags: Seq<bool>) -> Seq<Line> {
    Seq::new(paths.len(), |i: int| tagged_line(paths[i], flags[i]))
}

/// One line per path, last entry first.
pub open spec fn tagged_lines_newest_first(paths: Seq<Seq<char>>, flags: Seq<bool>) -> Seq<Line> {
    Seq::new(
        paths.len(),
        |i: int| tagged_line(paths[paths.len() - 1 - i], flags[paths.len() - 1 - i]),
    )
}

/// The section on roots: nothing if none was judged; else a heading, the two
/// patterns of the allow-list, and every judged root.
pub open spec fn root_section(gcroots: GcRootPlan) -> Seq<Line> {
    if gcroots.paths().len() == 0 {
        Seq::empty()
    } else {
        seq![
            Line::Heading("gcroots"@),
            Line::Pattern(direnv_pattern()),
            Line::Pattern(result_pattern()),
        ] + tagged_lines(gcroots.paths(), gcroots.flags())
    }
}

/// The section on one profile: its path, then its generations from the
/// highest number down.
pub open spec fn profile_section(plan: ProfilePlan) -> Seq<Line> {
    seq![Line::Heading(plan.profile@)] + tagged_lines_newest_first(
        generation_paths(plan.generations.keys()),
        plan.generations.flags(),
    )
}

/// The sections of all profiles, in the order of the plans.
pub open spec fn profile_sections(profiles: Seq<ProfilePlan>) -> Seq<Line>
    decreases profiles.len(),
{
    if profiles.len() == 0 {
        Seq::empty()
    } else {
        profile_sections(profiles.drop_last()) + profile_section(profiles.last())
    }
}

/// The line that states the policy of a run.
pub open spec fn policy_line(mode: CleanMode) -> Line {
    Line::Keeping { generations: mode.options().keep, newer_than: mode.options().keep_since }
}

/// The section on roots as a run shows it: nothing if the run does not scan
/// the roots.
pub open spec fn shown_roots(mode: CleanMode, gcroots: GcRootPlan) -> Seq<Line> {
    if mode.roots_in_scope() {
        root_section(gcroots)
    } else {
        Seq::empty()
    }
}

/// The whole report: the policy, the roots, if any, then profile by profile.
pub open spec fn report_lines(mode: CleanMode, gcroots: GcRootPlan, profiles: Seq<ProfilePlan>) -> Seq<
    Line,
> {
    seq![policy_line(mode)] + shown_roots(mode, gcroots) + profile_sections(profiles)
}

fn tagged(path: &String, remove: bool) -> (l: ReportLine)
    ensures
        l@ == tagged_line(path@, remove),
{
    if remove {
        ReportLine::Removed(path.clone())
    } else {
        ReportLine::Kept(path.clone())
    }
}

fn push_root_section(out: &mut Vec<ReportLine>, gcroots: &GcRootPlan)
    requires
        gcroots.wf(),
    ensures
        lines(final(out)@) == lines(old(out)@) + root_section(*gcroots),
{
    let n: usize = gcroots.len();
    if n == 0 {
        assert(lines(out@) =~= lines(old(out)@) + root_section(*gcroots));
        return ;
    }
    out.push(ReportLine::Heading("gcroots".to_owned()));
    out.push(ReportLine::Pattern(".*/.direnv/.*".to_owned()));
    out.push(ReportLine::Pattern(".*result.*".to_owned()));
    let ghost head = lines(old(out)@) + seq![
        Line::Heading("gcroots"@),
        Line::Pattern(direnv_pattern()),
        Line::Pattern(result_pattern()),
    ];
    let ghost all = tagged_lines(gcroots.paths(), gcroots.flags());
    assert(lines(out@) =~= head + all.take(0));
    let mut i: usize = 0;
    while i < n
        invariant
            gcroots.wf(),
            n == gcroots.paths().len(),
            i <= n,
            all == tagged_lines(gcroots.paths(), gcroots.flags()),
            lines(out@) == head + all.take(i as int),
        decreases n - i,
    {
        let ghost before = lines(out@);
        out.push(tagged(gcroots.target(i), gcroots.is_removed(i)));
        assert(lines(out@) =~= before.push(all[i as int]));
        assert(all.take(i + 1) =~= all.take(i as int).push(all[i as int]));
        assert(lines(out@) =~= head + all.take(i + 1));
        i = i + 1;
    }
    assert(all.take(n as int) =~= all);
    assert(lines(out@) =~= lines(old(out)@) + root_section(*gcroots));
}

fn push_profile_section(out: &mut Vec<ReportLine>, plan: &ProfilePlan)
    requires
        plan.generations.wf(),
    ensures
        lines(final(out)@) == lines(old(out)@) + profile_section(*plan),
{
    out.push(ReportLine::Heading(plan.profile.clone()));
    let n: usize = plan.generations.len();
    let ghost head = lines(old(out)@) + seq![Line::Heading(plan.profile@)];
    let ghost all = tagged_lines_newest_first(
        generation_paths(plan.generations.keys()),
        plan.generations.flags(),
    );
    assert(lines(out@) =~= head + all.take(0));
    let mut i: usize = n;
    while i > 0
        invariant
            plan.generations.wf(),
            n == plan.generations.keys().len(),
            i <= n,
            all == tagged_lines_newest_first(
                generation_paths(plan.generations.keys()),
                plan.generations.flags(),
            ),
            lines(out@) == head + all.take(n - i),
        decreases i,
    {
        let ghost before = lines(out@);
        i = i - 1;
        out.push(tagged(&plan.generations.generation(i).path, plan.generations.is_removed(i)));
        assert(lines(out@) =~= before.push(all[n - 1 - i]));
        assert(all.take(n - i) =~= all.take(n - i - 1).push(all[n - 1 - i]));
        assert(lines(out@) =~= head + all.take(n - i));
    }
    assert(all.take(n as int) =~= all);
    assert(lines(out@) =~= lines(old(out)@) + profile_section(*plan));
}

/// Lists the policy of the run and what its plan holds: every judged root,
/// if the run scans roots, and every planned generation, each marked kept
/// or removed. The plans are only read.
pub fn report(mode: &CleanMode, gcroots: &GcRootPlan, profiles: &Vec<ProfilePlan>) -> (out: Vec<
    ReportLine,
>)
    requires
        gcroots.wf(),
        plans_wf(profiles@),
    ensures
        lines(out@) == report_lines(*mode, *gcroots, profiles@),
{
    let policy = mode.policy();
    let mut out: Vec<ReportLine> = Vec::new();
    out.push(ReportLine::Keeping { generations: policy.keep, newer_than: policy.keep_since });
    let ghost head = seq![policy_line(*mode)];
    assert(lines(out@) =~= head);
    if mode.scans_gcroots() {
        push_root_section(&mut out, gcroots);
    }
    let ghost top = head + shown_roots(*mode, *gcroots);
    assert(lines(out@) =~= top + profile_sections(profiles@.take(0)));
    let n: usize = profiles.len();
    let mut i: usize = 0;
    while i < n
        invariant
            plans_wf(profiles@),
            n == profiles@.len(),
            i <= n,
            top == head + shown_roots(*mode, *gcroots),
            lines(out@) == top + profile_sections(profiles@.take(i as int)),
        decreases n - i,
    {
        assert(profiles@.take(i + 1).drop_last() =~= profiles@.take(i as int));
        assert(profiles@.take(i + 1).last() == profiles@[i as int]);
        push_profile_section(&mut out, &profiles[i]);
        assert(lines(out@) =~= top + profile_sections(profiles@.take(i + 1)));
        i = i + 1;
    }
    assert(profiles@.take(i as int) =~= profiles@);
    out
}

/// A run scoped to one profile reports no roots, whatever roots it is handed
/// and whatever its options.
pub proof fn law_profile_run_reports_no_roots(
    mode: CleanMode,
    gcroots: GcRootPlan,
    profiles: Seq<ProfilePlan>,
)
    requires
        mode is Profile,
    ensures
        report_lines(mode, gcroots, profiles) == seq![policy_line(mode)] + profile_sections(
            profiles,
        ),
{
    assert(report_lines(mode, gcroots, profiles) =~= seq![policy_line(mode)] + profile_sections(
        profiles,
    ));
}

/// The report of a dry run is that of the same run without the switch.
pub proof fn law_dry_run_reports_alike(
    mode: CleanMode,
    gcroots: GcRootPlan,
    profiles: Seq<ProfilePlan>,
)
    ensures
        report_lines(mode.with_dry(true), gcroots, profiles) == report_lines(
            mode.with_dry(false),
            gcroots,
            profiles,
        ),
{
}

} // verus!
