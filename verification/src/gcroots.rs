//! Indirect garbage-collector roots: which of them are ours to judge, and
//! which of those are kept.

use vstd::prelude::*;
use crate::pattern::{check_pattern, is_match, pattern_compiles, pattern_found};
use crate::text::{
    lemma_text_lt_irreflexive, lemma_text_lt_transitive, rank_text, text_lt, Rank,
};
use crate::time::{is_recent, kept_by_age, Span, Timestamp};

verus! {

/// One entry of the registry of indirect roots.
#[derive(Debug)]
pub struct GcRootEntry {
    /// The file in the registry.
    pub root_link: String,
    /// What it resolves to. Only this is ever judged, shown or deleted.
    pub target: String,
}

/// Outcome of the access check on a root's target, made without following a
/// final symlink.
#[derive(Clone, Copy, Debug, PartialEq, Eq, Structural)]
pub enum Probe {
    /// The target exists and can be written.
    Accessible,
    NotFound,
    PermissionDenied,
    /// Any other failure, with the operating system's error number.
    Failed(i32),
}

/// Why the scan of the roots stops.
#[derive(Clone, Copy, Debug, PartialEq, Eq, Structural)]
pub enum ScanError {
    /// The engine refuses one of the allow-list patterns.
    BadPattern,
    /// The access check failed for a reason other than absence or permission.
    ProbeFailed(i32),
    /// The modification time of an accessible target could not be read.
    NoModificationTime,
}

/// What becomes of one root.
#[derive(Clone, Copy, Debug, PartialEq, Eq, Structural)]
pub enum Verdict {
    /// Not ours, not reachable, or dated in the future: it gets no plan entry.
    Ignore,
    Keep,
    Remove,
}

/// Targets under a direnv cache.
pub open spec fn direnv_pattern() -> Seq<char> {
    ".*/.direnv/.*"@
}

/// Targets whose path holds the marker of a build result.
pub open spec fn result_pattern() -> Seq<char> {
    ".*result.*"@
}

/// The allow-list: the target matches one of the two patterns.
pub open spec fn allowed(target: Seq<char>) -> bool {
    pattern_found(direnv_pattern(), target) || pattern_found(result_pattern(), target)
}

/// Both allow-list patterns are accepted by the engine.
pub open spec fn allow_list_compiles() -> bool {
    pattern_compiles(direnv_pattern()) && pattern_compiles(result_pattern())
}

/// The verdict on one root. A target off the allow-list is ignored before
/// anything else is looked at; an absent or forbidden one is ignored; any
/// other probe failure is an error; an accessible one is judged by age alone,
/// and ignored when its modification time lies after `now`.
pub open spec fn verdict(
    on_allow_list: bool,
    probe: Probe,
    modified: Option<Timestamp>,
    now: Timestamp,
    keep_since: Span,
) -> Result<Verdict, ScanError> {
    if !on_allow_list {
        Ok(Verdict::Ignore)
    } else {
        match probe {
            Probe::NotFound => Ok(Verdict::Ignore),
            Probe::PermissionDenied => Ok(Verdict::Ignore),
            Probe::Failed(errno) => Err(ScanError::ProbeFailed(errno)),
            Probe::Accessible => match modified {
                None => Err(ScanError::NoModificationTime),
                Some(t) => if t.nanos > now.nanos {
                    Ok(Verdict::Ignore)
                } else if kept_by_age(now, t, keep_since) {
                    Ok(Verdict::Keep)
                } else {
                    Ok(Verdict::Remove)
                },
            },
        }
    }
}

/// Judges one root from what was found out about its target.
pub fn judge(
    on_allow_list: bool,
    probe: Probe,
    modified: Option<Timestamp>,
    now: Timestamp,
    keep_since: Span,
) -> (r: Result<Verdict, ScanError>)
    ensures
        r == verdict(on_allow_list, probe, modified, now, keep_since),
{
    if !on_allow_list {
        return Ok(Verdict::Ignore);
    }
    match probe {
        Probe::NotFound => Ok(Verdict::Ignore),
        Probe::PermissionDenied => Ok(Verdict::Ignore),
        Probe::Failed(errno) => Err(ScanError::ProbeFailed(errno)),
        Probe::Accessible => match modified {
            None => Err(ScanError::NoModificationTime),
            Some(t) => {
                if t.nanos > now.nanos {
                    Ok(Verdict::Ignore)
                } else if is_recent(now, t, keep_since) {
                    Ok(Verdict::Keep)
                } else {
                    Ok(Verdict::Remove)
                }
            },
        },
    }
}

/// Whether `target` is on the allow-list. Fails exactly if the engine
/// refuses one of the two patterns.
pub fn is_candidate(target: &str) -> (r: Result<bool, ScanError>)
    ensures
        allow_list_compiles() ==> r == Ok::<bool, ScanError>(allowed(target@)),
        !allow_list_compiles() ==> r == Err::<bool, ScanError>(ScanError::BadPattern),
{
    if check_pattern(".*/.direnv/.*").is_err() {
        return Err(ScanError::BadPattern);
    }
    if check_pattern(".*result.*").is_err() {
        return Err(ScanError::BadPattern);
    }
    match is_match(".*/.direnv/.*", target) {
        Err(_) => Err(ScanError::BadPattern),
        Ok(true) => Ok(true),
        Ok(false) => match is_match(".*result.*", target) {
            Err(_) => Err(ScanError::BadPattern),
            Ok(b) => Ok(b),
        },
    }
}

/// Strictly ascending in the order of texts, so that nothing occurs twice.
pub open spec fn ascending_paths(paths: Seq<Seq<char>>) -> bool {
    forall|i: int, j: int| 0 <= i < j < paths.len() ==> text_lt(#[trigger] paths[i], #[trigger] paths[j])
}

/// The judged roots in ascending order of their targets: each target once,
/// with its remove flag.
#[derive(Debug)]
pub struct GcRootPlan {
    pub targets: Vec<String>,
    /// `remove[i]` tags `targets[i]`; `false` means keep.
    pub remove: Vec<bool>,
}

impl GcRootPlan {
    /// The planned targets, in ascending order.
    pub open spec fn paths(&self) -> Seq<Seq<char>> {
        self.targets@.map_values(|t: String| t@)
    }

    /// The remove flags, in plan order.
    pub open spec fn flags(&self) -> Seq<bool> {
        self.remove@
    }

    /// One flag per target, and the targets in ascending order.
    pub open spec fn wf(&self) -> bool {
        &&& self.targets@.len() == self.remove@.len()
        &&& ascending_paths(self.paths())
    }

    /// The plan as a mapping from target to remove flag.
    pub open spec fn tagged(&self) -> Map<Seq<char>, bool> {
        Map::new(
            |t: Seq<char>| self.paths().contains(t),
            |t: Seq<char>| self.flags()[self.paths().index_of(t)],
        )
    }

    /// A plan without roots.
    pub fn new() -> (plan: GcRootPlan)
        ensures
            plan.wf(),
            plan.paths() == Seq::<Seq<char>>::empty(),
            plan.flags() == Seq::<bool>::empty(),
    {
        let plan = GcRootPlan { targets: Vec::new(), remove: Vec::new() };
        assert(plan.paths() =~= Seq::<Seq<char>>::empty());
        plan
    }

    /// Number of planned roots.
    pub fn len(&self) -> (n: usize)
        requires
            self.wf(),
        ensures
            n == self.paths().len(),
    {
        self.targets.len()
    }

    /// No root was planned.
    pub fn is_empty(&self) -> (b: bool)
        requires
            self.wf(),
        ensures
            b == (self.paths().len() == 0),
    {
        self.targets.len() == 0
    }

    /// The target at `index`.
    pub fn target(&self, index: usize) -> (t: &String)
        requires
            self.wf(),
            index < self.paths().len(),
        ensures
            t@ == self.paths()[index as int],
    {
        &self.targets[index]
    }

    /// Whether the target at `index` is tagged for removal.
    pub fn is_removed(&self, index: usize) -> (b: bool)
        requires
            self.wf(),
            index < self.paths().len(),
        ensures
            b == self.flags()[index as int],
    {
        self.remove[index]
    }

    /// Tags `target`. A target recorded before takes the new flag; a new one
    /// goes to its place in the order.
    pub fn insert(&mut self, target: &str, remove: bool)
        requires
            old(self).wf(),
        ensures
            final(self).wf(),
            final(self).tagged() == old(self).tagged().insert(target@, remove),
            final(self).paths().to_set() == old(self).paths().to_set().insert(target@),
    {
        let n: usize = self.targets.len();
        let mut at: usize = 0;
        let mut found: bool = false;
        let mut placed: bool = false;
        while at < n && !placed
            invariant
                n == self.targets@.len(),
                *self == *old(self),
                self.wf(),
                at <= n,
                found ==> placed,
                forall|j: int| 0 <= j < at ==> text_lt(#[trigger] self.paths()[j], target@),
                found ==> at < n && self.paths()[at as int] == target@,
                placed && !found ==> at < n && text_lt(target@, self.paths()[at as int]),
            decreases n - at + (if placed { 0int } else { 1int }),
        {
            match rank_text(self.targets[at].as_str(), target) {
                Rank::Before => {
                    at = at + 1;
                },
                Rank::Same => {
                    found = true;
                    placed = true;
                },
                Rank::After => {
                    placed = true;
                },
            }
        }
        let ghost before = self.paths();
        let ghost flags_before = self.flags();
        let ghost tagged_before = self.tagged();
        proof {
            lemma_ascending_is_distinct(before);
        }
        if found {
            self.remove[at] = remove;
            proof {
                assert(self.paths() =~= before);
                assert(before.contains(target@));
                assert(before.to_set().insert(target@) =~= before.to_set());
                assert(self.flags() =~= flags_before.update(at as int, remove));
                assert(self.tagged() =~= tagged_before.insert(target@, remove)) by {
                    assert forall|t: Seq<char>| before.contains(t) implies #[trigger] self.tagged()[t]
                        == tagged_before.insert(target@, remove)[t] by {
                        let k = before.index_of(t);
                        if t == target@ {
                            assert(k == at);
                        } else {
                            assert(k != at);
                        }
                    }
                }
            }
        } else {
            proof {
                assert forall|j: int| 0 <= j < before.len() implies text_lt(before[j], target@)
                    || text_lt(target@, #[trigger] before[j]) by {
                    if j > at {
                        lemma_text_lt_transitive(target@, before[at as int], before[j]);
                    }
                }
                assert(!before.contains(target@));
            }
            self.targets.insert(at, target.to_owned());
            self.remove.insert(at, remove);
            proof {
                let after = self.paths();
                assert(after =~= before.insert(at as int, target@));
                assert(self.flags() =~= flags_before.insert(at as int, remove));
                assert forall|i: int, j: int| 0 <= i < j < after.len() implies text_lt(
                    #[trigger] after[i],
                    #[trigger] after[j],
                ) by {
                    if j < at {
                        assert(text_lt(before[i], before[j]));
                    } else if j == at {
                        assert(text_lt(before[i], target@));
                    } else if i < at {
                        assert(text_lt(before[i], before[j - 1]));
                    } else if i == at {
                        if j - 1 > at {
                            lemma_text_lt_transitive(target@, before[at as int], before[j - 1]);
                        }
                    } else {
                        assert(text_lt(before[i - 1], before[j - 1]));
                    }
                }
                lemma_ascending_is_distinct(after);
                assert forall|t: Seq<char>| after.contains(t) <==> (before.contains(t) || t
                    == target@) by {
                    if after.contains(t) {
                        let k = choose|k: int| 0 <= k < after.len() && after[k] == t;
                        if k < at {
                            assert(before[k] == t);
                        } else if k > at {
                            assert(before[k - 1] == t);
                        }
                    }
                    if before.contains(t) {
                        let k = choose|k: int| 0 <= k < before.len() && before[k] == t;
                        if k < at {
                            assert(after[k] == t);
                        } else {
                            assert(after[k + 1] == t);
                        }
                    }
                    assert(after[at as int] == target@);
                }
                assert(after.to_set() =~= before.to_set().insert(target@));
                assert(self.tagged() =~= tagged_before.insert(target@, remove)) by {
                    assert forall|t: Seq<char>| after.contains(t) implies #[trigger] self.tagged()[t]
                        == tagged_before.insert(target@, remove)[t] by {
                        let k = after.index_of(t);
                        if t == target@ {
                            assert(after[at as int] == target@);
                            assert(k == at);
                        } else {
                            assert(before.contains(t));
                            let kb = before.index_of(t);
                            if kb < at {
                                assert(after[kb] == t);
                                assert(k == kb);
                            } else {
                                assert(after[kb + 1] == t);
                                assert(k == kb + 1);
                            }
                        }
                    }
                }
            }
        }
    }

    /// Judges the root `entry` and records the verdict on its target.
    ///
    /// A target off the allow-list, or one whose probe came back absent or
    /// forbidden, leaves the plan as it is, whatever the policy. On an error
    /// the plan is unchanged too.
    pub fn record(
        &mut self,
        entry: &GcRootEntry,
        probe: Probe,
        modified: Option<Timestamp>,
        now: Timestamp,
        keep_since: Span,
    ) -> (r: Result<Verdict, ScanError>)
        requires
            old(self).wf(),
        ensures
            final(self).wf(),
            !allow_list_compiles() ==> r == Err::<Verdict, ScanError>(ScanError::BadPattern),
            allow_list_compiles() ==> r == verdict(
                allowed(entry.target@),
                probe,
                modified,
                now,
                keep_since,
            ),
            r == Ok::<Verdict, ScanError>(Verdict::Keep) ==> final(self).tagged() == old(
                self,
            ).tagged().insert(entry.target@, false),
            r == Ok::<Verdict, ScanError>(Verdict::Remove) ==> final(self).tagged() == old(
                self,
            ).tagged().insert(entry.target@, true),
            r is Err || r == Ok::<Verdict, ScanError>(Verdict::Ignore) ==> *final(self) == *old(
                self,
            ),
            allow_list_compiles() && !allowed(entry.target@) ==> *final(self) == *old(self),
            probe == Probe::NotFound || probe == Probe::PermissionDenied ==> *final(self) == *old(
                self,
            ),
    {
        let on_allow_list = match is_candidate(entry.target.as_str()) {
            Ok(b) => b,
            Err(e) => {
                return Err(e);
            },
        };
        let outcome = judge(on_allow_list, probe, modified, now, keep_since);
        match outcome {
            Ok(Verdict::Keep) => {
                self.insert(entry.target.as_str(), false);
            },
            Ok(Verdict::Remove) => {
                self.insert(entry.target.as_str(), true);
            },
            _ => {},
        }
        outcome
    }
}

/// In an ascending sequence every text has one place.
pub proof fn lemma_ascending_is_distinct(paths: Seq<Seq<char>>)
    requires
        ascending_paths(paths),
    ensures
        paths.no_duplicates(),
        forall|i: int, t: Seq<char>|
            0 <= i < paths.len() && #[trigger] paths[i] == t ==> #[trigger] paths.index_of(t) == i,
{
    assert forall|i: int, j: int| 0 <= i < paths.len() && 0 <= j < paths.len() && i != j implies paths[i]
        != paths[j] by {
        if i < j {
            assert(text_lt(paths[i], paths[j]));
        } else {
            assert(text_lt(paths[j], paths[i]));
        }
        lemma_text_lt_irreflexive(paths[i]);
    }
    assert forall|i: int, t: Seq<char>| 0 <= i < paths.len() && #[trigger] paths[i] == t implies
        #[trigger] paths.index_of(t) == i by {
        paths.index_of_first_ensures(t);
        let k = paths.index_of(t);
        assert(paths[k] == t);
    }
}

/// A root whose target is off the allow-list is ignored, whatever the probe
/// found and whatever the policy.
pub proof fn law_allow_list(
    probe: Probe,
    modified: Option<Timestamp>,
    now: Timestamp,
    keep_since: Span,
)
    ensures
        verdict(false, probe, modified, now, keep_since) == Ok::<Verdict, ScanError>(
            Verdict::Ignore,
        ),
{
}

/// A root whose target is absent or forbidden is ignored, whatever else holds.
pub proof fn law_inaccessible(
    on_allow_list: bool,
    probe: Probe,
    modified: Option<Timestamp>,
    now: Timestamp,
    keep_since: Span,
)
    requires
        probe == Probe::NotFound || probe == Probe::PermissionDenied,
    ensures
        verdict(on_allow_list, probe, modified, now, keep_since) == Ok::<Verdict, ScanError>(
            Verdict::Ignore,
        ),
{
}

} // verus!
