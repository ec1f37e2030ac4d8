//! Planning one profile: from the entries of its directory to a tagged plan.

use vstd::prelude::*;
use vstd::string::StringExecFns;
use crate::generations::{
    kept_by_count, Generation, GenerationKey, GenerationPlan,
};
use crate::pattern::{
    captured, captures, check_pattern, group_text, option_text, pattern_compiles,
};
use crate::text::{decimal_u32, parse_u32};
use crate::time::{kept_by_age, Span, Timestamp};

verus! {

/// One entry of a profile's parent directory, as the caller read it.
#[derive(Debug)]
pub struct LinkEntry {
    /// File name of the entry.
    pub name: String,
    /// Full path of the entry.
    pub path: String,
    /// Modification time of the entry itself, `None` if it could not be read.
    pub modified: Option<Timestamp>,
}

/// Why a profile could not be planned.
#[derive(Clone, Copy, Debug, PartialEq, Eq, Structural)]
pub enum PlanError {
    /// The profile's name does not make a pattern that the engine accepts.
    BadPattern,
    /// A name matched the pattern but its number is not a `u32` in ASCII digits.
    MalformedNumber,
}

/// How many generations to keep at least, and how young a path must be to be
/// kept whatever its number.
#[derive(Clone, Copy, Debug)]
pub struct RetentionPolicy {
    pub keep: u32,
    pub keep_since: Span,
}

impl Default for RetentionPolicy {
    /// Keeps the newest generation and nothing for its age.
    fn default() -> (p: RetentionPolicy)
        ensures
            p.keep == 1,
            p.keep_since.nanos == 0,
    {
        RetentionPolicy { keep: 1, keep_since: Span { nanos: 0 } }
    }
}

/// The pattern that picks the generations of the profile called `name`.
pub open spec fn generation_pattern(name: Seq<char>) -> Seq<char> {
    "^"@ + name + "-(\\d+)-link"@
}

/// Builds the pattern for the profile called `name`. The name goes in as it
/// stands: what it holds of the pattern language keeps its meaning there.
pub fn generation_pattern_text(name: &str) -> (p: String)
    ensures
        p@ == generation_pattern(name@),
{
    let mut p = "^".to_owned();
    p.append(name);
    p.append("-(\\d+)-link");
    p
}

/// What one entry contributes, given the digits captured from its name:
/// nothing without a capture; an error if the digits are no `u32`; nothing if
/// the modification time is unknown; else a generation.
pub open spec fn candidate(
    digits: Option<Seq<char>>,
    path: Seq<char>,
    modified: Option<Timestamp>,
) -> Result<Option<GenerationKey>, PlanError> {
    match digits {
        None => Ok(None),
        Some(d) => match decimal_u32(d) {
            None => Err(PlanError::MalformedNumber),
            Some(n) => match modified {
                None => Ok(None),
                Some(t) => Ok(Some(GenerationKey { number: n, last_modified: t, path })),
            },
        },
    }
}

/// What `entry` contributes under `pattern`.
pub open spec fn entry_candidate(pattern: Seq<char>, entry: LinkEntry) -> Result<
    Option<GenerationKey>,
    PlanError,
> {
    candidate(captured(pattern, entry.name@, 1), entry.path@, entry.modified)
}

/// The generations that `entries` hold under `pattern`.
pub open spec fn discovered(pattern: Seq<char>, entries: Seq<LinkEntry>) -> Set<GenerationKey> {
    Set::new(
        |k: GenerationKey|
            exists|i: int|
                0 <= i < entries.len() && #[trigger] entry_candidate(pattern, entries[i]) == Ok::<
                    Option<GenerationKey>,
                    PlanError,
                >(Some(k)),
    )
}

/// Some entry matches `pattern` with a number that cannot be read.
pub open spec fn any_malformed(pattern: Seq<char>, entries: Seq<LinkEntry>) -> bool {
    exists|i: int| 0 <= i < entries.len() && #[trigger] entry_candidate(pattern, entries[i]) is Err
}

/// The entry at `index` is removed: neither rule keeps it.
pub open spec fn planned_remove(
    keys: Seq<GenerationKey>,
    index: int,
    now: Timestamp,
    policy: RetentionPolicy,
) -> bool {
    !kept_by_count(keys.len(), index, policy.keep) && !kept_by_age(
        now,
        keys[index].last_modified,
        policy.keep_since,
    )
}

/// Turns the digits captured from an entry's name into a generation.
pub fn generation_from_capture(
    digits: Option<&str>,
    path: &str,
    modified: Option<Timestamp>,
) -> (r: Result<Option<Generation>, PlanError>)
    ensures
        match r {
            Ok(Some(g)) => candidate(option_text(digits), path@, modified) == Ok::<
                Option<GenerationKey>,
                PlanError,
            >(Some(g@)),
            Ok(None) => candidate(option_text(digits), path@, modified) == Ok::<
                Option<GenerationKey>,
                PlanError,
            >(None),
            Err(e) => candidate(option_text(digits), path@, modified) == Err::<
                Option<GenerationKey>,
                PlanError,
            >(e),
        },
{
    match digits {
        None => Ok(None),
        Some(d) => match parse_u32(d) {
            None => Err(PlanError::MalformedNumber),
            Some(number) => match modified {
                None => Ok(None),
                Some(last_modified) => Ok(
                    Some(Generation { number, last_modified, path: path.to_owned() }),
                ),
            },
        },
    }
}

impl GenerationPlan {
    /// Applies the age rule and the count rule. A generation stays tagged for
    /// removal exactly if it was tagged and neither rule keeps it.
    pub fn retain(&mut self, now: Timestamp, policy: RetentionPolicy)
        requires
            old(self).wf(),
        ensures
            final(self).wf(),
            final(self).keys() == old(self).keys(),
            final(self).flags().len() == old(self).flags().len(),
            forall|i: int|
                0 <= i < old(self).flags().len() ==> #[trigger] final(self).flags()[i] == (old(
                    self,
                ).flags()[i] && planned_remove(old(self).keys(), i, now, policy)),
    {
        self.apply_age_rule(now, policy.keep_since);
        self.apply_count_rule(policy.keep);
    }
}

/// Plans the generations of the profile called `profile_name` from the
/// entries of its parent directory.
///
/// Fails if the name makes no valid pattern, or if a matching entry carries a
/// number that is no `u32`. Otherwise the plan holds exactly the generations
/// that the entries yield, in ascending order, and a generation is removed
/// exactly if neither the count rule nor the age rule keeps it.
pub fn cleanable_generations(
    profile_name: &str,
    entries: &Vec<LinkEntry>,
    now: Timestamp,
    policy: RetentionPolicy,
) -> (r: Result<GenerationPlan, PlanError>)
    ensures
        !pattern_compiles(generation_pattern(profile_name@)) ==> r == Err::<
            GenerationPlan,
            PlanError,
        >(PlanError::BadPattern),
        pattern_compiles(generation_pattern(profile_name@)) && any_malformed(
            generation_pattern(profile_name@),
            entries@,
        ) ==> r == Err::<GenerationPlan, PlanError>(PlanError::MalformedNumber),
        pattern_compiles(generation_pattern(profile_name@)) && !any_malformed(
            generation_pattern(profile_name@),
            entries@,
        ) ==> r is Ok && r.unwrap().wf() && r.unwrap().keys().to_set() == discovered(
            generation_pattern(profile_name@),
            entries@,
        ) && forall|i: int|
            0 <= i < r.unwrap().flags().len() ==> #[trigger] r.unwrap().flags()[i]
                == planned_remove(r.unwrap().keys(), i, now, policy),
{
    let pattern = generation_pattern_text(profile_name);
    if check_pattern(pattern.as_str()).is_err() {
        return Err(PlanError::BadPattern);
    }
    let ghost p = pattern@;
    let mut plan = GenerationPlan::new();
    let n: usize = entries.len();
    let mut i: usize = 0;
    while i < n
        invariant
            n == entries@.len(),
            i <= n,
            p == pattern@,
            p == generation_pattern(profile_name@),
            pattern_compiles(p),
            plan.wf(),
            plan.keys().len() <= i,
            plan.keys().to_set() =~= discovered(p, entries@.take(i as int)),
            !any_malformed(p, entries@.take(i as int)),
            forall|j: int| 0 <= j < plan.flags().len() ==> #[trigger] plan.flags()[j],
        decreases n - i,
    {
        let entry = &entries[i];
        let groups = match captures(pattern.as_str(), entry.name.as_str()) {
            Ok(groups) => groups,
            Err(_) => {
                return Err(PlanError::BadPattern);
            },
        };
        let digits = group_text(&groups, 1);
        assert(option_text(digits) == captured(p, entry.name@, 1));
        let ghost here = entry_candidate(p, entries@[i as int]);
        let ghost prefix = entries@.take(i as int);
        let ghost next = entries@.take(i + 1);
        assert(next[i as int] == entries@[i as int]);
        assert(forall|j: int| 0 <= j < i ==> next[j] == prefix[j]);
        match generation_from_capture(digits, entry.path.as_str(), entry.modified) {
            Err(e) => {
                assert(entry_candidate(p, entries@[i as int]) is Err);
                assert(any_malformed(p, entries@));
                return Err(e);
            },
            Ok(None) => {
                assert(discovered(p, next) =~= discovered(p, prefix)) by {
                    assert forall|k: GenerationKey| discovered(p, next).contains(k) implies discovered(
                        p,
                        prefix,
                    ).contains(k) by {
                        let j = choose|j: int|
                            0 <= j < next.len() && #[trigger] entry_candidate(p, next[j]) == Ok::<
                                Option<GenerationKey>,
                                PlanError,
                            >(Some(k));
                        assert(j < i);
                        assert(entry_candidate(p, prefix[j]) == entry_candidate(p, next[j]));
                    }
                    assert forall|k: GenerationKey| discovered(p, prefix).contains(k) implies discovered(
                        p,
                        next,
                    ).contains(k) by {
                        let j = choose|j: int|
                            0 <= j < prefix.len() && #[trigger] entry_candidate(p, prefix[j])
                                == Ok::<Option<GenerationKey>, PlanError>(Some(k));
                        assert(entry_candidate(p, next[j]) == entry_candidate(p, prefix[j]));
                    }
                }
            },
            Ok(Some(g)) => {
                let ghost key = g@;
                plan.insert(g);
                assert(discovered(p, next) =~= discovered(p, prefix).insert(key)) by {
                    assert(entry_candidate(p, next[i as int]) == Ok::<
                        Option<GenerationKey>,
                        PlanError,
                    >(Some(key)));
                    assert forall|k: GenerationKey| discovered(p, next).contains(k) implies discovered(
                        p,
                        prefix,
                    ).insert(key).contains(k) by {
                        let j = choose|j: int|
                            0 <= j < next.len() && #[trigger] entry_candidate(p, next[j]) == Ok::<
                                Option<GenerationKey>,
                                PlanError,
                            >(Some(k));
                        if j < i {
                            assert(entry_candidate(p, prefix[j]) == entry_candidate(p, next[j]));
                        }
                    }
                    assert forall|k: GenerationKey|
                        discovered(p, prefix).insert(key).contains(k) implies discovered(
                        p,
                        next,
                    ).contains(k) by {
                        if k != key {
                            let j = choose|j: int|
                                0 <= j < prefix.len() && #[trigger] entry_candidate(p, prefix[j])
                                    == Ok::<Option<GenerationKey>, PlanError>(Some(k));
                            assert(entry_candidate(p, next[j]) == entry_candidate(p, prefix[j]));
                        }
                    }
                }
            },
        }
        assert(!any_malformed(p, next)) by {
            if any_malformed(p, next) {
                let j = choose|j: int|
                    0 <= j < next.len() && #[trigger] entry_candidate(p, next[j]) is Err;
                if j < i {
                    assert(entry_candidate(p, prefix[j]) is Err);
                }
            }
        }
        i = i + 1;
    }
    assert(entries@.take(i as int) =~= entries@);
    plan.retain(now, policy);
    Ok(plan)
}

/// A generation is kept exactly if the count rule or the age rule keeps it;
/// either is enough.
pub proof fn law_kept_by_either_rule(
    keys: Seq<GenerationKey>,
    index: int,
    now: Timestamp,
    policy: RetentionPolicy,
)
    requires
        0 <= index < keys.len(),
    ensures
        !planned_remove(keys, index, now, policy) <==> (kept_by_count(
            keys.len(),
            index,
            policy.keep,
        ) || kept_by_age(now, keys[index].last_modified, policy.keep_since)),
{
}

/// Of generations numbered 1 to N, with `keep` at most N and a zero
/// `keep_since`, exactly those with the `keep` highest numbers are kept,
/// provided none of the others was modified at the very instant `now`.
pub proof fn law_count_rule(keys: Seq<GenerationKey>, now: Timestamp, keep: u32)
    requires
        forall|j: int| 0 <= j < keys.len() ==> (#[trigger] keys[j]).number == j + 1,
        keep <= keys.len(),
        forall|j: int| 0 <= j < keys.len() - keep ==> (#[trigger] keys[j]).last_modified != now,
    ensures
        forall|i: int|
            0 <= i < keys.len() ==> (#[trigger] planned_remove(
                keys,
                i,
                now,
                RetentionPolicy { keep, keep_since: Span { nanos: 0 } },
            ) <==> keys[i].number <= keys.len() - keep),
{
    assert forall|i: int| 0 <= i < keys.len() implies (#[trigger] planned_remove(
        keys,
        i,
        now,
        RetentionPolicy { keep, keep_since: Span { nanos: 0 } },
    ) <==> keys[i].number <= keys.len() - keep) by {
        assert(keys[i].number == i + 1);
        if i < keys.len() - keep {
            assert(keys[i].last_modified != now);
        }
    }
}

/// A generation modified no later than `now` and at most `keep_since` before
/// it is kept, whatever `keep` is.
pub proof fn law_age_rule(
    keys: Seq<GenerationKey>,
    index: int,
    now: Timestamp,
    policy: RetentionPolicy,
)
    requires
        0 <= index < keys.len(),
        keys[index].last_modified.nanos <= now.nanos,
        now.nanos - keys[index].last_modified.nanos <= policy.keep_since.nanos,
    ensures
        !planned_remove(keys, index, now, policy),
{
}

/// With the default policy only the last generation of a plan survives,
/// unless another was modified at the very instant `now`.
pub proof fn law_default_policy(keys: Seq<GenerationKey>, index: int, now: Timestamp)
    requires
        0 <= index < keys.len(),
        keys[index].last_modified != now,
    ensures
        !planned_remove(
            keys,
            index,
            now,
            RetentionPolicy { keep: 1, keep_since: Span { nanos: 0 } },
        ) <==> index == keys.len() - 1,
{
}

} // verus!
