//! Generations of one profile and the plan that tags each of them keep or remove.

use vstd::prelude::*;
use crate::text::{lemma_text_lt_transitive, rank_text, text_lt, Rank};
use crate::time::{is_recent, kept_by_age, Span, Timestamp};

verus! {

/// One numbered link `<profile>-<number>-link`.
#[derive(Debug)]
pub struct Generation {
    pub number: u32,
    /// Modification time of the link itself, not of what it points to.
    pub last_modified: Timestamp,
    pub path: String,
}

/// What identifies and orders a generation.
pub struct GenerationKey {
    pub number: u32,
    pub last_modified: Timestamp,
    pub path: Seq<char>,
}

impl View for Generation {
    type V = GenerationKey;

    open spec fn view(&self) -> GenerationKey {
        GenerationKey { number: self.number, last_modified: self.last_modified, path: self.path@ }
    }
}

/// Generations are ordered by number, then by modification time, then by path.
pub open spec fn key_lt(a: GenerationKey, b: GenerationKey) -> bool {
    a.number < b.number || (a.number == b.number && (a.last_modified.nanos < b.last_modified.nanos
        || (a.last_modified.nanos == b.last_modified.nanos && text_lt(a.path, b.path))))
}

/// Strictly ascending by key, and so ascending by number.
pub open spec fn ascending(keys: Seq<GenerationKey>) -> bool {
    forall|i: int, j: int| 0 <= i < j < keys.len() ==> key_lt(#[trigger] keys[i], #[trigger] keys[j])
}

/// The count rule: the entry at `index` is among the `keep` last of `len` entries.
pub open spec fn kept_by_count(len: nat, index: int, keep: u32) -> bool {
    index >= len - keep
}

/// What recording `key` at position `at` does to a plan: a key that is
/// already there stays and has its flag set; a new one is put in at `at` with
/// its flag set. Nothing else changes.
pub open spec fn placed_at(
    keys: Seq<GenerationKey>,
    flags: Seq<bool>,
    new_keys: Seq<GenerationKey>,
    new_flags: Seq<bool>,
    key: GenerationKey,
    at: int,
) -> bool {
    &&& 0 <= at <= keys.len()
    &&& if keys.contains(key) {
        at < keys.len() && keys[at] == key && new_keys == keys && new_flags == flags.update(
            at,
            true,
        )
    } else {
        new_keys == keys.insert(at, key) && new_flags == flags.insert(at, true)
    }
}

/// Where `a` stands to `b` in the order of keys.
pub open spec fn key_rank(a: GenerationKey, b: GenerationKey) -> Rank {
    if a == b {
        Rank::Same
    } else if key_lt(a, b) {
        Rank::Before
    } else {
        Rank::After
    }
}

/// Places two generations in the order of their keys.
pub fn rank_generations(a: &Generation, b: &Generation) -> (r: Rank)
    ensures
        r == key_rank(a@, b@),
        r == Rank::Before ==> key_lt(a@, b@),
        r == Rank::After ==> key_lt(b@, a@),
{
    proof {
        lemma_key_lt_irreflexive(a@);
        if key_lt(a@, b@) && key_lt(b@, a@) {
            lemma_key_lt_transitive(a@, b@, a@);
        }
    }
    if a.number < b.number {
        Rank::Before
    } else if a.number > b.number {
        Rank::After
    } else if a.last_modified.nanos < b.last_modified.nanos {
        Rank::Before
    } else if a.last_modified.nanos > b.last_modified.nanos {
        Rank::After
    } else {
        rank_text(a.path.as_str(), b.path.as_str())
    }
}

/// The generations of one profile in ascending order, each with its remove flag.
#[derive(Debug)]
pub struct GenerationPlan {
    pub generations: Vec<Generation>,
    /// `remove[i]` tags `generations[i]`; `false` means keep.
    pub remove: Vec<bool>,
}

impl GenerationPlan {
    /// The keys of the planned generations, in plan order.
    pub open spec fn keys(&self) -> Seq<GenerationKey> {
        self.generations@.map_values(|g: Generation| g@)
    }

    /// The remove flags, in plan order.
    pub open spec fn flags(&self) -> Seq<bool> {
        self.remove@
    }

    /// One flag per generation, and the generations in ascending order.
    pub open spec fn wf(&self) -> bool {
        &&& self.generations@.len() == self.remove@.len()
        &&& ascending(self.keys())
    }

    /// A plan without generations.
    pub fn new() -> (plan: GenerationPlan)
        ensures
            plan.wf(),
            plan.keys() == Seq::<GenerationKey>::empty(),
            plan.flags() == Seq::<bool>::empty(),
    {
        let plan = GenerationPlan { generations: Vec::new(), remove: Vec::new() };
        assert(plan.keys() =~= Seq::<GenerationKey>::empty());
        plan
    }

    /// Number of planned generations.
    pub fn len(&self) -> (n: usize)
        requires
            self.wf(),
        ensures
            n == self.keys().len(),
            n == self.flags().len(),
    {
        self.generations.len()
    }

    /// The generation at `index`, counted from the lowest number.
    pub fn generation(&self, index: usize) -> (g: &Generation)
        requires
            self.wf(),
            index < self.keys().len(),
        ensures
            g@ == self.keys()[index as int],
    {
        &self.generations[index]
    }

    /// Whether the generation at `index` is tagged for removal.
    pub fn is_removed(&self, index: usize) -> (b: bool)
        requires
            self.wf(),
            index < self.keys().len(),
        ensures
            b == self.flags()[index as int],
    {
        self.remove[index]
    }

    /// Records a discovered generation, tagged for removal. A generation that
    /// is already planned keeps its place and is tagged for removal again.
    pub fn insert(&mut self, generation: Generation)
        requires
            old(self).wf(),
            old(self).keys().len() < usize::MAX,
        ensures
            final(self).wf(),
            final(self).keys().to_set() == old(self).keys().to_set().insert(generation@),
            exists|at: int| #[trigger]
                placed_at(
                    old(self).keys(),
                    old(self).flags(),
                    final(self).keys(),
                    final(self).flags(),
                    generation@,
                    at,
                ),
    {
        let n: usize = self.generations.len();
        let mut at: usize = 0;
        let mut found: bool = false;
        let mut placed: bool = false;
        while at < n && !placed
            invariant
                n == self.generations@.len(),
                *self == *old(self),
                self.wf(),
                at <= n,
                found ==> placed,
                forall|j: int| 0 <= j < at ==> key_lt(#[trigger] self.keys()[j], generation@),
                found ==> at < n && self.keys()[at as int] == generation@,
                placed && !found ==> at < n && key_lt(generation@, self.keys()[at as int]),
            decreases n - at + (if placed { 0int } else { 1int }),
        {
            match rank_generations(&self.generations[at], &generation) {
                Rank::Before => {
                    at = at + 1;
                },
                Rank::Same => {
                    found = true;
                    placed = true;
                },
                Rank::After => {
                    placed = true;
                },
            }
        }
        let ghost before = self.keys();
        if found {
            self.remove[at] = true;
            proof {
                assert(self.keys() =~= before);
                assert(before.contains(generation@));
                assert(before.to_set().insert(generation@) =~= before.to_set());
                assert(self.flags() =~= old(self).flags().update(at as int, true));
                assert(placed_at(
                    old(self).keys(),
                    old(self).flags(),
                    self.keys(),
                    self.flags(),
                    generation@,
                    at as int,
                ));
            }
        } else {
            proof {
                assert forall|j: int| 0 <= j < before.len() implies key_lt(
                    before[j],
                    generation@,
                ) || key_lt(generation@, #[trigger] before[j]) by {
                    if j > at {
                        lemma_key_lt_transitive(generation@, before[at as int], before[j]);
                    }
                }
                assert forall|j: int| 0 <= j < before.len() implies #[trigger] before[j]
                    != generation@ by {
                    lemma_key_lt_irreflexive(generation@);
                }
            }
            self.generations.insert(at, generation);
            self.remove.insert(at, true);
            proof {
                let after = self.keys();
                assert(after =~= before.insert(at as int, generation@));
                assert(after.to_set() =~= before.to_set().insert(generation@)) by {
                    assert forall|x: GenerationKey|
                        after.to_set().contains(x) <==> before.to_set().insert(
                            generation@,
                        ).contains(x) by {
                        if after.contains(x) {
                            let j = choose|j: int| 0 <= j < after.len() && after[j] == x;
                            if j < at {
                                assert(before[j] == x);
                            } else if j > at {
                                assert(before[j - 1] == x);
                            }
                        }
                        if before.contains(x) {
                            let j = choose|j: int| 0 <= j < before.len() && before[j] == x;
                            if j < at {
                                assert(after[j] == x);
                            } else {
                                assert(after[j + 1] == x);
                            }
                        }
                        assert(after[at as int] == generation@);
                    }
                }
                assert forall|i: int, j: int| 0 <= i < j < after.len() implies key_lt(
                    #[trigger] after[i],
                    #[trigger] after[j],
                ) by {
                    if j < at {
                        assert(key_lt(before[i], before[j]));
                    } else if j == at {
                        assert(key_lt(before[i], generation@));
                    } else if i < at {
                        assert(key_lt(before[i], before[j - 1]));
                    } else if i == at {
                        if j - 1 > at {
                            lemma_key_lt_transitive(generation@, before[at as int], before[j - 1]);
                        }
                    } else {
                        assert(key_lt(before[i - 1], before[j - 1]));
                    }
                }
                assert(!before.contains(generation@));
                assert(placed_at(
                    old(self).keys(),
                    old(self).flags(),
                    self.keys(),
                    self.flags(),
                    generation@,
                    at as int,
                ));
            }
        }
    }

    /// The age rule: clears the remove flag of each generation modified no
    /// later than `now` and at most `keep_since` before it. A generation
    /// modified after `now` keeps the flag it has.
    pub fn apply_age_rule(&mut self, now: Timestamp, keep_since: Span)
        requires
            old(self).wf(),
        ensures
            final(self).wf(),
            final(self).keys() == old(self).keys(),
            final(self).flags().len() == old(self).flags().len(),
            forall|i: int|
                0 <= i < old(self).flags().len() ==> #[trigger] final(self).flags()[i] == (old(
                    self,
                ).flags()[i] && !kept_by_age(
                    now,
                    old(self).keys()[i].last_modified,
                    keep_since,
                )),
    {
        let n: usize = self.generations.len();
        let mut i: usize = 0;
        while i < n
            invariant
                n == self.generations@.len(),
                n == self.remove@.len(),
                i <= n,
                self.generations == old(self).generations,
                forall|j: int|
                    0 <= j < i ==> #[trigger] self.remove@[j] == (old(self).remove@[j]
                        && !kept_by_age(now, old(self).keys()[j].last_modified, keep_since)),
                forall|j: int| i <= j < n ==> #[trigger] self.remove@[j] == old(self).remove@[j],
            decreases n - i,
        {
            if is_recent(now, self.generations[i].last_modified, keep_since) {
                self.remove[i] = false;
            }
            i = i + 1;
        }
    }

    /// The count rule: clears the remove flag of the `keep` generations with
    /// the highest numbers, whatever their age.
    pub fn apply_count_rule(&mut self, keep: u32)
        requires
            old(self).wf(),
        ensures
            final(self).wf(),
            final(self).keys() == old(self).keys(),
            final(self).flags().len() == old(self).flags().len(),
            forall|i: int|
                0 <= i < old(self).flags().len() ==> #[trigger] final(self).flags()[i] == (old(
                    self,
                ).flags()[i] && !kept_by_count(old(self).flags().len(), i, keep)),
    {
        let n: usize = self.generations.len();
        let mut i: usize = n;
        let mut left: u32 = keep;
        while i > 0 && left > 0
            invariant
                n == self.generations@.len(),
                n == self.remove@.len(),
                i <= n,
                left <= keep,
                n - i == keep - left,
                self.generations == old(self).generations,
                forall|j: int|
                    i <= j < n ==> #[trigger] self.remove@[j] == (old(self).remove@[j]
                        && !kept_by_count(n as nat, j, keep)),
                forall|j: int| 0 <= j < i ==> #[trigger] self.remove@[j] == old(self).remove@[j],
            decreases i,
        {
            i = i - 1;
            left = left - 1;
            self.remove[i] = false;
        }
    }
}

/// No key comes before itself.
pub proof fn lemma_key_lt_irreflexive(a: GenerationKey)
    ensures
        !key_lt(a, a),
{
}

/// The order of keys is transitive.
pub proof fn lemma_key_lt_transitive(a: GenerationKey, b: GenerationKey, c: GenerationKey)
    requires
        key_lt(a, b),
        key_lt(b, c),
    ensures
        key_lt(a, c),
{
    if a.number == b.number && b.number == c.number && a.last_modified.nanos
        == b.last_modified.nanos && b.last_modified.nanos == c.last_modified.nanos {
        lemma_text_lt_transitive(a.path, b.path, c.path);
    }
}

/// In an ascending plan the numbers never decrease.
pub proof fn lemma_ascending_numbers(keys: Seq<GenerationKey>, i: int, j: int)
    requires
        ascending(keys),
        0 <= i <= j < keys.len(),
    ensures
        keys[i].number <= keys[j].number,
{
    if i < j {
        assert(key_lt(keys[i], keys[j]));
    }
}

} // verus!
