//! Scenario registration and weighted scenario selection.
//!
//! A scenario is a named, ordered sequence of transactions with a positive
//! relative weight. Selection is by a roll in `[0, total weight)`: the
//! scenario picked is the one whose cumulative weight bracket contains the
//! roll, so a scenario's share of selections is proportional to its weight.

use vstd::prelude::*;
use crate::request::TransactionKind;

verus! {

/// A named, weighted, ordered sequence of transactions: one user workflow.
pub struct Scenario {
    /// Unique within a run.
    pub name: String,
    /// Relative selection weight; at least 1.
    pub weight: u64,
    /// The transactions executed, in order, on each iteration.
    pub transactions: Vec<TransactionKind>,
}

impl Scenario {
    /// A registrable scenario: positive weight, at least one transaction.
    pub open spec fn wf(self) -> bool {
        &&& self.weight >= 1
        &&& self.transactions@.len() >= 1
    }
}

/// The sum of the scenarios' weights.
pub open spec fn spec_total_weight(ss: Seq<Scenario>) -> int
    decreases ss.len(),
{
    if ss.len() == 0 {
        0
    } else {
        ss[0].weight + spec_total_weight(ss.drop_first())
    }
}

pub proof fn lemma_total_weight_nonneg(ss: Seq<Scenario>)
    ensures
        spec_total_weight(ss) >= 0,
    decreases ss.len(),
{
    if ss.len() > 0 {
        lemma_total_weight_nonneg(ss.drop_first());
    }
}

pub proof fn lemma_total_weight_push(ss: Seq<Scenario>, s: Scenario)
    ensures
        spec_total_weight(ss.push(s)) == spec_total_weight(ss) + s.weight,
    decreases ss.len(),
{
    if ss.len() == 0 {
        assert(ss.push(s)[0] == s);
        assert(spec_total_weight(Seq::<Scenario>::empty()) == 0);
        assert(ss.push(s).drop_first() =~= Seq::<Scenario>::empty());
    } else {
        assert(ss.push(s)[0] == ss[0]);
        assert(ss.push(s).drop_first() =~= ss.drop_first().push(s));
        lemma_total_weight_push(ss.drop_first(), s);
    }
}

/// With every scenario well formed, the total weight is at least the
/// number of scenarios.
pub proof fn lemma_total_weight_lower(ss: Seq<Scenario>)
    requires
        forall|i: int| 0 <= i < ss.len() ==> (#[trigger] ss[i]).wf(),
    ensures
        spec_total_weight(ss) >= ss.len(),
    decreases ss.len(),
{
    if ss.len() > 0 {
        assert(forall|i: int| 0 <= i < ss.drop_first().len() ==> (#[trigger] ss.drop_first()[i]).wf());
        lemma_total_weight_lower(ss.drop_first());
    }
}

/// No two scenarios share a name.
pub open spec fn spec_names_distinct(ss: Seq<Scenario>) -> bool {
    forall|i: int, j: int| 0 <= i < j < ss.len() ==> ss[i].name@ != ss[j].name@
}

/// The scenario index a roll `r` in `[0, total weight)` selects: the first
/// index whose cumulative weight exceeds `r`.
pub open spec fn spec_pick_from(ss: Seq<Scenario>, r: int) -> int
    decreases ss.len(),
{
    if ss.len() == 0 {
        0
    } else if r < ss[0].weight {
        0
    } else {
        1 + spec_pick_from(ss.drop_first(), r - ss[0].weight)
    }
}

pub proof fn lemma_pick_from_in_range(ss: Seq<Scenario>, r: int)
    requires
        0 <= r < spec_total_weight(ss),
    ensures
        0 <= spec_pick_from(ss, r) < ss.len(),
    decreases ss.len(),
{
    if ss.len() == 0 {
    } else if r < ss[0].weight {
    } else {
        lemma_pick_from_in_range(ss.drop_first(), r - ss[0].weight);
    }
}

/// The scenario index a seed value selects: the seed is reduced to a roll
/// modulo the total weight, then bracketed by cumulative weights.
pub open spec fn spec_pick(ss: Seq<Scenario>, seed: u64) -> int {
    spec_pick_from(ss, (seed as int) % spec_total_weight(ss))
}

/// The index a seed selects is always in range.
pub proof fn lemma_pick_in_range(ss: Seq<Scenario>, seed: u64)
    requires
        ss.len() >= 1,
        forall|i: int| 0 <= i < ss.len() ==> (#[trigger] ss[i]).wf(),
    ensures
        0 <= spec_pick(ss, seed) < ss.len(),
{
    lemma_total_weight_lower(ss);
    lemma_pick_from_in_range(ss, (seed as int) % spec_total_weight(ss));
}

/// The registered scenarios of one run: well-formed, uniquely named, with
/// a total weight that fits the selection arithmetic.
pub struct ScenarioSet {
    pub scenarios: Vec<Scenario>,
}

impl ScenarioSet {
    pub open spec fn wf(self) -> bool {
        &&& forall|i: int| 0 <= i < self.scenarios@.len() ==> (#[trigger] self.scenarios@[i]).wf()
        &&& spec_total_weight(self.scenarios@) <= u64::MAX
        &&& spec_names_distinct(self.scenarios@)
    }

    /// An empty registry.
    pub fn new() -> (s: ScenarioSet)
        ensures
            s.wf(),
            s.scenarios@.len() == 0,
    {
        ScenarioSet { scenarios: Vec::new() }
    }

    pub fn len(&self) -> (n: usize)
        ensures
            n == self.scenarios@.len(),
    {
        self.scenarios.len()
    }

    /// Whether a scenario with this name is already registered.
    pub fn contains_name(&self, name: &String) -> (b: bool)
        ensures
            b == exists|i: int|
                0 <= i < self.scenarios@.len() && (#[trigger] self.scenarios@[i]).name@ == name@,
    {
        let mut k: usize = 0;
        while k < self.scenarios.len()
            invariant
                k <= self.scenarios@.len(),
                forall|i: int| 0 <= i < k ==> (#[trigger] self.scenarios@[i]).name@ != name@,
            decreases self.scenarios@.len() - k,
        {
            if self.scenarios[k].name.eq(name) {
                return true;
            }
            k += 1;
        }
        false
    }

    /// Registers one scenario, keeping the registry well formed.
    ///
    /// Succeeds exactly when the scenario itself is well formed, its name
    /// is not yet taken, and the total weight still fits; on refusal the
    /// registry is unchanged.
    pub fn register_scenario(&mut self, s: Scenario) -> (ok: bool)
        requires
            old(self).wf(),
        ensures
            final(self).wf(),
            ok == (s.wf() && spec_total_weight(old(self).scenarios@) + s.weight <= u64::MAX
                && !exists|i: int|
                    0 <= i < old(self).scenarios@.len()
                        && (#[trigger] old(self).scenarios@[i]).name@ == s.name@),
            ok ==> final(self).scenarios@ == old(self).scenarios@.push(s),
            !ok ==> final(self).scenarios@ == old(self).scenarios@,
    {
        proof {
            lemma_total_weight_nonneg(self.scenarios@);
        }
        if s.weight < 1 || s.transactions.len() == 0 {
            return false;
        }
        let total = self.total_weight();
        if s.weight > u64::MAX - total {
            return false;
        }
        if self.contains_name(&s.name) {
            return false;
        }
        proof {
            lemma_total_weight_push(self.scenarios@, s);
        }
        self.scenarios.push(s);
        proof {
            assert forall|i: int, j: int| 0 <= i < j < self.scenarios@.len() implies
                self.scenarios@[i].name@ != self.scenarios@[j].name@ by {
                if j < self.scenarios@.len() - 1 {
                    assert(old(self).wf());
                }
            }
        }
        true
    }

    /// The total weight of all registered scenarios.
    pub fn total_weight(&self) -> (t: u64)
        requires
            self.wf(),
        ensures
            t == spec_total_weight(self.scenarios@),
    {
        let n = self.scenarios.len();
        let mut t: u64 = 0;
        let mut k: usize = 0;
        proof {
            assert(self.scenarios@.subrange(0, n as int) =~= self.scenarios@);
        }
        while k < n
            invariant
                n == self.scenarios@.len(),
                k <= n,
                self.wf(),
                t + spec_total_weight(self.scenarios@.subrange(k as int, n as int))
                    == spec_total_weight(self.scenarios@),
            decreases n - k,
        {
            proof {
                assert(self.scenarios@.subrange(k as int, n as int).drop_first()
                    =~= self.scenarios@.subrange(k as int + 1, n as int));
                lemma_total_weight_nonneg(self.scenarios@.subrange(k as int + 1, n as int));
            }
            t = t + self.scenarios[k].weight;
            k += 1;
        }
        proof {
            assert(self.scenarios@.subrange(n as int, n as int) =~= Seq::<Scenario>::empty());
        }
        t
    }

    /// Selects a scenario index from a seed value, proportionally to the
    /// registered weights. Deterministic: the index is a pure function of
    /// the seed and the registry.
    pub fn pick_scenario(&self, seed: u64) -> (i: usize)
        requires
            self.wf(),
            self.scenarios@.len() >= 1,
        ensures
            i == spec_pick(self.scenarios@, seed),
            i < self.scenarios@.len(),
    {
        let n = self.scenarios.len();
        proof {
            lemma_total_weight_lower(self.scenarios@);
        }
        let total = self.total_weight();
        let mut rem: u64 = seed % total;
        let mut i: usize = 0;
        proof {
            assert(self.scenarios@.subrange(0, n as int) =~= self.scenarios@);
            lemma_pick_from_in_range(self.scenarios@, (seed as int) % spec_total_weight(self.scenarios@));
        }
        loop
            invariant
                self.wf(),
                n == self.scenarios@.len(),
                0 <= i < n,
                (rem as int) < spec_total_weight(self.scenarios@.subrange(i as int, n as int)),
                spec_pick_from(self.scenarios@.subrange(i as int, n as int), rem as int) + i
                    == spec_pick(self.scenarios@, seed),
            decreases n - i,
        {
            let w = self.scenarios[i].weight;
            if rem < w {
                return i;
            }
            proof {
                assert(self.scenarios@.subrange(i as int, n as int).drop_first()
                    =~= self.scenarios@.subrange(i as int + 1, n as int));
                lemma_total_weight_nonneg(self.scenarios@.subrange(i as int + 1, n as int));
            }
            rem = rem - w;
            i = i + 1;
        }
    }
}

} // verus!
