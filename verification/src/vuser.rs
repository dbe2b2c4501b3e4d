//! One virtual user: an independent execution loop that repeatedly selects
//! a scenario and drives its transactions in order.
//!
//! The user owns its seed stream, its state and its private outcome
//! accumulator; no virtual user ever touches another's state. A stop
//! request is honored only between transactions: an in-flight transaction
//! is always finished and recorded first.

use vstd::prelude::*;
use vstd::pervasive::unreached;
use vstd::wrapping::u64_specs;
use crate::outcome::TransactionOutcome;
use crate::request::TransactionKind;
use crate::scenario::{ScenarioSet, spec_pick};

verus! {

/// Multiplier of the linear-congruential seed stream.
pub const SEED_STREAM_MUL: u64 = 6364136223846793005;

/// Increment of the linear-congruential seed stream.
pub const SEED_STREAM_INC: u64 = 1442695040888963407;

/// The successor of a seed value: one step of the linear-congruential
/// stream, modulo 2^64. Opaque: callers reason about seed values only by
/// equality, never through the arithmetic.
#[verifier::opaque]
pub open spec fn spec_next_seed(s: u64) -> u64 {
    u64_specs::wrapping_add(u64_specs::wrapping_mul(s, SEED_STREAM_MUL), SEED_STREAM_INC)
}

/// Advances the seed stream by one step.
pub fn next_seed(s: u64) -> (r: u64)
    ensures
        r == spec_next_seed(s),
{
    proof {
        reveal(spec_next_seed);
    }
    s.wrapping_mul(SEED_STREAM_MUL).wrapping_add(SEED_STREAM_INC)
}

/// The seed a user starts from: derived from the run's base seed and the
/// user's id, so that distinct users draw distinct streams while the whole
/// run stays a function of the base seed.
pub open spec fn spec_user_seed(base: u64, id: u64) -> u64 {
    spec_next_seed(u64_specs::wrapping_add(base, id))
}

/// Derives a user's starting seed from the run's base seed and its id.
pub fn user_seed(base: u64, id: u64) -> (r: u64)
    ensures
        r == spec_user_seed(base, id),
{
    next_seed(base.wrapping_add(id))
}

/// The lifecycle state of one virtual user.
#[derive(Clone, Copy, PartialEq, Eq, Structural, Debug)]
pub enum VuState {
    /// Between iterations: no scenario selected.
    Idle,
    /// Executing the scenario at `scenario`, about to run the transaction
    /// at `txn` of its sequence.
    Running { scenario: usize, txn: usize },
    /// Stopped for good; no further transaction will start.
    Terminated,
}

/// One independent simulated client.
pub struct VirtualUser {
    pub id: u64,
    /// The current position in this user's seed stream.
    pub seed: u64,
    /// Set by the scheduler; checked only between transactions.
    pub stop_requested: bool,
    pub state: VuState,
    /// This user's private outcome accumulator, in execution order.
    pub outcomes: Vec<TransactionOutcome>,
}

impl VirtualUser {
    /// The state's indices point into the registered scenarios.
    pub open spec fn wf(self, set: ScenarioSet) -> bool {
        match self.state {
            VuState::Running { scenario, txn } => scenario < set.scenarios@.len()
                && txn < set.scenarios@[scenario as int].transactions@.len(),
            _ => true,
        }
    }

    /// A fresh idle user with its seed derived from the run's base seed.
    pub fn new(id: u64, base_seed: u64) -> (u: VirtualUser)
        ensures
            u.id == id,
            u.seed == spec_user_seed(base_seed, id),
            u.state == VuState::Idle,
            !u.stop_requested,
            u.outcomes@.len() == 0,
    {
        VirtualUser {
            id,
            seed: user_seed(base_seed, id),
            stop_requested: false,
            state: VuState::Idle,
            outcomes: Vec::new(),
        }
    }

    /// Asks the user to stop. The user finishes its in-flight transaction,
    /// if any, before terminating: only the flag changes here.
    pub fn request_stop(&mut self)
        ensures
            final(self).id == old(self).id,
            final(self).seed == old(self).seed,
            final(self).state == old(self).state,
            final(self).outcomes == old(self).outcomes,
            final(self).stop_requested,
    {
        self.stop_requested = true;
    }

    /// Begins one iteration: advances the seed and selects a scenario by
    /// weight, or terminates if a stop was requested.
    pub fn start_iteration(&mut self, set: &ScenarioSet) -> (started: bool)
        requires
            old(self).state == VuState::Idle,
            set.wf(),
            set.scenarios@.len() >= 1,
        ensures
            final(self).id == old(self).id,
            final(self).outcomes == old(self).outcomes,
            final(self).stop_requested == old(self).stop_requested,
            started == !old(self).stop_requested,
            !started ==> final(self).state == VuState::Terminated && final(self).seed == old(self).seed,
            started ==> final(self).seed == spec_next_seed(old(self).seed)
                && final(self).state == (VuState::Running {
                    scenario: spec_pick(set.scenarios@, spec_next_seed(old(self).seed)) as usize,
                    txn: 0,
                }),
            final(self).wf(*set),
    {
        if self.stop_requested {
            self.state = VuState::Terminated;
            return false;
        }
        self.seed = next_seed(self.seed);
        let idx = set.pick_scenario(self.seed);
        proof {
            assert(set.scenarios@[idx as int].wf());
        }
        self.state = VuState::Running { scenario: idx, txn: 0 };
        true
    }

    /// The transaction the user is about to run.
    pub fn current_kind(&self, set: &ScenarioSet) -> (k: TransactionKind)
        requires
            self.wf(*set),
            self.state matches VuState::Running { .. },
        ensures
            self.state matches VuState::Running { scenario, txn }
                ==> k == set.scenarios@[scenario as int].transactions@[txn as int],
    {
        match self.state {
            VuState::Running { scenario, txn } => set.scenarios[scenario].transactions[txn],
            _ => unreached(),
        }
    }

    /// Records the outcome of the transaction just finished, in order, and
    /// advances: to the next transaction of the scenario, to `Idle` when
    /// the scenario is done, or to `Terminated` when a stop was requested
    /// (checked only here, between transactions).
    pub fn record_outcome(&mut self, set: &ScenarioSet, o: TransactionOutcome)
        requires
            old(self).wf(*set),
            old(self).state matches VuState::Running { .. },
        ensures
            final(self).id == old(self).id,
            final(self).seed == old(self).seed,
            final(self).stop_requested == old(self).stop_requested,
            final(self).outcomes@ == old(self).outcomes@.push(o),
            old(self).state matches VuState::Running { scenario, txn }
                ==> final(self).state == (if old(self).stop_requested {
                    VuState::Terminated
                } else if txn + 1 < set.scenarios@[scenario as int].transactions@.len() {
                    VuState::Running { scenario, txn: (txn + 1) as usize }
                } else {
                    VuState::Idle
                }),
            final(self).wf(*set),
    {
        self.outcomes.push(o);
        match self.state {
            VuState::Running { scenario, txn } => {
                proof {
                    assert(self.state == old(self).state);
                    assert(txn < set.scenarios@[scenario as int].transactions@.len());
                }
                let n = set.scenarios[scenario].transactions.len();
                if self.stop_requested {
                    self.state = VuState::Terminated;
                } else if txn + 1 < n {
                    self.state = VuState::Running { scenario, txn: txn + 1 };
                } else {
                    self.state = VuState::Idle;
                }
            },
            _ => {},
        }
    }
}

} // verus!
