//! The scheduler: fans out virtual users, fans their outcome streams back
//! in, and aggregates them into a report.
//!
//! The run here is driven against a deterministic in-memory target model,
//! so a whole run is a pure function of its inputs; the caller outside the
//! library drives the same user state machine against a live target.

use vstd::prelude::*;
use crate::config::RuntimeConfig;
use crate::outcome::{
    BodyOutcome, ErrorClass, EventShape, HttpEvent, OutcomeSummary, TransactionOutcome, classify,
    lemma_summaries_push, spec_classify, spec_summaries,
};
use crate::request::{ConfigKey, FatalConfigError, TransactionKind, build_request, spec_missing_credential};
use crate::scenario::{Scenario, ScenarioSet, spec_pick};
use crate::vuser::{VirtualUser, VuState, spec_next_seed, spec_user_seed};

verus! {

/// A deterministic model of the target service, for reproducible runs.
#[derive(Clone, Copy, PartialEq, Eq, Structural, Debug)]
pub enum MockTarget {
    /// Every request is answered with this status code and an empty body.
    AlwaysStatus(u16),
    /// Every connection is refused: no request yields a response.
    RefuseConnections,
}

/// The event shape every round trip against this target produces.
pub open spec fn spec_mock_shape(m: MockTarget) -> EventShape {
    match m {
        MockTarget::AlwaysStatus(s) => EventShape::Response { status: s, body_ok: true },
        MockTarget::RefuseConnections => EventShape::TransportFailure,
    }
}

/// Produces the event one round trip against the mock target yields.
pub fn mock_event(m: &MockTarget) -> (e: HttpEvent)
    ensures
        e.shape() == spec_mock_shape(*m),
{
    match m {
        MockTarget::AlwaysStatus(s) => HttpEvent::Response {
            status: *s,
            body: BodyOutcome::Content(String::new()),
        },
        MockTarget::RefuseConnections => HttpEvent::TransportFailure,
    }
}

/// The one outcome summary every transaction against the mock target
/// produces, under a given parse-response setting.
pub open spec fn spec_mock_outcome(m: MockTarget, parse_response: bool) -> OutcomeSummary {
    spec_classify(spec_mock_shape(m), parse_response, 0)
}

/// Executes one transaction against the mock target: builds its request
/// from the configuration, then classifies what came back.
///
/// Returns the outcome, or the fatal configuration error when a required
/// credential is missing — in which case no traffic happens at all.
pub fn run_transaction(
    kind: TransactionKind,
    cfg: &RuntimeConfig,
    mock: &MockTarget,
    parse_response: bool,
) -> (r: Result<TransactionOutcome, FatalConfigError>)
    ensures
        match r {
            Result::Ok(o) => spec_missing_credential(kind, *cfg) is None
                && o.summary() == spec_mock_outcome(*mock, parse_response),
            Result::Err(e) => spec_missing_credential(kind, *cfg) == Option::Some(e.missing),
        },
{
    match build_request(kind, cfg) {
        Result::Ok(rq) => rq,
        Result::Err(e) => {
            return Result::Err(e);
        },
    };
    let event = mock_event(mock);
    Result::Ok(classify(event, parse_response, 0))
}

/// What one scenario execution records, and whether it aborts: the outcome
/// summaries of the transactions before the first missing credential, and
/// that missing key if one is hit.
pub open spec fn spec_run_txns(
    kinds: Seq<TransactionKind>,
    cfg: RuntimeConfig,
    m: MockTarget,
    parse_response: bool,
) -> (Seq<OutcomeSummary>, Option<ConfigKey>)
    decreases kinds.len(),
{
    if kinds.len() == 0 {
        (Seq::<OutcomeSummary>::empty(), Option::<ConfigKey>::None)
    } else {
        match spec_missing_credential(kinds[0], cfg) {
            Option::Some(k) => (Seq::<OutcomeSummary>::empty(), Option::Some(k)),
            Option::None => {
                let rest = spec_run_txns(kinds.drop_first(), cfg, m, parse_response);
                (seq![spec_mock_outcome(m, parse_response)] + rest.0, rest.1)
            },
        }
    }
}

/// Unfolds one step of [`spec_run_txns`].
pub proof fn lemma_run_txns_step(
    kinds: Seq<TransactionKind>,
    cfg: RuntimeConfig,
    m: MockTarget,
    parse_response: bool,
)
    requires
        kinds.len() > 0,
        spec_missing_credential(kinds[0], cfg) is None,
    ensures
        spec_run_txns(kinds, cfg, m, parse_response).0 == seq![
            spec_mock_outcome(m, parse_response),
        ] + spec_run_txns(kinds.drop_first(), cfg, m, parse_response).0,
        spec_run_txns(kinds, cfg, m, parse_response).1 == spec_run_txns(
            kinds.drop_first(),
            cfg,
            m,
            parse_response,
        ).1,
{
}

/// Drives the scenario the user is at the start of, transaction by
/// transaction, recording each outcome in order.
///
/// On a missing credential the scenario aborts at the failing transaction:
/// the earlier outcomes stay recorded, the user terminates, and the error
/// is returned. Otherwise the user ends the scenario idle.
#[verifier::rlimit(60)]
pub fn run_scenario(
    user: &mut VirtualUser,
    set: &ScenarioSet,
    cfg: &RuntimeConfig,
    mock: &MockTarget,
    parse_response: bool,
) -> (r: Result<(), FatalConfigError>)
    requires
        set.wf(),
        old(user).wf(*set),
        old(user).state matches VuState::Running { txn: 0, .. },
        !old(user).stop_requested,
    ensures
        final(user).id == old(user).id,
        final(user).seed == old(user).seed,
        !final(user).stop_requested,
        old(user).state matches VuState::Running { scenario: idx, .. } ==> ({
            let one = spec_run_txns(
                set.scenarios@[idx as int].transactions@,
                *cfg,
                *mock,
                parse_response,
            );
            &&& spec_summaries(final(user).outcomes@) == spec_summaries(old(user).outcomes@)
                + one.0
            &&& match r {
                Result::Ok(u) => one.1 is None && final(user).state == VuState::Idle,
                Result::Err(e) => one.1 == Option::Some(e.missing) && final(user).state
                    == VuState::Terminated,
            }
        }),
{
    let idx: usize = match user.state {
        VuState::Running { scenario, .. } => scenario,
        _ => 0,
    };
    let ghost kinds = set.scenarios@[idx as int].transactions@;
    let ghost one = spec_run_txns(kinds, *cfg, *mock, parse_response);
    let ghost base = spec_summaries(user.outcomes@);
    let ghost mut appended: Seq<OutcomeSummary> = Seq::<OutcomeSummary>::empty();
    let n = set.scenarios[idx].transactions.len();
    let mut t: usize = 0;
    proof {
        assert(kinds.subrange(0, n as int) =~= kinds);
        assert(base + appended =~= base);
    }
    while t < n
        invariant
            set.wf(),
            idx < set.scenarios@.len(),
            old(user).state == (VuState::Running { scenario: idx, txn: 0 }),
            kinds == set.scenarios@[idx as int].transactions@,
            n == kinds.len(),
            t <= n,
            t < n ==> user.state == (VuState::Running { scenario: idx, txn: t }),
            t == n ==> user.state == VuState::Idle,
            !user.stop_requested,
            user.id == old(user).id,
            user.seed == old(user).seed,
            one == spec_run_txns(kinds, *cfg, *mock, parse_response),
            base == spec_summaries(old(user).outcomes@),
            spec_summaries(user.outcomes@) == base + appended,
            appended.len() == t,
            ({
                let rest = spec_run_txns(
                    kinds.subrange(t as int, n as int),
                    *cfg,
                    *mock,
                    parse_response,
                );
                one.0 == appended + rest.0 && one.1 == rest.1
            }),
        decreases n - t,
    {
        let ghost sub = kinds.subrange(t as int, n as int);
        let kind = user.current_kind(set);
        proof {
            assert(sub[0] == kinds[t as int]);
            assert(kind == kinds[t as int]);
        }
        match run_transaction(kind, cfg, mock, parse_response) {
            Result::Err(e) => {
                proof {
                    assert(spec_run_txns(sub, *cfg, *mock, parse_response).1 == Option::Some(
                        e.missing,
                    ));
                    assert(spec_run_txns(sub, *cfg, *mock, parse_response).0
                        =~= Seq::<OutcomeSummary>::empty());
                    assert(one.0 =~= appended);
                }
                user.state = VuState::Terminated;
                return Result::Err(e);
            },
            Result::Ok(o) => {
                proof {
                    lemma_summaries_push(user.outcomes@, o);
                }
                user.record_outcome(set, o);
                proof {
                    assert(sub.drop_first() =~= kinds.subrange(t as int + 1, n as int));
                    lemma_run_txns_step(sub, *cfg, *mock, parse_response);
                    appended = appended.push(o.summary());
                    assert(spec_summaries(user.outcomes@) =~= base + appended);
                    assert(one.0 =~= appended + spec_run_txns(
                        kinds.subrange(t as int + 1, n as int),
                        *cfg,
                        *mock,
                        parse_response,
                    ).0);
                }
                t += 1;
            },
        }
    }
    proof {
        assert(kinds.subrange(n as int, n as int) =~= Seq::<TransactionKind>::empty());
        assert(one.0 =~= appended);
    }
    Result::Ok(())
}

/// What one user's whole run records, and whether it aborts: iteration by
/// iteration, a scenario is selected from the advancing seed stream and
/// its transactions run in order; the first missing credential aborts.
pub open spec fn spec_run_user_iters(
    ss: Seq<Scenario>,
    cfg: RuntimeConfig,
    seed: u64,
    iters: nat,
    m: MockTarget,
    parse_response: bool,
) -> (Seq<OutcomeSummary>, Option<ConfigKey>)
    decreases iters,
{
    if iters == 0 {
        (Seq::<OutcomeSummary>::empty(), Option::<ConfigKey>::None)
    } else {
        let s1 = spec_next_seed(seed);
        let idx = spec_pick(ss, s1);
        let one = spec_run_txns(ss[idx].transactions@, cfg, m, parse_response);
        if one.1 is Some {
            one
        } else {
            let rest = spec_run_user_iters(ss, cfg, s1, (iters - 1) as nat, m, parse_response);
            (one.0 + rest.0, rest.1)
        }
    }
}

/// Unfolds one step of [`spec_run_user_iters`].
pub proof fn lemma_run_user_iters_step(
    ss: Seq<Scenario>,
    cfg: RuntimeConfig,
    seed: u64,
    iters: nat,
    m: MockTarget,
    parse_response: bool,
)
    requires
        iters > 0,
    ensures
        ({
            let s1 = spec_next_seed(seed);
            let idx = spec_pick(ss, s1);
            let one = spec_run_txns(ss[idx].transactions@, cfg, m, parse_response);
            spec_run_user_iters(ss, cfg, seed, iters, m, parse_response) == if one.1 is Some {
                one
            } else {
                let rest = spec_run_user_iters(ss, cfg, s1, (iters - 1) as nat, m, parse_response);
                (one.0 + rest.0, rest.1)
            }
        }),
{
}

/// Drives one virtual user for a bounded number of iterations against the
/// mock target.
///
/// The user's outcome stream grows by exactly the summaries the run
/// semantics prescribe, in order. The first missing credential is returned
/// as a fatal error and terminates the user; otherwise the user ends idle.
#[verifier::rlimit(100)]
#[verifier::spinoff_prover]
pub fn run_user(
    user: &mut VirtualUser,
    set: &ScenarioSet,
    cfg: &RuntimeConfig,
    mock: &MockTarget,
    parse_response: bool,
    iterations: usize,
) -> (r: Result<(), FatalConfigError>)
    requires
        set.wf(),
        set.scenarios@.len() >= 1,
        old(user).state == VuState::Idle,
        !old(user).stop_requested,
    ensures
        final(user).id == old(user).id,
        ({
            let full = spec_run_user_iters(
                set.scenarios@,
                *cfg,
                old(user).seed,
                iterations as nat,
                *mock,
                parse_response,
            );
            &&& spec_summaries(final(user).outcomes@) == spec_summaries(old(user).outcomes@)
                + full.0
            &&& match r {
                Result::Ok(u) => full.1 is None && final(user).state == VuState::Idle,
                Result::Err(e) => full.1 == Option::Some(e.missing) && final(user).state
                    == VuState::Terminated,
            }
        }),
{
    let ghost ss = set.scenarios@;
    let ghost seed0 = user.seed;
    let ghost base0 = spec_summaries(user.outcomes@);
    let ghost full = spec_run_user_iters(ss, *cfg, seed0, iterations as nat, *mock, parse_response);
    let ghost mut acc: Seq<OutcomeSummary> = Seq::<OutcomeSummary>::empty();
    let mut j: usize = 0;
    proof {
        assert(base0 + acc =~= base0);
        assert(acc + full.0 =~= full.0);
    }
    while j < iterations
        invariant
            set.wf(),
            ss == set.scenarios@,
            ss.len() >= 1,
            user.state == VuState::Idle,
            !user.stop_requested,
            user.id == old(user).id,
            j <= iterations,
            base0 == spec_summaries(old(user).outcomes@),
            seed0 == old(user).seed,
            full == spec_run_user_iters(ss, *cfg, seed0, iterations as nat, *mock, parse_response),
            spec_summaries(user.outcomes@) == base0 + acc,
            ({
                let rem = spec_run_user_iters(
                    ss,
                    *cfg,
                    user.seed,
                    (iterations - j) as nat,
                    *mock,
                    parse_response,
                );
                full.0 == acc + rem.0 && full.1 == rem.1
            }),
        decreases iterations - j,
    {
        let ghost seed_j = user.seed;
        let ghost rem = spec_run_user_iters(
            ss,
            *cfg,
            seed_j,
            (iterations - j) as nat,
            *mock,
            parse_response,
        );
        let started = user.start_iteration(set);
        let nscen = set.scenarios.len();
        let ghost idx = spec_pick(ss, user.seed);
        proof {
            assert(started);
            crate::scenario::lemma_pick_in_range(ss, user.seed);
            assert(0 <= idx < nscen as int);
            assert((idx as usize) as int == idx);
            assert(user.state == (VuState::Running { scenario: idx as usize, txn: 0 }));
            assert(ss[(idx as usize) as int] == ss[idx]);
        }
        let ghost one = spec_run_txns(ss[idx].transactions@, *cfg, *mock, parse_response);
        let ghost rest = spec_run_user_iters(
            ss,
            *cfg,
            user.seed,
            (iterations - j - 1) as nat,
            *mock,
            parse_response,
        );
        proof {
            lemma_run_user_iters_step(ss, *cfg, seed_j, (iterations - j) as nat, *mock, parse_response);
            assert(rem == if one.1 is Some { one } else { (one.0 + rest.0, rest.1) });
        }
        match run_scenario(user, set, cfg, mock, parse_response) {
            Result::Err(e) => {
                proof {
                    assert(one.1 == Option::Some(e.missing));
                    assert(rem == one);
                    assert(spec_summaries(user.outcomes@) =~= base0 + (acc + one.0));
                    assert(full.0 == acc + one.0);
                }
                return Result::Err(e);
            },
            Result::Ok(u) => {
                proof {
                    assert(one.1 is None);
                    assert(rem.0 == one.0 + rest.0 && rem.1 == rest.1);
                    assert(acc + (one.0 + rest.0) =~= (acc + one.0) + rest.0);
                    acc = acc + one.0;
                    assert(spec_summaries(user.outcomes@) =~= base0 + acc);
                    assert(full.0 == acc + rest.0);
                }
                j += 1;
            },
        }
    }
    proof {
        assert(full.0 =~= acc);
    }
    Result::Ok(())
}

/// The mathematical content of an aggregate report: exact counts, with no
/// machine-width limits.
pub ghost struct ReportView {
    pub total: int,
    pub received: int,
    pub transport_errors: int,
    pub read_errors: int,
    pub elapsed_micros_total: int,
}

pub open spec fn spec_report_zero() -> ReportView {
    ReportView { total: 0, received: 0, transport_errors: 0, read_errors: 0, elapsed_micros_total: 0 }
}

/// Folds one more outcome into the counts.
pub open spec fn spec_report_add(v: ReportView, o: OutcomeSummary) -> ReportView {
    ReportView {
        total: v.total + 1,
        received: v.received + if o.received { 1int } else { 0int },
        transport_errors: v.transport_errors + if o.error == Option::Some(ErrorClass::Transport) { 1int } else { 0int },
        read_errors: v.read_errors + if o.error == Option::Some(ErrorClass::ResponseRead) { 1int } else { 0int },
        elapsed_micros_total: v.elapsed_micros_total + o.elapsed_micros,
    }
}

/// The counts over a whole outcome stream.
pub open spec fn spec_aggregate(s: Seq<OutcomeSummary>) -> ReportView
    decreases s.len(),
{
    if s.len() == 0 {
        spec_report_zero()
    } else {
        spec_report_add(spec_aggregate(s.drop_last()), s.last())
    }
}

pub proof fn lemma_aggregate_bounds(s: Seq<OutcomeSummary>)
    ensures
        spec_aggregate(s).total == s.len(),
        0 <= spec_aggregate(s).received <= s.len(),
        0 <= spec_aggregate(s).transport_errors <= s.len(),
        0 <= spec_aggregate(s).read_errors <= s.len(),
        spec_aggregate(s).elapsed_micros_total >= 0,
    decreases s.len(),
{
    if s.len() > 0 {
        lemma_aggregate_bounds(s.drop_last());
    }
}

/// The merged summary counters of one run.
#[derive(Clone, Copy, PartialEq, Eq, Debug)]
pub struct AggregateReport {
    /// Transactions executed.
    pub total: u64,
    /// Transactions whose response was received (any status code).
    pub received: u64,
    /// Transactions that never yielded a response.
    pub transport_errors: u64,
    /// Transactions whose body read failed mid-stream.
    pub read_errors: u64,
    /// Summed round-trip time; saturates at the counter's width.
    pub elapsed_micros_total: u64,
}

impl AggregateReport {
    /// The report records exactly these counts; only the summed elapsed
    /// time saturates.
    pub open spec fn models(self, v: ReportView) -> bool {
        &&& self.total == v.total
        &&& self.received == v.received
        &&& self.transport_errors == v.transport_errors
        &&& self.read_errors == v.read_errors
        &&& self.elapsed_micros_total == if v.elapsed_micros_total > u64::MAX {
            u64::MAX as int
        } else {
            v.elapsed_micros_total
        }
    }
}

/// Merges a finished outcome stream into its aggregate counts.
pub fn aggregate_outcomes(outcomes: &Vec<TransactionOutcome>) -> (r: AggregateReport)
    ensures
        r.models(spec_aggregate(spec_summaries(outcomes@))),
{
    let ghost all = spec_summaries(outcomes@);
    let mut r = AggregateReport {
        total: 0,
        received: 0,
        transport_errors: 0,
        read_errors: 0,
        elapsed_micros_total: 0,
    };
    let n = outcomes.len();
    let mut k: usize = 0;
    proof {
        assert(all.subrange(0, 0) =~= Seq::<OutcomeSummary>::empty());
    }
    while k < n
        invariant
            n == outcomes@.len(),
            k <= n,
            all == spec_summaries(outcomes@),
            r.models(spec_aggregate(all.subrange(0, k as int))),
        decreases n - k,
    {
        let ghost pre = all.subrange(0, k as int);
        let ghost cur = all.subrange(0, k as int + 1);
        proof {
            assert(cur.drop_last() =~= pre);
            assert(cur.last() == outcomes@[k as int].summary());
            lemma_aggregate_bounds(pre);
        }
        let o = &outcomes[k];
        r.total = r.total + 1;
        if o.received {
            r.received = r.received + 1;
        }
        match &o.error {
            Option::Some(e) => match e {
                ErrorClass::Transport => {
                    r.transport_errors = r.transport_errors + 1;
                },
                ErrorClass::ResponseRead => {
                    r.read_errors = r.read_errors + 1;
                },
            },
            Option::None => {},
        }
        r.elapsed_micros_total = if r.elapsed_micros_total > u64::MAX - o.elapsed_micros {
            u64::MAX
        } else {
            r.elapsed_micros_total + o.elapsed_micros
        };
        k += 1;
    }
    proof {
        assert(all.subrange(0, n as int) =~= all);
    }
    r
}

/// What the whole run records, and whether it aborts: the users' outcome
/// streams, merged in user order, with the first user's fatal error (if
/// any) aborting the remainder of the fan-out.
pub open spec fn spec_run_users(
    ss: Seq<Scenario>,
    cfg: RuntimeConfig,
    n: nat,
    iters: nat,
    base_seed: u64,
    m: MockTarget,
    parse_response: bool,
) -> (Seq<OutcomeSummary>, Option<ConfigKey>)
    decreases n,
{
    if n == 0 {
        (Seq::<OutcomeSummary>::empty(), Option::<ConfigKey>::None)
    } else {
        let prev = spec_run_users(ss, cfg, (n - 1) as nat, iters, base_seed, m, parse_response);
        if prev.1 is Some {
            prev
        } else {
            let u = spec_run_user_iters(
                ss,
                cfg,
                spec_user_seed(base_seed, (n - 1) as u64),
                iters,
                m,
                parse_response,
            );
            (prev.0 + u.0, u.1)
        }
    }
}

/// Once some user hits the fatal error, adding more users changes nothing:
/// the run is aborted where it failed.
pub proof fn lemma_run_users_error_stable(
    ss: Seq<Scenario>,
    cfg: RuntimeConfig,
    n1: nat,
    n2: nat,
    iters: nat,
    base_seed: u64,
    m: MockTarget,
    parse_response: bool,
)
    requires
        n1 <= n2,
        spec_run_users(ss, cfg, n1, iters, base_seed, m, parse_response).1 is Some,
    ensures
        spec_run_users(ss, cfg, n2, iters, base_seed, m, parse_response) == spec_run_users(
            ss,
            cfg,
            n1,
            iters,
            base_seed,
            m,
            parse_response,
        ),
    decreases n2,
{
    if n2 > n1 {
        lemma_run_users_error_stable(ss, cfg, n1, (n2 - 1) as nat, iters, base_seed, m, parse_response);
    }
}

/// Runs the whole attack against the mock target: fans out the requested
/// number of virtual users, lets each run its iterations, and merges the
/// finalized outcome streams in user order into one aggregate report.
///
/// The result is a pure function of the registered scenarios, the
/// configuration, the user count, the iteration bound and the base seed:
/// runs with identical inputs are reproducible. A missing required
/// credential aborts the run and is returned instead.
#[verifier::rlimit(60)]
pub fn run_simulation(
    set: &ScenarioSet,
    cfg: &RuntimeConfig,
    n_users: usize,
    iterations: usize,
    base_seed: u64,
    mock: &MockTarget,
    parse_response: bool,
) -> (r: Result<AggregateReport, FatalConfigError>)
    requires
        set.wf(),
        set.scenarios@.len() >= 1,
    ensures
        ({
            let sim = spec_run_users(
                set.scenarios@,
                *cfg,
                n_users as nat,
                iterations as nat,
                base_seed,
                *mock,
                parse_response,
            );
            match r {
                Result::Ok(rep) => sim.1 is None && rep.models(spec_aggregate(sim.0)),
                Result::Err(e) => sim.1 == Option::Some(e.missing),
            }
        }),
{
    let ghost ss = set.scenarios@;
    let mut all: Vec<TransactionOutcome> = Vec::new();
    let mut u: usize = 0;
    proof {
        assert(spec_summaries(all@) =~= Seq::<OutcomeSummary>::empty());
    }
    while u < n_users
        invariant
            set.wf(),
            ss == set.scenarios@,
            ss.len() >= 1,
            u <= n_users,
            ({
                let simu = spec_run_users(
                    ss,
                    *cfg,
                    u as nat,
                    iterations as nat,
                    base_seed,
                    *mock,
                    parse_response,
                );
                simu.1 is None && spec_summaries(all@) == simu.0
            }),
        decreases n_users - u,
    {
        let ghost simu = spec_run_users(ss, *cfg, u as nat, iterations as nat, base_seed, *mock, parse_response);
        let mut vu = VirtualUser::new(u as u64, base_seed);
        let ghost usim = spec_run_user_iters(
            ss,
            *cfg,
            spec_user_seed(base_seed, u as u64),
            iterations as nat,
            *mock,
            parse_response,
        );
        let res = run_user(&mut vu, set, cfg, mock, parse_response, iterations);
        proof {
            assert(spec_summaries(vu.outcomes@) =~= spec_summaries(Seq::<TransactionOutcome>::empty()) + usim.0);
            assert(spec_summaries(vu.outcomes@) =~= usim.0);
            // one more user in the fan-out
            assert(spec_run_users(ss, *cfg, (u + 1) as nat, iterations as nat, base_seed, *mock, parse_response)
                == (simu.0 + usim.0, usim.1));
        }
        match res {
            Result::Err(e) => {
                proof {
                    lemma_run_users_error_stable(
                        ss,
                        *cfg,
                        (u + 1) as nat,
                        n_users as nat,
                        iterations as nat,
                        base_seed,
                        *mock,
                        parse_response,
                    );
                }
                return Result::Err(e);
            },
            Result::Ok(k) => {
                all.append(&mut vu.outcomes);
                proof {
                    assert(spec_summaries(all@) =~= simu.0 + usim.0);
                }
                u += 1;
            },
        }
    }
    Result::Ok(aggregate_outcomes(&all))
}

/// Every summary a run records is the one summary the mock target
/// produces; and with all credentials present nothing aborts, so a whole
/// scenario records one outcome per transaction.
pub proof fn lemma_run_txns_shape(
    kinds: Seq<TransactionKind>,
    cfg: RuntimeConfig,
    m: MockTarget,
    parse_response: bool,
)
    ensures
        ({
            let r = spec_run_txns(kinds, cfg, m, parse_response);
            &&& forall|k: int| 0 <= k < r.0.len() ==> r.0[k] == spec_mock_outcome(m, parse_response)
            &&& (crate::request::spec_creds_ok(cfg) ==> r.1 is None && r.0.len() == kinds.len())
        }),
    decreases kinds.len(),
{
    if kinds.len() > 0 {
        lemma_run_txns_shape(kinds.drop_first(), cfg, m, parse_response);
    }
}

/// As [`lemma_run_txns_shape`], lifted over all of one user's iterations.
pub proof fn lemma_run_user_iters_shape(
    ss: Seq<Scenario>,
    cfg: RuntimeConfig,
    seed: u64,
    iters: nat,
    m: MockTarget,
    parse_response: bool,
)
    ensures
        ({
            let r = spec_run_user_iters(ss, cfg, seed, iters, m, parse_response);
            &&& forall|k: int| 0 <= k < r.0.len() ==> r.0[k] == spec_mock_outcome(m, parse_response)
            &&& (crate::request::spec_creds_ok(cfg) ==> r.1 is None)
        }),
    decreases iters,
{
    if iters > 0 {
        let s1 = spec_next_seed(seed);
        let idx = spec_pick(ss, s1);
        lemma_run_txns_shape(ss[idx].transactions@, cfg, m, parse_response);
        lemma_run_user_iters_shape(ss, cfg, s1, (iters - 1) as nat, m, parse_response);
    }
}

/// As [`lemma_run_txns_shape`], lifted over the whole fan-out of users.
pub proof fn lemma_run_users_shape(
    ss: Seq<Scenario>,
    cfg: RuntimeConfig,
    n: nat,
    iters: nat,
    base_seed: u64,
    m: MockTarget,
    parse_response: bool,
)
    ensures
        ({
            let r = spec_run_users(ss, cfg, n, iters, base_seed, m, parse_response);
            &&& forall|k: int| 0 <= k < r.0.len() ==> r.0[k] == spec_mock_outcome(m, parse_response)
            &&& (crate::request::spec_creds_ok(cfg) ==> r.1 is None)
        }),
    decreases n,
{
    if n > 0 {
        lemma_run_users_shape(ss, cfg, (n - 1) as nat, iters, base_seed, m, parse_response);
        lemma_run_user_iters_shape(
            ss,
            cfg,
            spec_user_seed(base_seed, (n - 1) as u64),
            iters,
            m,
            parse_response,
        );
    }
}

/// Counting a stream in which every outcome carries the same summary.
pub proof fn lemma_aggregate_constant(s: Seq<OutcomeSummary>, o: OutcomeSummary)
    requires
        forall|k: int| 0 <= k < s.len() ==> s[k] == o,
    ensures
        spec_aggregate(s).total == s.len(),
        spec_aggregate(s).received == if o.received { s.len() as int } else { 0int },
        spec_aggregate(s).transport_errors == if o.error == Option::Some(ErrorClass::Transport) {
            s.len() as int
        } else {
            0int
        },
        spec_aggregate(s).read_errors == if o.error == Option::Some(ErrorClass::ResponseRead) {
            s.len() as int
        } else {
            0int
        },
    decreases s.len(),
{
    if s.len() > 0 {
        lemma_aggregate_constant(s.drop_last(), o);
    }
}

/// Against a target that always answers with one status code, a fully
/// credentialed run never aborts, every transaction is recorded as
/// received with that status — whatever the code, 500 included — and none
/// is classified as a transport error.
pub proof fn lemma_run_always_status(
    ss: Seq<Scenario>,
    cfg: RuntimeConfig,
    n: nat,
    iters: nat,
    base_seed: u64,
    status: u16,
    parse_response: bool,
)
    requires
        crate::request::spec_creds_ok(cfg),
    ensures
        ({
            let r = spec_run_users(ss, cfg, n, iters, base_seed, MockTarget::AlwaysStatus(status), parse_response);
            &&& r.1 is None
            &&& forall|k: int| 0 <= k < r.0.len() ==> (#[trigger] r.0[k]).received
                && r.0[k].status == Option::Some(status) && r.0[k].error is None
            &&& spec_aggregate(r.0).received == r.0.len()
            &&& spec_aggregate(r.0).transport_errors == 0
            &&& spec_aggregate(r.0).read_errors == 0
        }),
{
    let m = MockTarget::AlwaysStatus(status);
    lemma_run_users_shape(ss, cfg, n, iters, base_seed, m, parse_response);
    let r = spec_run_users(ss, cfg, n, iters, base_seed, m, parse_response);
    lemma_aggregate_constant(r.0, spec_mock_outcome(m, parse_response));
}

/// Against a target that refuses every connection, a fully credentialed
/// run still completes at its configured bound, and every transaction is
/// classified as a transport error.
pub proof fn lemma_run_refused(
    ss: Seq<Scenario>,
    cfg: RuntimeConfig,
    n: nat,
    iters: nat,
    base_seed: u64,
    parse_response: bool,
)
    requires
        crate::request::spec_creds_ok(cfg),
    ensures
        ({
            let r = spec_run_users(ss, cfg, n, iters, base_seed, MockTarget::RefuseConnections, parse_response);
            &&& r.1 is None
            &&& forall|k: int| 0 <= k < r.0.len() ==> (#[trigger] r.0[k]).error == Option::Some(
                ErrorClass::Transport,
            ) && !r.0[k].received && r.0[k].status is None
            &&& spec_aggregate(r.0).transport_errors == r.0.len()
            &&& spec_aggregate(r.0).received == 0
            &&& spec_aggregate(r.0).read_errors == 0
        }),
{
    let m = MockTarget::RefuseConnections;
    lemma_run_users_shape(ss, cfg, n, iters, base_seed, m, parse_response);
    let r = spec_run_users(ss, cfg, n, iters, base_seed, m, parse_response);
    lemma_aggregate_constant(r.0, spec_mock_outcome(m, parse_response));
}

/// A scenario that begins with the client fetch, run without the client
/// secret, aborts with the fatal error naming that key before recording a
/// single outcome: no request is issued at all.
pub proof fn lemma_missing_secret_aborts_scenario(
    kinds: Seq<TransactionKind>,
    cfg: RuntimeConfig,
    m: MockTarget,
    parse_response: bool,
)
    requires
        kinds.len() >= 1,
        kinds[0] == TransactionKind::ClientFetch,
        cfg.tenant is Some,
        cfg.client_id is Some,
        cfg.client_secret is None,
    ensures
        spec_run_txns(kinds, cfg, m, parse_response).0 == Seq::<OutcomeSummary>::empty(),
        spec_run_txns(kinds, cfg, m, parse_response).1 == Option::Some(ConfigKey::ClientSecret),
{
    crate::request::lemma_missing_secret_is_fatal(cfg);
}

/// Reproducibility: the whole run is a pure function of the registered
/// scenarios, the configuration, the user count, the iteration bound, the
/// base seed, the target's behavior and the parse toggle — two runs with
/// identical inputs record identical outcome streams and counts.
pub proof fn lemma_run_reproducible(
    ss1: Seq<Scenario>,
    ss2: Seq<Scenario>,
    cfg1: RuntimeConfig,
    cfg2: RuntimeConfig,
    n1: nat,
    n2: nat,
    iters1: nat,
    iters2: nat,
    seed1: u64,
    seed2: u64,
    m1: MockTarget,
    m2: MockTarget,
    parse1: bool,
    parse2: bool,
)
    requires
        ss1 == ss2,
        cfg1 == cfg2,
        n1 == n2,
        iters1 == iters2,
        seed1 == seed2,
        m1 == m2,
        parse1 == parse2,
    ensures
        spec_run_users(ss1, cfg1, n1, iters1, seed1, m1, parse1) == spec_run_users(
            ss2,
            cfg2,
            n2,
            iters2,
            seed2,
            m2,
            parse2,
        ),
        spec_aggregate(spec_run_users(ss1, cfg1, n1, iters1, seed1, m1, parse1).0)
            == spec_aggregate(spec_run_users(ss2, cfg2, n2, iters2, seed2, m2, parse2).0),
{
}

/// Ordering within one virtual user: outcomes are recorded in exactly the
/// order the run semantics define — scenario by scenario, transaction by
/// transaction — so a run stopped after fewer iterations has recorded
/// precisely a prefix of any longer run's stream.
pub proof fn lemma_user_stream_prefix(
    ss: Seq<Scenario>,
    cfg: RuntimeConfig,
    seed: u64,
    iters1: nat,
    iters2: nat,
    m: MockTarget,
    parse_response: bool,
)
    requires
        iters1 <= iters2,
        spec_run_user_iters(ss, cfg, seed, iters2, m, parse_response).1 is None,
    ensures
        spec_run_user_iters(ss, cfg, seed, iters1, m, parse_response).1 is None,
        spec_run_user_iters(ss, cfg, seed, iters1, m, parse_response).0.is_prefix_of(
            spec_run_user_iters(ss, cfg, seed, iters2, m, parse_response).0,
        ),
    decreases iters1,
{
    let r1 = spec_run_user_iters(ss, cfg, seed, iters1, m, parse_response);
    let r2 = spec_run_user_iters(ss, cfg, seed, iters2, m, parse_response);
    if iters1 == 0 {
        assert(r1.0 =~= r2.0.subrange(0, 0));
    } else {
        let s1 = spec_next_seed(seed);
        let idx = spec_pick(ss, s1);
        let one = spec_run_txns(ss[idx].transactions@, cfg, m, parse_response);
        assert(one.1 is None) by {
            if one.1 is Some {
                assert(r2 == one);
            }
        }
        lemma_user_stream_prefix(ss, cfg, s1, (iters1 - 1) as nat, (iters2 - 1) as nat, m, parse_response);
        let p1 = spec_run_user_iters(ss, cfg, s1, (iters1 - 1) as nat, m, parse_response);
        let p2 = spec_run_user_iters(ss, cfg, s1, (iters2 - 1) as nat, m, parse_response);
        assert(r1.0 == one.0 + p1.0);
        assert(r2.0 == one.0 + p2.0);
        assert(p1.0 =~= p2.0.subrange(0, p1.0.len() as int));
        assert(r1.0 =~= r2.0.subrange(0, r1.0.len() as int));
    }
}

} // verus!
