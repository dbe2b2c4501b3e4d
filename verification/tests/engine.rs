use tms_loadtest::config::RuntimeConfig;
use tms_loadtest::outcome::{classify, should_emit, BodyOutcome, ErrorClass, HttpEvent};
use tms_loadtest::request::{ConfigKey, TransactionKind};
use tms_loadtest::scenario::{Scenario, ScenarioSet};
use tms_loadtest::sched::{aggregate_outcomes, run_simulation, run_transaction, MockTarget};
use tms_loadtest::vuser::{VirtualUser, VuState};

fn full_cfg() -> RuntimeConfig {
    RuntimeConfig::from_env(
        Some("dev".to_string()),
        Some("client1".to_string()),
        Some("sekret".to_string()),
        None,
        None,
        None,
        None,
    )
}

fn no_secret_cfg() -> RuntimeConfig {
    RuntimeConfig::from_env(
        Some("dev".to_string()),
        Some("client1".to_string()),
        None,
        None,
        None,
        None,
        None,
    )
}

fn two_scenarios() -> ScenarioSet {
    let mut set = ScenarioSet::new();
    assert!(set.register_scenario(Scenario {
        name: "getclient".to_string(),
        weight: 1,
        transactions: vec![TransactionKind::ClientFetch],
    }));
    assert!(set.register_scenario(Scenario {
        name: "getversion".to_string(),
        weight: 1,
        transactions: vec![TransactionKind::VersionProbe],
    }));
    set
}

#[test]
fn classify_transport_failure() {
    let o = classify(HttpEvent::TransportFailure, false, 7);
    assert!(!o.received);
    assert_eq!(o.error, Some(ErrorClass::Transport));
    assert_eq!(o.status, None);
    assert_eq!(o.elapsed_micros, 7);
    assert!(o.body.is_none());
}

#[test]
fn classify_status_500_is_received() {
    let o = classify(
        HttpEvent::Response { status: 500, body: BodyOutcome::Content("oops".to_string()) },
        false,
        3,
    );
    assert!(o.received);
    assert_eq!(o.error, None);
    assert_eq!(o.status, Some(500));
    assert!(o.body.is_none(), "body must not materialize when parsing is off");
}

#[test]
fn classify_keeps_body_when_parsing() {
    let o = classify(
        HttpEvent::Response { status: 200, body: BodyOutcome::Content("v1.2".to_string()) },
        true,
        3,
    );
    assert!(o.received);
    assert_eq!(o.body.as_deref(), Some("v1.2"));
}

#[test]
fn classify_read_failure_when_parsing() {
    let o = classify(HttpEvent::Response { status: 200, body: BodyOutcome::ReadFailed }, true, 3);
    assert!(!o.received);
    assert_eq!(o.error, Some(ErrorClass::ResponseRead));
    assert_eq!(o.status, Some(200));
    assert!(o.body.is_none());
}

#[test]
fn classify_read_failure_irrelevant_without_parsing() {
    let o = classify(HttpEvent::Response { status: 200, body: BodyOutcome::ReadFailed }, false, 3);
    assert!(o.received);
    assert_eq!(o.error, None);
}

#[test]
fn emit_only_when_verbose_and_parsed() {
    let parsed = classify(
        HttpEvent::Response { status: 200, body: BodyOutcome::Content("x".to_string()) },
        true,
        0,
    );
    let unparsed = classify(
        HttpEvent::Response { status: 200, body: BodyOutcome::Content("x".to_string()) },
        false,
        0,
    );
    assert!(should_emit(true, &parsed));
    assert!(!should_emit(false, &parsed));
    assert!(!should_emit(true, &unparsed));
}

#[test]
fn registry_refuses_duplicates_and_degenerate_scenarios() {
    let mut set = two_scenarios();
    assert!(!set.register_scenario(Scenario {
        name: "getclient".to_string(),
        weight: 2,
        transactions: vec![TransactionKind::VersionProbe],
    }));
    assert!(!set.register_scenario(Scenario {
        name: "noweight".to_string(),
        weight: 0,
        transactions: vec![TransactionKind::VersionProbe],
    }));
    assert!(!set.register_scenario(Scenario {
        name: "empty".to_string(),
        weight: 1,
        transactions: vec![],
    }));
    assert_eq!(set.len(), 2);
    assert_eq!(set.total_weight(), 2);
}

#[test]
fn pick_is_deterministic_and_weighted() {
    let mut set = ScenarioSet::new();
    assert!(set.register_scenario(Scenario {
        name: "rare".to_string(),
        weight: 1,
        transactions: vec![TransactionKind::VersionProbe],
    }));
    assert!(set.register_scenario(Scenario {
        name: "common".to_string(),
        weight: 3,
        transactions: vec![TransactionKind::VersionProbe],
    }));
    // the roll is the seed modulo the total weight: bracket by weight
    assert_eq!(set.pick_scenario(0), 0);
    assert_eq!(set.pick_scenario(1), 1);
    assert_eq!(set.pick_scenario(2), 1);
    assert_eq!(set.pick_scenario(3), 1);
    assert_eq!(set.pick_scenario(4), 0);
    for seed in 0..32u64 {
        assert_eq!(set.pick_scenario(seed), set.pick_scenario(seed));
    }
}

#[test]
fn outcomes_stay_in_execution_order() {
    let mut set = ScenarioSet::new();
    assert!(set.register_scenario(Scenario {
        name: "triple".to_string(),
        weight: 1,
        transactions: vec![
            TransactionKind::VersionProbe,
            TransactionKind::VersionProbe,
            TransactionKind::VersionProbe,
        ],
    }));
    let mut user = VirtualUser::new(0, 99);
    assert!(user.start_iteration(&set));
    for elapsed in [10u64, 20, 30] {
        let o = classify(HttpEvent::TransportFailure, false, elapsed);
        user.record_outcome(&set, o);
    }
    assert_eq!(user.state, VuState::Idle);
    let recorded: Vec<u64> = user.outcomes.iter().map(|o| o.elapsed_micros).collect();
    assert_eq!(recorded, vec![10, 20, 30]);
}

#[test]
fn stop_is_honored_between_transactions() {
    let mut set = ScenarioSet::new();
    assert!(set.register_scenario(Scenario {
        name: "pair".to_string(),
        weight: 1,
        transactions: vec![TransactionKind::VersionProbe, TransactionKind::VersionProbe],
    }));
    let mut user = VirtualUser::new(0, 1);
    assert!(user.start_iteration(&set));
    user.request_stop();
    // the in-flight transaction still completes and is recorded
    let o = classify(HttpEvent::TransportFailure, false, 1);
    user.record_outcome(&set, o);
    assert_eq!(user.state, VuState::Terminated);
    assert_eq!(user.outcomes.len(), 1);
    // a stopped idle user never starts another iteration
    let mut idle = VirtualUser::new(1, 1);
    idle.request_stop();
    assert!(!idle.start_iteration(&set));
    assert_eq!(idle.state, VuState::Terminated);
}

#[test]
fn transaction_against_missing_secret_is_fatal() {
    let cfg = no_secret_cfg();
    let err = run_transaction(
        TransactionKind::ClientFetch,
        &cfg,
        &MockTarget::AlwaysStatus(200),
        false,
    )
    .unwrap_err();
    assert_eq!(err.missing, ConfigKey::ClientSecret);
    let ok = run_transaction(
        TransactionKind::VersionProbe,
        &cfg,
        &MockTarget::AlwaysStatus(200),
        false,
    )
    .unwrap();
    assert!(ok.received);
}

#[test]
fn run_against_500_target_completes_with_no_transport_errors() {
    let set = two_scenarios();
    let cfg = full_cfg();
    let report = run_simulation(&set, &cfg, 3, 4, 42, &MockTarget::AlwaysStatus(500), false).unwrap();
    assert_eq!(report.total, 12);
    assert_eq!(report.received, report.total);
    assert_eq!(report.transport_errors, 0);
    assert_eq!(report.read_errors, 0);
}

#[test]
fn run_against_refusing_target_terminates_cleanly() {
    let set = two_scenarios();
    let cfg = full_cfg();
    let report = run_simulation(&set, &cfg, 2, 5, 7, &MockTarget::RefuseConnections, true).unwrap();
    assert_eq!(report.total, 10);
    assert_eq!(report.transport_errors, report.total);
    assert_eq!(report.received, 0);
    assert_eq!(report.read_errors, 0);
}

#[test]
fn run_with_missing_secret_aborts() {
    let mut set = ScenarioSet::new();
    assert!(set.register_scenario(Scenario {
        name: "getclient".to_string(),
        weight: 1,
        transactions: vec![TransactionKind::ClientFetch],
    }));
    let cfg = no_secret_cfg();
    let err = run_simulation(&set, &cfg, 2, 3, 42, &MockTarget::AlwaysStatus(200), false).unwrap_err();
    assert_eq!(err.missing, ConfigKey::ClientSecret);
}

#[test]
fn identical_runs_are_reproducible() {
    let set = two_scenarios();
    let cfg = full_cfg();
    let a = run_simulation(&set, &cfg, 5, 6, 1234, &MockTarget::AlwaysStatus(200), false).unwrap();
    let b = run_simulation(&set, &cfg, 5, 6, 1234, &MockTarget::AlwaysStatus(200), false).unwrap();
    assert_eq!(a, b);
}

#[test]
fn user_run_records_one_outcome_per_iteration() {
    let set = two_scenarios();
    let cfg = full_cfg();
    let mut user = VirtualUser::new(0, 5);
    tms_loadtest::sched::run_user(&mut user, &set, &cfg, &MockTarget::AlwaysStatus(204), false, 7)
        .unwrap();
    assert_eq!(user.outcomes.len(), 7);
    assert!(user.outcomes.iter().all(|o| o.received && o.status == Some(204)));
    assert_eq!(user.state, VuState::Idle);
}

#[test]
fn same_user_same_seed_same_stream() {
    let set = two_scenarios();
    let cfg = full_cfg();
    let mut a = VirtualUser::new(3, 99);
    let mut b = VirtualUser::new(3, 99);
    tms_loadtest::sched::run_user(&mut a, &set, &cfg, &MockTarget::RefuseConnections, true, 9)
        .unwrap();
    tms_loadtest::sched::run_user(&mut b, &set, &cfg, &MockTarget::RefuseConnections, true, 9)
        .unwrap();
    assert_eq!(a.outcomes.len(), b.outcomes.len());
    for (x, y) in a.outcomes.iter().zip(b.outcomes.iter()) {
        assert_eq!(x.received, y.received);
        assert_eq!(x.error, y.error);
        assert_eq!(x.status, y.status);
        assert_eq!(x.elapsed_micros, y.elapsed_micros);
    }
    assert_eq!(a.seed, b.seed);
}

#[test]
fn aggregate_counts_exactly() {
    let outcomes = vec![
        classify(
            HttpEvent::Response { status: 200, body: BodyOutcome::Content("a".to_string()) },
            false,
            10,
        ),
        classify(HttpEvent::TransportFailure, false, 20),
        classify(HttpEvent::Response { status: 503, body: BodyOutcome::ReadFailed }, true, 30),
    ];
    let report = aggregate_outcomes(&outcomes);
    assert_eq!(report.total, 3);
    assert_eq!(report.received, 1);
    assert_eq!(report.transport_errors, 1);
    assert_eq!(report.read_errors, 1);
    assert_eq!(report.elapsed_micros_total, 60);
}

#[test]
fn aggregate_elapsed_saturates() {
    let outcomes = vec![
        classify(HttpEvent::TransportFailure, false, u64::MAX),
        classify(HttpEvent::TransportFailure, false, 5),
    ];
    let report = aggregate_outcomes(&outcomes);
    assert_eq!(report.total, 2);
    assert_eq!(report.elapsed_micros_total, u64::MAX);
}
