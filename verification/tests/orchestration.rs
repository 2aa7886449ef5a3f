use testflow::config::{Adapter, Round, RoundResult, RunConfig, TemplateMap};
use testflow::errors::TestflowError;
use testflow::runner::{require_supported_adapter, DispatchOutcome, PauseOutcome, Scheduler};

fn round(name: &str) -> Round {
    Round { template: name.to_string() }
}

fn result(payload: &str) -> RoundResult {
    RoundResult { payload: payload.to_string() }
}

fn config(rounds: Vec<Round>, interval: u64, iterations: Option<u32>) -> RunConfig {
    RunConfig {
        rounds,
        round_templates: TemplateMap::new(),
        interval,
        iterations,
        adapter: Adapter::Hotshot,
        args: String::new(),
    }
}

#[test]
fn two_rounds_four_iterations_in_order() {
    // rounds = [A, B], interval = 0, iterations = 4: dispatches A, B, A, B as
    // iterations 1..=4 with round numbers 1, 2, 1, 2, and returns 4 results in
    // completion order.
    let cfg = config(vec![round("A"), round("B")], 0, Some(4));
    let mut s = Scheduler::new(cfg);
    let mut cmd = s.begin();
    let mut seen: Vec<(u32, usize, String)> = Vec::new();
    let mut step: u32 = 0;
    while let Some(c) = cmd {
        step += 1;
        let r = s.current_round().expect("a round must be in flight").clone();
        seen.push((c.iteration, c.round_num, r.template.clone()));
        s.on_dispatch(DispatchOutcome::Completed(result(&format!("res{}", step))));
        assert!(!s.is_terminated());
        cmd = s.on_pause(PauseOutcome::SleptFull);
    }
    assert_eq!(
        seen,
        vec![
            (1, 1, "A".to_string()),
            (2, 2, "B".to_string()),
            (3, 1, "A".to_string()),
            (4, 2, "B".to_string()),
        ]
    );
    assert!(s.is_terminated());
    assert_eq!(s.iterations_dispatched(), 4);
    let out = s.into_results();
    let payloads: Vec<String> = out.into_iter().map(|r| r.payload).collect();
    assert_eq!(payloads, vec!["res1", "res2", "res3", "res4"]);
}

#[test]
fn cancel_before_start_runs_nothing() {
    let mut s = Scheduler::new(config(vec![round("A")], 1, None));
    s.request_cancel();
    let cmd = s.begin();
    assert!(cmd.is_none());
    assert!(s.is_terminated());
    assert_eq!(s.iterations_dispatched(), 0);
    assert!(s.into_results().is_empty());
}

#[test]
fn cancel_during_pause_stops_further_rounds() {
    // rounds = [A], unbounded, cancellation arrives during the first pause:
    // exactly the one round that resolved before the request is kept, and no
    // round is dispatched after it.
    let mut s = Scheduler::new(config(vec![round("A")], 1000, None));
    let cmd = s.begin();
    assert!(cmd.is_some());
    s.on_dispatch(DispatchOutcome::Completed(result("first")));
    let next = s.on_pause(PauseOutcome::Cancelled);
    assert!(next.is_none());
    assert!(s.is_terminated());
    assert_eq!(s.iterations_dispatched(), 1);
    let out = s.into_results();
    assert_eq!(out.len(), 1);
    assert_eq!(out[0].payload, "first");
}

#[test]
fn cancel_during_dispatch_discards_abandoned_round() {
    let mut s = Scheduler::new(config(vec![round("A")], 0, None));
    s.begin().expect("run must start");
    s.on_dispatch(DispatchOutcome::Cancelled);
    assert!(s.is_terminated());
    assert!(s.into_results().is_empty());
}

#[test]
fn cancel_request_before_pause_resolves_stops_run() {
    // The request lands while a round is in flight; the round's own result is
    // still kept, but the pause observes the flag and ends the run.
    let mut s = Scheduler::new(config(vec![round("A")], 0, None));
    s.begin().expect("run must start");
    s.request_cancel();
    s.on_dispatch(DispatchOutcome::Completed(result("in-flight")));
    let next = s.on_pause(PauseOutcome::SleptFull);
    assert!(next.is_none());
    assert!(s.is_terminated());
    assert_eq!(s.into_results().len(), 1);
}

#[test]
fn repeated_cancel_requests_act_once() {
    // Requesting cancellation many times leaves the run exactly as one
    // request does.
    let mut once = Scheduler::new(config(vec![round("A")], 0, None));
    once.request_cancel();
    let mut thrice = Scheduler::new(config(vec![round("A")], 0, None));
    thrice.request_cancel();
    thrice.request_cancel();
    thrice.request_cancel();
    assert_eq!(once.begin().is_none(), thrice.begin().is_none());
    assert_eq!(once.is_terminated(), thrice.is_terminated());
    assert_eq!(once.iterations_dispatched(), thrice.iterations_dispatched());
    assert_eq!(once.into_results().len(), thrice.into_results().len());
}

#[test]
fn ceiling_bounds_iterations_and_results() {
    // Ceiling 3 over two rounds: the run stops after iteration 3, mid-pass,
    // and never holds more than 3 results.
    let mut s = Scheduler::new(config(vec![round("A"), round("B")], 0, Some(3)));
    let mut cmd = s.begin();
    let mut dispatched: u32 = 0;
    while let Some(c) = cmd {
        dispatched += 1;
        assert!(c.iteration <= 3);
        s.on_dispatch(DispatchOutcome::Completed(result("ok")));
        cmd = s.on_pause(PauseOutcome::SleptFull);
    }
    assert_eq!(dispatched, 3);
    assert_eq!(s.iterations_dispatched(), 3);
    assert_eq!(s.into_results().len(), 3);
}

#[test]
fn failed_round_is_omitted_and_run_continues() {
    let mut s = Scheduler::new(config(vec![round("A")], 0, Some(2)));
    s.begin().expect("run must start");
    s.on_dispatch(DispatchOutcome::Failed("connection refused".to_string()));
    assert!(!s.is_terminated());
    let cmd = s.on_pause(PauseOutcome::SleptFull).expect("run must continue");
    assert_eq!(cmd.iteration, 2);
    s.on_dispatch(DispatchOutcome::Completed(result("second")));
    assert!(s.on_pause(PauseOutcome::SleptFull).is_none());
    let out = s.into_results();
    assert_eq!(out.len(), 1);
    assert_eq!(out[0].payload, "second");
}

#[test]
fn unsupported_adapter_is_rejected_eagerly() {
    let r = require_supported_adapter(Adapter::Unregistered);
    assert!(matches!(
        r,
        Err(TestflowError::UnsupportedAdapter(Adapter::Unregistered))
    ));
    assert!(require_supported_adapter(Adapter::Hotshot).is_ok());
}

#[test]
fn empty_round_sequence_terminates_immediately() {
    // With no rounds there is no work: the run terminates at once instead of
    // spinning through empty passes, with or without a ceiling.
    let mut unbounded = Scheduler::new(config(Vec::new(), 0, None));
    assert!(unbounded.begin().is_none());
    assert!(unbounded.is_terminated());
    assert!(unbounded.into_results().is_empty());

    let mut bounded = Scheduler::new(config(Vec::new(), 0, Some(5)));
    assert!(bounded.begin().is_none());
    assert!(bounded.is_terminated());
}

#[test]
fn ceiling_zero_terminates_immediately() {
    let mut s = Scheduler::new(config(vec![round("A")], 0, Some(0)));
    assert!(s.begin().is_none());
    assert!(s.is_terminated());
    assert_eq!(s.iterations_dispatched(), 0);
}

#[test]
fn unbounded_run_stopped_at_pass_boundary() {
    // Two full passes over [A, B] with no ceiling, then a manual stop during
    // the pause that ends the second pass: exactly 2 passes x 2 rounds
    // results.
    let mut s = Scheduler::new(config(vec![round("A"), round("B")], 0, None));
    let mut cmd = s.begin();
    for _ in 0..3 {
        let c = cmd.expect("run must continue");
        s.on_dispatch(DispatchOutcome::Completed(result(&format!("it{}", c.iteration))));
        cmd = s.on_pause(PauseOutcome::SleptFull);
    }
    let last = cmd.expect("fourth round must dispatch");
    assert_eq!(last.iteration, 4);
    assert_eq!(last.round_num, 2);
    s.on_dispatch(DispatchOutcome::Completed(result("it4")));
    assert!(s.on_pause(PauseOutcome::Cancelled).is_none());
    assert!(s.is_terminated());
    assert_eq!(s.into_results().len(), 4);
}

#[test]
fn interval_and_config_are_preserved() {
    let cfg = config(vec![round("A")], 7, Some(9));
    let s = Scheduler::new(cfg);
    assert_eq!(s.interval(), 7);
    assert_eq!(s.config().interval, 7);
    assert_eq!(s.config().iterations, Some(9));
    assert_eq!(s.config().adapter, Adapter::Hotshot);
    assert_eq!(s.config().rounds.len(), 1);
}
