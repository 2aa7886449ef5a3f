//! Laws of whole runs.
//!
//! A run is a sequence of observable events — a start, cancellation requests,
//! and the resolutions of the two races — folded over the scheduler's
//! transition functions. The proof functions here state what holds of every
//! such run: well-formedness and the counters' monotonicity are preserved, a
//! ceiling bounds both the counter and the result count, cancellation before
//! the start keeps the run empty, cancellation outside a dispatch stops all
//! further work, and a failure-free run yields exactly one result per
//! dispatched round.

use vstd::prelude::*;
use vstd::arithmetic::div_mod::{
    lemma_fundamental_div_mod, lemma_mod_add_multiples_vanish, lemma_small_mod,
};
use crate::runner::{DispatchOutcome, PauseOutcome, SchedulerModel};

verus! {

/// One observable step of a run, as the driver reports it.
pub enum RunEvent {
    /// The run was started (`Scheduler::begin`).
    Started,
    /// Cancellation was requested (`Scheduler::request_cancel`).
    CancelRequested,
    /// The dispatch race resolved (`Scheduler::on_dispatch`).
    DispatchResolved(DispatchOutcome),
    /// The pause race resolved (`Scheduler::on_pause`).
    PauseResolved(PauseOutcome),
}

/// The scheduler after one event. An event that does not fit the current
/// phase changes nothing; the exec interface enforces the fit through its
/// preconditions, so a driven run only ever takes the fitting branches.
pub open spec fn step(m: SchedulerModel, event: RunEvent) -> SchedulerModel {
    match event {
        RunEvent::Started => if m.state is Idle {
            m.step_begin()
        } else {
            m
        },
        RunEvent::CancelRequested => m.step_cancel(),
        RunEvent::DispatchResolved(outcome) => if m.state is Dispatching {
            m.step_dispatch(outcome)
        } else {
            m
        },
        RunEvent::PauseResolved(outcome) => if m.state is Pausing {
            m.step_pause(outcome)
        } else {
            m
        },
    }
}

/// The scheduler after a whole sequence of events.
pub open spec fn run_from(m: SchedulerModel, events: Seq<RunEvent>) -> SchedulerModel
    decreases events.len(),
{
    if events.len() == 0 {
        m
    } else {
        run_from(step(m, events[0]), events.drop_first())
    }
}

/// Every step preserves well-formedness, leaves the configuration alone,
/// never decreases the iteration counter or the result count, and never
/// clears the cancellation flag.
pub proof fn lemma_step_preserves(m: SchedulerModel, event: RunEvent)
    requires
        m.wf(),
    ensures
        step(m, event).wf(),
        step(m, event).rounds == m.rounds,
        step(m, event).interval == m.interval,
        step(m, event).ceiling == m.ceiling,
        step(m, event).adapter == m.adapter,
        step(m, event).iteration >= m.iteration,
        step(m, event).results.len() >= m.results.len(),
        m.cancelled ==> step(m, event).cancelled,
{
    match event {
        RunEvent::Started => {}
        RunEvent::CancelRequested => {}
        RunEvent::DispatchResolved(outcome) => {
            if m.state is Dispatching {
                match outcome {
                    DispatchOutcome::Completed(result) => {
                        assert(m.step_dispatch(outcome).results == m.results.push(result));
                    }
                    DispatchOutcome::Failed(_) => {}
                    DispatchOutcome::Cancelled => {}
                }
            }
        }
        RunEvent::PauseResolved(_) => {}
    }
}

/// A whole run preserves well-formedness and the configuration, and the
/// iteration counter only ever increases — part of the scheduler's stated
/// invariants.
pub proof fn lemma_run_preserves(m: SchedulerModel, events: Seq<RunEvent>)
    requires
        m.wf(),
    ensures
        run_from(m, events).wf(),
        run_from(m, events).rounds == m.rounds,
        run_from(m, events).interval == m.interval,
        run_from(m, events).ceiling == m.ceiling,
        run_from(m, events).adapter == m.adapter,
        run_from(m, events).iteration >= m.iteration,
        run_from(m, events).results.len() >= m.results.len(),
        m.cancelled ==> run_from(m, events).cancelled,
    decreases events.len(),
{
    if events.len() > 0 {
        lemma_step_preserves(m, events[0]);
        lemma_run_preserves(step(m, events[0]), events.drop_first());
    }
}

/// Running two event batches one after the other is running their
/// concatenation.
pub proof fn lemma_run_from_concat(m: SchedulerModel, first: Seq<RunEvent>, second: Seq<RunEvent>)
    ensures
        run_from(m, first + second) == run_from(run_from(m, first), second),
    decreases first.len(),
{
    if first.len() == 0 {
        assert(first + second =~= second);
    } else {
        assert((first + second)[0] == first[0]);
        assert((first + second).drop_first() =~= first.drop_first() + second);
        lemma_run_from_concat(step(m, first[0]), first.drop_first(), second);
    }
}

/// Law: under an iteration ceiling `n`, no run ever pushes the iteration
/// counter past `n`, and the result sequence never holds more than `n`
/// entries.
pub proof fn lemma_ceiling_bounds_run(m: SchedulerModel, events: Seq<RunEvent>, n: u32)
    requires
        m.wf(),
        m.ceiling == Some(n),
    ensures
        run_from(m, events).iteration <= n,
        run_from(m, events).results.len() <= n,
{
    lemma_run_preserves(m, events);
}

/// Law: if cancellation is requested before the run starts, the run stays
/// empty — no round is ever dispatched, the iteration counter stays at zero
/// and the result sequence stays empty, whatever events follow.
pub proof fn lemma_cancel_before_start(m: SchedulerModel, events: Seq<RunEvent>)
    requires
        m.wf(),
        m.state is Idle,
        m.cancelled,
    ensures
        run_from(m, events).iteration == 0,
        run_from(m, events).results.len() == 0,
        !(run_from(m, events).state is Dispatching),
    decreases events.len(),
{
    if events.len() > 0 {
        let next = step(m, events[0]);
        assert(next.state is Idle || next.state is Terminated);
        if next.state is Idle {
            lemma_cancel_before_start(next, events.drop_first());
        } else {
            lemma_cancelled_stops_run(next, events.drop_first());
        }
    }
}

/// Law: once cancellation has been requested and the scheduler is not in the
/// middle of a dispatch — in particular when it is requested mid-sleep — no
/// further round is dispatched and no further result is appended, whatever
/// events follow.
pub proof fn lemma_cancelled_stops_run(m: SchedulerModel, events: Seq<RunEvent>)
    requires
        m.cancelled,
        !(m.state is Dispatching),
    ensures
        run_from(m, events).iteration == m.iteration,
        run_from(m, events).results == m.results,
        !(run_from(m, events).state is Dispatching),
    decreases events.len(),
{
    if events.len() > 0 {
        lemma_cancelled_stops_run(step(m, events[0]), events.drop_first());
    }
}

/// Events of a run in which nothing fails and nothing is cancelled: every
/// dispatch race resolves to a completed round and every pause race to a full
/// sleep.
pub open spec fn all_successful(events: Seq<RunEvent>) -> bool {
    forall|k: int|
        0 <= k < events.len() ==> match #[trigger] events[k] {
            RunEvent::Started => true,
            RunEvent::CancelRequested => false,
            RunEvent::DispatchResolved(outcome) => outcome is Completed,
            RunEvent::PauseResolved(outcome) => outcome is SleptFull,
        }
}

/// Law: in a failure-free, cancellation-free run, every dispatched iteration
/// contributes exactly one result — the result count equals the iteration
/// counter whenever no round is in flight, and trails it by exactly the one
/// in-flight round otherwise.
pub proof fn lemma_all_success_counts(m: SchedulerModel, events: Seq<RunEvent>)
    requires
        m.wf(),
        !m.cancelled,
        all_successful(events),
        m.state is Dispatching ==> m.results.len() == m.iteration - 1,
        !(m.state is Dispatching) ==> m.results.len() == m.iteration,
    ensures
        run_from(m, events).wf(),
        !run_from(m, events).cancelled,
        run_from(m, events).state is Dispatching
            ==> run_from(m, events).results.len() == run_from(m, events).iteration - 1,
        !(run_from(m, events).state is Dispatching)
            ==> run_from(m, events).results.len() == run_from(m, events).iteration,
    decreases events.len(),
{
    if events.len() > 0 {
        lemma_step_preserves(m, events[0]);
        assert(all_successful(events.drop_first())) by {
            assert(forall|k: int|
                0 <= k < events.drop_first().len()
                    ==> #[trigger] events.drop_first()[k] == events[k + 1]);
        }
        lemma_all_success_counts(step(m, events[0]), events.drop_first());
    }
}

/// Law: a failure-free, cancellation-free run under ceiling `n`, over a
/// non-empty round sequence, holds exactly `n` results once it terminates.
pub proof fn lemma_all_success_exact_ceiling(m: SchedulerModel, events: Seq<RunEvent>, n: u32)
    requires
        m.wf(),
        m.state is Idle,
        !m.cancelled,
        m.ceiling == Some(n),
        m.rounds.len() > 0,
        all_successful(events),
        run_from(m, events).state is Terminated,
    ensures
        run_from(m, events).results.len() == n,
        run_from(m, events).iteration == n,
{
    lemma_all_success_counts(m, events);
    lemma_all_success_terminated_iteration(m, events, n);
}

/// In a failure-free, cancellation-free run under ceiling `n` over a
/// non-empty round sequence, a terminated scheduler has dispatched exactly
/// `n` iterations: the only terminating transition left is the ceiling check.
proof fn lemma_all_success_terminated_iteration(
    m: SchedulerModel,
    events: Seq<RunEvent>,
    n: u32,
)
    requires
        m.wf(),
        !m.cancelled,
        m.ceiling == Some(n),
        m.rounds.len() > 0,
        all_successful(events),
        m.state is Terminated ==> m.iteration == n,
    ensures
        run_from(m, events).state is Terminated ==> run_from(m, events).iteration == n,
    decreases events.len(),
{
    if events.len() > 0 {
        lemma_step_preserves(m, events[0]);
        assert(all_successful(events.drop_first())) by {
            assert(forall|k: int|
                0 <= k < events.drop_first().len()
                    ==> #[trigger] events.drop_first()[k] == events[k + 1]);
        }
        lemma_all_success_terminated_iteration(step(m, events[0]), events.drop_first(), n);
    }
}

/// While a pass is underway, the iteration counter splits into whole passes
/// plus the in-pass round number: their difference is a multiple of the pass
/// length.
pub open spec fn pass_aligned(m: SchedulerModel) -> bool {
    (m.state is Dispatching || m.state is Pausing)
        ==> (m.iteration - m.round_num) % (m.rounds.len() as int) == 0
}

/// Every step keeps the iteration counter aligned with the pass structure.
proof fn lemma_step_pass_aligned(m: SchedulerModel, event: RunEvent)
    requires
        m.wf(),
        pass_aligned(m),
    ensures
        pass_aligned(step(m, event)),
{
    lemma_step_preserves(m, event);
    let next = step(m, event);
    let len = m.rounds.len() as int;
    if next.state is Dispatching || next.state is Pausing {
        match event {
            RunEvent::Started => {
                if m.state is Idle {
                    lemma_small_mod(0, m.rounds.len());
                }
            }
            RunEvent::CancelRequested => {}
            RunEvent::DispatchResolved(_) => {}
            RunEvent::PauseResolved(outcome) => {
                if m.state is Pausing && !(outcome is Cancelled) && !m.cancelled
                    && !m.ceiling_reached() {
                    if m.round_num >= m.rounds.len() {
                        // A fresh pass: the previous iterations formed whole
                        // passes.
                        lemma_mod_add_multiples_vanish(m.iteration - len, len);
                        assert(next.iteration - next.round_num == m.iteration as int);
                    } else {
                        assert(next.iteration - next.round_num
                            == m.iteration - m.round_num);
                    }
                }
            }
        }
    }
}

/// A whole run keeps the iteration counter aligned with the pass structure.
proof fn lemma_run_pass_aligned(m: SchedulerModel, events: Seq<RunEvent>)
    requires
        m.wf(),
        pass_aligned(m),
    ensures
        pass_aligned(run_from(m, events)),
    decreases events.len(),
{
    if events.len() > 0 {
        lemma_step_preserves(m, events[0]);
        lemma_step_pass_aligned(m, events[0]);
        lemma_run_pass_aligned(step(m, events[0]), events.drop_first());
    }
}

/// Law: the unbounded flavor of the exact-count property — a failure-free,
/// cancellation-free run standing at the end of a full pass holds exactly
/// one result per dispatched round, and that count is a whole number of
/// passes times the pass length. A manual stop from here changes nothing
/// further (`lemma_cancelled_stops_run`), so the returned results number
/// exactly `passes x rounds.len()`.
pub proof fn lemma_all_success_full_passes(m: SchedulerModel, events: Seq<RunEvent>)
    requires
        m.wf(),
        m.state is Idle,
        !m.cancelled,
        all_successful(events),
        run_from(m, events).state is Pausing,
        run_from(m, events).round_num == run_from(m, events).rounds.len(),
    ensures
        run_from(m, events).results.len() == run_from(m, events).iteration,
        (run_from(m, events).results.len() as int) % (run_from(m, events).rounds.len() as int)
            == 0,
        run_from(m, events).results.len() == (run_from(m, events).rounds.len() as int) * (
        (run_from(m, events).results.len() as int) / (run_from(m, events).rounds.len() as int)),
{
    let stopped = run_from(m, events);
    let len = stopped.rounds.len() as int;
    lemma_run_preserves(m, events);
    lemma_all_success_counts(m, events);
    lemma_run_pass_aligned(m, events);
    lemma_mod_add_multiples_vanish(stopped.iteration - len, len);
    lemma_fundamental_div_mod(stopped.results.len() as int, len);
}

/// Law: the model-level counterpart of the cancellation request's
/// idempotence — requesting twice is the same model as requesting once.
pub proof fn lemma_cancel_request_idempotent(m: SchedulerModel)
    ensures
        m.step_cancel().step_cancel() == m.step_cancel(),
        m.cancelled ==> m.step_cancel() == m,
{
    assert(m.step_cancel().step_cancel() =~= m.step_cancel());
    if m.cancelled {
        assert(m.step_cancel() =~= m);
    }
}

} // verus!
