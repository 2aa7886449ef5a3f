//! The round scheduler: the decision core of a run.
//!
//! A run alternates two suspending races that only the driver can perform:
//! one round's adapter call raced against cancellation, and the inter-round
//! sleep raced against cancellation. The `Scheduler` here owns everything
//! those races decide on — the counters, the configuration, the cancellation
//! flag and the collected results — and every transition between them. The
//! driver asks what to do next, performs the race, and reports how it
//! resolved; the scheduler's contracts pin each transition to the
//! mathematical model in `SchedulerModel`.

use vstd::prelude::*;
use crate::config::{adapter_registered, Adapter, Round, RoundResult, RunConfig};
use crate::errors::TestflowError;
use crate::signal::CancellationSignal;

verus! {

/// Phases of a run.
#[derive(Clone, Copy, PartialEq, Eq, Structural, Debug)]
pub enum RunState {
    /// Configured, not yet started.
    Idle,
    /// One round's processing is being raced against cancellation.
    Dispatching,
    /// The inter-round sleep is being raced against cancellation.
    Pausing,
    /// Over: no further round will ever be dispatched.
    Terminated,
}

/// How the race between one round's processing and cancellation resolved.
/// The tagged outcome — not a bare flag — is what guards the append path: a
/// result reaches the aggregator only inside `Completed`, so a round
/// abandoned to cancellation can never contribute one.
#[derive(Debug)]
pub enum DispatchOutcome {
    /// The adapter finished first and succeeded.
    Completed(RoundResult),
    /// The adapter finished first and failed; carries the error description,
    /// which goes to observability only and never ends the run.
    Failed(String),
    /// Cancellation won the race; the in-flight processing is abandoned.
    Cancelled,
}

/// How the race between the inter-round sleep and cancellation resolved.
#[derive(Clone, Copy, Debug)]
pub enum PauseOutcome {
    /// The full interval elapsed.
    SleptFull,
    /// Cancellation won the race.
    Cancelled,
}

/// What the driver must do next: race the adapter on the round numbered
/// `round_num` within the current pass, counted globally as `iteration`.
#[derive(Clone, Copy, Debug)]
pub struct DispatchCmd {
    /// Global iteration number of this dispatch, starting at 1.
    pub iteration: u32,
    /// Round number within the current pass, starting at 1.
    pub round_num: usize,
}

/// The scheduler's state as mathematics: what every contract speaks of.
#[verifier::ext_equal]
pub struct SchedulerModel {
    /// The rounds of one pass, in dispatch order.
    pub rounds: Seq<Round>,
    /// Seconds of inter-round pause.
    pub interval: u64,
    /// Ceiling on the iteration counter; `None` means unbounded.
    pub ceiling: Option<u32>,
    /// The configured adapter selector.
    pub adapter: Adapter,
    /// Current phase.
    pub state: RunState,
    /// Whether cancellation has been requested or observed.
    pub cancelled: bool,
    /// Global iteration counter: rounds dispatched so far; never decreases.
    pub iteration: u32,
    /// In-pass number (1-based) of the round dispatched most recently.
    pub round_num: usize,
    /// Results of the completed rounds, in completion order.
    pub results: Seq<RoundResult>,
}

impl SchedulerModel {
    /// The invariants every reachable scheduler satisfies: the counters are
    /// coherent with the phase, the iteration counter never exceeds the
    /// ceiling, and there are never more results than dispatched rounds.
    pub open spec fn wf(self) -> bool {
        &&& self.rounds.len() <= usize::MAX
        &&& (self.state is Idle ==> self.iteration == 0 && self.round_num == 0
            && self.results.len() == 0)
        &&& ((self.state is Dispatching || self.state is Pausing) ==> {
            &&& self.rounds.len() > 0
            &&& 1 <= self.round_num <= self.rounds.len()
            &&& self.iteration >= 1
        })
        &&& (self.state is Dispatching ==> self.results.len() < self.iteration)
        &&& (self.ceiling matches Some(n) ==> self.iteration <= n)
        &&& self.results.len() <= self.iteration
    }

    /// This model with the run over.
    pub open spec fn terminated(self) -> SchedulerModel {
        SchedulerModel { state: RunState::Terminated, ..self }
    }

    /// Effect of a cancellation request: the flag is set, nothing else moves.
    pub open spec fn step_cancel(self) -> SchedulerModel {
        SchedulerModel { cancelled: true, ..self }
    }

    /// Effect of starting the run: the first round is dispatched, unless
    /// cancellation already arrived, there are no rounds, or the ceiling is
    /// zero — each of which terminates at once with no adapter call. An empty
    /// round sequence in particular terminates immediately rather than
    /// spinning through empty passes.
    pub open spec fn step_begin(self) -> SchedulerModel {
        if self.cancelled || self.rounds.len() == 0
            || (self.ceiling matches Some(n) && n == 0) {
            self.terminated()
        } else {
            SchedulerModel { state: RunState::Dispatching, iteration: 1, round_num: 1, ..self }
        }
    }

    /// Effect of the dispatch race resolving: a success appends its result
    /// and the run moves to the pause; a failure is observed but appends
    /// nothing and the run still moves to the pause; cancellation ends the
    /// run on the spot, the abandoned round contributing nothing.
    pub open spec fn step_dispatch(self, outcome: DispatchOutcome) -> SchedulerModel {
        match outcome {
            DispatchOutcome::Completed(result) => SchedulerModel {
                state: RunState::Pausing,
                results: self.results.push(result),
                ..self
            },
            DispatchOutcome::Failed(_) => SchedulerModel { state: RunState::Pausing, ..self },
            DispatchOutcome::Cancelled => SchedulerModel {
                state: RunState::Terminated,
                cancelled: true,
                ..self
            },
        }
    }

    /// Whether the run has used up its configured iterations. Without a
    /// ceiling the run is unbounded, up to the counter's own width.
    pub open spec fn ceiling_reached(self) -> bool {
        match self.ceiling {
            Some(n) => self.iteration >= n,
            None => self.iteration == u32::MAX,
        }
    }

    /// Effect of the pause race resolving: cancellation — whether it won the
    /// race or was requested while a round was still in flight — ends the
    /// run; a reached ceiling ends the run; otherwise the next round of the
    /// pass (or the first of a fresh pass) is dispatched.
    pub open spec fn step_pause(self, outcome: PauseOutcome) -> SchedulerModel {
        if outcome is Cancelled || self.cancelled {
            SchedulerModel { state: RunState::Terminated, cancelled: true, ..self }
        } else if self.ceiling_reached() {
            self.terminated()
        } else {
            SchedulerModel {
                state: RunState::Dispatching,
                iteration: (self.iteration + 1) as u32,
                round_num: if self.round_num >= self.rounds.len() {
                    1
                } else {
                    (self.round_num + 1) as usize
                },
                ..self
            }
        }
    }
}

/// The round scheduler. It owns the iteration and round counters, enforces
/// the ceiling, decides when the run terminates, and aggregates results; the
/// driver performs the races and reports their outcomes.
pub struct Scheduler {
    cfg: RunConfig,
    state: RunState,
    signal: CancellationSignal,
    iteration: u32,
    round_num: usize,
    results: Vec<RoundResult>,
}

impl View for Scheduler {
    type V = SchedulerModel;

    closed spec fn view(&self) -> SchedulerModel {
        SchedulerModel {
            rounds: self.cfg.rounds@,
            interval: self.cfg.interval,
            ceiling: self.cfg.iterations,
            adapter: self.cfg.adapter,
            state: self.state,
            cancelled: self.signal.is_requested(),
            iteration: self.iteration,
            round_num: self.round_num,
            results: self.results@,
        }
    }
}

impl Scheduler {
    /// The configuration the run was entered with, unchanged for its whole
    /// lifetime.
    pub closed spec fn spec_config(&self) -> RunConfig {
        self.cfg
    }

    /// Enter the run with a configuration: the `Idle` state.
    pub fn new(cfg: RunConfig) -> (s: Scheduler)
        ensures
            s@.rounds == cfg.rounds@,
            s@.interval == cfg.interval,
            s@.ceiling == cfg.iterations,
            s@.adapter == cfg.adapter,
            s@.state is Idle,
            !s@.cancelled,
            s@.iteration == 0,
            s@.round_num == 0,
            s@.results.len() == 0,
            s@.wf(),
            s.spec_config() == cfg,
    {
        let s = Scheduler {
            cfg,
            state: RunState::Idle,
            signal: CancellationSignal::new(),
            iteration: 0,
            round_num: 0,
            results: Vec::new(),
        };
        proof {
            assert(s.cfg.rounds.len() == s.cfg.rounds@.len());
        }
        s
    }

    /// Borrow the configuration, for the adapter-facing data the scheduler
    /// itself never interprets (templates, argument payload).
    pub fn config(&self) -> (cfg: &RunConfig)
        ensures
            *cfg == self.spec_config(),
            cfg.rounds@ == self@.rounds,
            cfg.interval == self@.interval,
            cfg.iterations == self@.ceiling,
            cfg.adapter == self@.adapter,
    {
        &self.cfg
    }

    /// Request cancellation. Idempotent, allowed in any phase, observed by
    /// every later decision: after it, no further round is ever dispatched
    /// (see `crate::laws`).
    pub fn request_cancel(&mut self)
        ensures
            final(self)@ == old(self)@.step_cancel(),
            final(self).spec_config() == old(self).spec_config(),
            old(self)@.wf() ==> final(self)@.wf(),
    {
        self.signal.request();
    }

    /// Start the run: dispatch the first round, or terminate at once when
    /// cancellation already arrived, the round sequence is empty, or the
    /// ceiling is zero. Returns the dispatch to perform, `None` when the run
    /// is already over.
    pub fn begin(&mut self) -> (cmd: Option<DispatchCmd>)
        requires
            old(self)@.state is Idle,
            old(self)@.wf(),
        ensures
            final(self)@ == old(self)@.step_begin(),
            final(self)@.wf(),
            final(self).spec_config() == old(self).spec_config(),
            cmd is Some <==> final(self)@.state is Dispatching,
            cmd matches Some(c) ==> c.iteration == 1 && c.round_num == 1,
    {
        let ceiling_zero = match self.cfg.iterations {
            Some(n) => n == 0,
            None => false,
        };
        if self.signal.observed() || self.cfg.rounds.len() == 0 || ceiling_zero {
            self.state = RunState::Terminated;
            None
        } else {
            self.state = RunState::Dispatching;
            self.iteration = 1;
            self.round_num = 1;
            Some(DispatchCmd { iteration: 1, round_num: 1 })
        }
    }

    /// Report how the dispatch race resolved. A completed round's result is
    /// appended in completion order; a failed round appends nothing and the
    /// run continues; a race lost to cancellation terminates the run and the
    /// abandoned round can never append a late result, since the only append
    /// path is the `Completed` arm of this one call per dispatch.
    pub fn on_dispatch(&mut self, outcome: DispatchOutcome)
        requires
            old(self)@.state is Dispatching,
            old(self)@.wf(),
        ensures
            final(self)@ == old(self)@.step_dispatch(outcome),
            final(self)@.wf(),
            final(self).spec_config() == old(self).spec_config(),
    {
        match outcome {
            DispatchOutcome::Completed(result) => {
                self.results.push(result);
                self.state = RunState::Pausing;
            }
            DispatchOutcome::Failed(_) => {
                self.state = RunState::Pausing;
            }
            DispatchOutcome::Cancelled => {
                self.signal.request();
                self.state = RunState::Terminated;
            }
        }
    }

    /// Whether the run has used up its configured iterations.
    fn ceiling_reached(&self) -> (reached: bool)
        ensures
            reached == self@.ceiling_reached(),
    {
        match self.cfg.iterations {
            Some(n) => self.iteration >= n,
            None => self.iteration == u32::MAX,
        }
    }

    /// Report how the pause race resolved, and get the next dispatch if the
    /// run goes on. Cancellation — winning the race, or requested earlier —
    /// terminates the run, as does a reached ceiling; otherwise the counters
    /// advance and the next round of the pass (wrapping into a fresh pass) is
    /// dispatched. Returns `None` exactly when the run is over.
    pub fn on_pause(&mut self, outcome: PauseOutcome) -> (cmd: Option<DispatchCmd>)
        requires
            old(self)@.state is Pausing,
            old(self)@.wf(),
        ensures
            final(self)@ == old(self)@.step_pause(outcome),
            final(self)@.wf(),
            final(self).spec_config() == old(self).spec_config(),
            cmd is Some <==> final(self)@.state is Dispatching,
            cmd matches Some(c) ==> c.iteration == final(self)@.iteration
                && c.round_num == final(self)@.round_num,
    {
        let raced_cancelled = match outcome {
            PauseOutcome::Cancelled => true,
            PauseOutcome::SleptFull => false,
        };
        if raced_cancelled {
            self.signal.request();
            self.state = RunState::Terminated;
            None
        } else if self.signal.observed() {
            self.state = RunState::Terminated;
            None
        } else if self.ceiling_reached() {
            self.state = RunState::Terminated;
            None
        } else {
            self.iteration = self.iteration + 1;
            self.round_num = if self.round_num >= self.cfg.rounds.len() {
                1
            } else {
                self.round_num + 1
            };
            self.state = RunState::Dispatching;
            Some(DispatchCmd { iteration: self.iteration, round_num: self.round_num })
        }
    }

    /// The round to hand the adapter while one is being dispatched; `None` in
    /// every other phase.
    pub fn current_round(&self) -> (round: Option<&Round>)
        requires
            self@.wf(),
        ensures
            match round {
                Some(r) => self@.state is Dispatching
                    && *r == self@.rounds[self@.round_num - 1],
                None => !(self@.state is Dispatching),
            },
    {
        match self.state {
            RunState::Dispatching => Some(&self.cfg.rounds[self.round_num - 1]),
            _ => None,
        }
    }

    /// Whether the run is over.
    pub fn is_terminated(&self) -> (done: bool)
        ensures
            done == (self@.state is Terminated),
    {
        match self.state {
            RunState::Terminated => true,
            _ => false,
        }
    }

    /// The inter-round pause, in seconds.
    pub fn interval(&self) -> (secs: u64)
        ensures
            secs == self@.interval,
    {
        self.cfg.interval
    }

    /// The global iteration counter: rounds dispatched so far.
    pub fn iterations_dispatched(&self) -> (count: u32)
        ensures
            count == self@.iteration,
    {
        self.iteration
    }

    /// Drain the aggregated results, in completion order, once the run has
    /// terminated. Consumes the scheduler: ownership of the collection
    /// transfers to the caller and no further append can ever occur.
    pub fn into_results(self) -> (results: Vec<RoundResult>)
        requires
            self@.state is Terminated,
        ensures
            results@ == self@.results,
    {
        self.results
    }
}

/// The registry gate at both adapter entry points: `Ok` exactly for a
/// selector with a registered implementation, and `UnsupportedAdapter`
/// carrying the offending selector for every other value — the run never
/// silently no-ops on an unknown adapter.
pub fn require_supported_adapter(adapter: Adapter) -> (r: Result<(), TestflowError>)
    ensures
        r is Ok <==> adapter_registered(adapter),
        r matches Err(e) ==> e matches TestflowError::UnsupportedAdapter(a) && a == adapter,
{
    match adapter {
        Adapter::Hotshot => Ok(()),
        _ => Err(TestflowError::UnsupportedAdapter(adapter)),
    }
}

} // verus!
