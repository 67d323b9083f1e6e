//! The optimisation loop: when it steps and when it stops.
//!
//! Each iteration evaluates the objective and its gradient at the current
//! parameters. If every component of the gradient is below the convergence
//! epsilon in absolute value, the loop has converged and stops with the
//! parameters as they are. Otherwise one optimiser step is applied, and the
//! loop goes on unless this was the last iteration that the configuration
//! allows. Evaluating and stepping are the caller's work; [`LoopState`] holds
//! the counter and tells the caller what to do next.

use vstd::prelude::*;
use crate::key::{abs, less_than, lt, magnitude};

verus! {

/// The default cap on the iterations.
pub const DEFAULT_NUM_RUNS: usize = 1000;

/// Key of the default learning rate, 0.25.
pub const DEFAULT_LEARNING_RATE: i64 = 0x3FD0_0000_0000_0000;

/// Key of the default convergence epsilon, 1e-6.
pub const DEFAULT_CONVERGENCE_EPSILON: i64 = 0x3EB0_C6F7_A0B5_ED8D;

/// Key of the default decay of the first moment estimate, 0.9.
pub const DEFAULT_BETA1: i64 = 0x3FEC_CCCC_CCCC_CCCD;

/// Key of the default decay of the second moment estimate, 0.999.
pub const DEFAULT_BETA2: i64 = 0x3FEF_F7CE_D916_872B;

/// Key of the default term that keeps the optimiser's division defined, 1e-8.
pub const DEFAULT_ADAM_EPSILON: i64 = 0x3E45_798E_E230_8C3A;

/// An iteration whose number is a multiple of this is reported.
pub const REPORT_EVERY: usize = 10;

/// The settings of the Adam optimiser, as keys.
#[derive(Clone, Copy, Debug, PartialEq, Eq, Structural)]
pub struct AdamSettings {
    /// Decay of the first moment estimate.
    pub beta1: i64,
    /// Decay of the second moment estimate.
    pub beta2: i64,
    /// The term added to the denominator of a step.
    pub epsilon: i64,
}

/// The configuration of one run of the optimisation. It is made once, before
/// the loop, and not changed.
#[derive(Clone, Copy, Debug, PartialEq, Eq, Structural)]
pub struct TrainingConfig {
    /// The cap on the iterations.
    pub num_runs: usize,
    /// Key of the learning rate.
    pub learning_rate: i64,
    /// Key of the bound under which a gradient counts as vanished.
    pub convergence_epsilon: i64,
    /// The settings of the optimiser.
    pub optimizer_settings: AdamSettings,
}

impl TrainingConfig {
    /// The default configuration.
    pub open spec fn defaults() -> TrainingConfig {
        TrainingConfig {
            num_runs: DEFAULT_NUM_RUNS,
            learning_rate: DEFAULT_LEARNING_RATE,
            convergence_epsilon: DEFAULT_CONVERGENCE_EPSILON,
            optimizer_settings: AdamSettings {
                beta1: DEFAULT_BETA1,
                beta2: DEFAULT_BETA2,
                epsilon: DEFAULT_ADAM_EPSILON,
            },
        }
    }

    /// Makes the default configuration.
    pub fn new() -> (config: TrainingConfig)
        ensures
            config == TrainingConfig::defaults(),
    {
        TrainingConfig {
            num_runs: DEFAULT_NUM_RUNS,
            learning_rate: DEFAULT_LEARNING_RATE,
            convergence_epsilon: DEFAULT_CONVERGENCE_EPSILON,
            optimizer_settings: AdamSettings {
                beta1: DEFAULT_BETA1,
                beta2: DEFAULT_BETA2,
                epsilon: DEFAULT_ADAM_EPSILON,
            },
        }
    }
}

impl Default for TrainingConfig {
    fn default() -> (config: TrainingConfig)
        ensures
            config == TrainingConfig::defaults(),
    {
        TrainingConfig::new()
    }
}

/// Where the loop stands.
#[derive(Clone, Copy, Debug, PartialEq, Eq, Structural)]
pub enum Phase {
    /// The next iteration is due.
    Running,
    /// The gradient vanished; the loop has stopped.
    Converged,
    /// The cap on the iterations was reached; the loop has stopped.
    Exhausted,
}

/// What the caller does with the parameters after an iteration's gradient was
/// judged.
#[derive(Clone, Copy, Debug, PartialEq, Eq, Structural)]
pub enum Action {
    /// Apply one optimiser step with the gradient just evaluated.
    Update,
    /// Leave the parameters as they are.
    Stop,
}

/// The state of the loop: its phase and the iteration counter.
///
/// While the loop runs, `ix` is the number of the iteration that is due,
/// counted from one. Once it has stopped, `ix` is the number of iterations that
/// were made.
#[derive(Clone, Copy, Debug, PartialEq, Eq, Structural)]
pub struct LoopState {
    /// The phase.
    pub phase: Phase,
    /// The iteration counter.
    pub ix: usize,
}

/// Every component of the gradient is below `epsilon` in absolute value, as
/// IEEE 754 compares. A gradient without components has vanished.
pub open spec fn all_below(gradients: Seq<i64>, epsilon: i64) -> bool {
    forall|i: int|
        0 <= i < gradients.len() ==> less_than(magnitude(#[trigger] gradients[i]) as i64, epsilon)
}

/// The convergence check: whether the gradient, given as the keys of its
/// components, has vanished.
pub fn converged(gradients: &Vec<i64>, epsilon: i64) -> (r: bool)
    ensures
        r == all_below(gradients@, epsilon),
{
    let mut i: usize = 0;
    while i < gradients.len()
        invariant
            0 <= i <= gradients@.len(),
            forall|j: int|
                0 <= j < i ==> less_than(magnitude(#[trigger] gradients@[j]) as i64, epsilon),
        decreases gradients@.len() - i,
    {
        if !lt(abs(gradients[i]), epsilon) {
            return false;
        }
        i += 1;
    }
    true
}

impl LoopState {
    /// The state fits a cap of `num_runs` iterations: the counter is within
    /// the cap, and the loop is exhausted only at the cap.
    pub open spec fn wf(self, num_runs: usize) -> bool {
        match self.phase {
            Phase::Exhausted => self.ix == num_runs,
            _ => 1 <= self.ix <= num_runs,
        }
    }

    /// The state before the first iteration. A cap of nought allows none, and
    /// the loop is exhausted from the start.
    pub open spec fn initial(num_runs: usize) -> LoopState {
        if num_runs == 0 {
            LoopState { phase: Phase::Exhausted, ix: 0 }
        } else {
            LoopState { phase: Phase::Running, ix: 1 }
        }
    }

    /// The number of optimiser steps that were applied before the loop came
    /// to this state.
    pub open spec fn updates(self) -> int {
        match self.phase {
            Phase::Exhausted => self.ix as int,
            _ => if self.ix == 0 {
                0
            } else {
                self.ix - 1
            },
        }
    }

    /// What is done with the parameters in this state, after a gradient that
    /// has vanished (`vanished`) or has not.
    pub open spec fn action(self, vanished: bool) -> Action {
        if self.phase == Phase::Running && !vanished {
            Action::Update
        } else {
            Action::Stop
        }
    }

    /// The state after an iteration whose gradient has vanished (`vanished`)
    /// or has not. A loop that has stopped stays as it is.
    pub open spec fn next(self, num_runs: usize, vanished: bool) -> LoopState {
        if self.phase != Phase::Running {
            self
        } else if vanished {
            LoopState { phase: Phase::Converged, ix: self.ix }
        } else if self.ix >= num_runs {
            LoopState { phase: Phase::Exhausted, ix: self.ix }
        } else {
            LoopState { phase: Phase::Running, ix: (self.ix + 1) as usize }
        }
    }

    /// Starts the loop.
    pub fn start(config: &TrainingConfig) -> (state: LoopState)
        ensures
            state == LoopState::initial(config.num_runs),
            state.wf(config.num_runs),
            state.updates() == 0,
    {
        if config.num_runs == 0 {
            LoopState { phase: Phase::Exhausted, ix: 0 }
        } else {
            LoopState { phase: Phase::Running, ix: 1 }
        }
    }

    /// Judges the gradient of the iteration that is due.
    ///
    /// The check comes before the step: a gradient that has vanished stops
    /// the loop with `Action::Stop`, so the parameters that were evaluated are
    /// the ones returned, and the iteration is counted. Otherwise the action
    /// is `Action::Update`; after the step the loop is exhausted if this was
    /// iteration `num_runs`, and else the next iteration is due.
    pub fn advance(self, config: &TrainingConfig, gradients: &Vec<i64>) -> (r: (LoopState, Action))
        ensures
            r.0 == self.next(config.num_runs, all_below(gradients@, config.convergence_epsilon)),
            r.1 == self.action(all_below(gradients@, config.convergence_epsilon)),
            self.wf(config.num_runs) ==> r.0.wf(config.num_runs),
            self.wf(config.num_runs) ==> r.0.updates() == self.updates() + (if r.1
                == Action::Update {
                1int
            } else {
                0int
            }),
    {
        match self.phase {
            Phase::Running => {
                if converged(gradients, config.convergence_epsilon) {
                    (LoopState { phase: Phase::Converged, ix: self.ix }, Action::Stop)
                } else if self.ix >= config.num_runs {
                    (LoopState { phase: Phase::Exhausted, ix: self.ix }, Action::Update)
                } else {
                    (LoopState { phase: Phase::Running, ix: self.ix + 1 }, Action::Update)
                }
            },
            _ => (self, Action::Stop),
        }
    }

    /// Whether another iteration is due.
    pub fn is_running(&self) -> (r: bool)
        ensures
            r == (self.phase == Phase::Running),
    {
        match self.phase {
            Phase::Running => true,
            _ => false,
        }
    }

    /// The number of optimiser steps applied so far.
    pub fn steps(&self) -> (r: usize)
        ensures
            r == self.updates(),
    {
        match self.phase {
            Phase::Exhausted => self.ix,
            _ => if self.ix == 0 {
                0
            } else {
                self.ix - 1
            },
        }
    }

    /// Whether the iteration that is due, or the last one made, is one that is
    /// reported. Reporting is for the observer only: nothing depends on it.
    pub fn report_due(&self) -> (r: bool)
        ensures
            r == (self.ix % REPORT_EVERY == 0),
    {
        self.ix % REPORT_EVERY == 0
    }
}

/// The state in which the loop ends up after the iterations whose gradients
/// are `trace`, first to last, starting from `state`. Gradients that come after
/// the loop has stopped are not looked at.
pub open spec fn run_over(state: LoopState, config: TrainingConfig, trace: Seq<Seq<i64>>) -> LoopState
    decreases trace.len(),
{
    if trace.len() == 0 || state.phase != Phase::Running {
        state
    } else {
        run_over(
            state.next(config.num_runs, all_below(trace[0], config.convergence_epsilon)),
            config,
            trace.drop_first(),
        )
    }
}

/// The number of optimiser steps that the loop orders over the same
/// iterations.
pub open spec fn updates_over(state: LoopState, config: TrainingConfig, trace: Seq<Seq<i64>>) -> int
    decreases trace.len(),
{
    if trace.len() == 0 || state.phase != Phase::Running {
        0
    } else {
        let vanished = all_below(trace[0], config.convergence_epsilon);
        (if state.action(vanished) == Action::Update {
            1int
        } else {
            0int
        }) + updates_over(state.next(config.num_runs, vanished), config, trace.drop_first())
    }
}

/// The state keeps count: whatever the gradients, the steps that the loop
/// orders are those by which `updates` grows, and a state that fits the cap
/// leads to one that does.
pub proof fn lemma_updates_counted(state: LoopState, config: TrainingConfig, trace: Seq<Seq<i64>>)
    requires
        state.wf(config.num_runs),
    ensures
        run_over(state, config, trace).wf(config.num_runs),
        run_over(state, config, trace).updates() == state.updates() + updates_over(
            state,
            config,
            trace,
        ),
    decreases trace.len(),
{
    if trace.len() == 0 || state.phase != Phase::Running {
    } else {
        let vanished = all_below(trace[0], config.convergence_epsilon);
        lemma_updates_counted(state.next(config.num_runs, vanished), config, trace.drop_first());
    }
}

/// A running loop whose gradient first vanishes `k` iterations from now, within
/// the cap, converges there, having stepped `k` times.
proof fn lemma_converges_from(state: LoopState, config: TrainingConfig, trace: Seq<Seq<i64>>, k: int)
    requires
        state.phase == Phase::Running,
        state.wf(config.num_runs),
        0 <= k < trace.len(),
        state.ix + k <= config.num_runs,
        all_below(trace[k], config.convergence_epsilon),
        forall|i: int| 0 <= i < k ==> !all_below(#[trigger] trace[i], config.convergence_epsilon),
    ensures
        run_over(state, config, trace) == (LoopState {
            phase: Phase::Converged,
            ix: (state.ix + k) as usize,
        }),
        updates_over(state, config, trace) == k,
    decreases k,
{
    let rest = trace.drop_first();
    if k == 0 {
        let stopped = state.next(config.num_runs, true);
        assert(run_over(stopped, config, rest) == stopped);
        assert(updates_over(stopped, config, rest) == 0);
    } else {
        assert(!all_below(trace[0], config.convergence_epsilon));
        let then = state.next(config.num_runs, false);
        assert(rest[k - 1] == trace[k]);
        assert forall|i: int| 0 <= i < k - 1 implies !all_below(
            #[trigger] rest[i],
            config.convergence_epsilon,
        ) by {
            assert(rest[i] == trace[i + 1]);
        }
        lemma_converges_from(then, config, rest, k - 1);
    }
}

/// A running loop whose gradient does not vanish before the cap is exhausted
/// at the cap, having stepped in every iteration.
proof fn lemma_exhausts_from(state: LoopState, config: TrainingConfig, trace: Seq<Seq<i64>>)
    requires
        state.phase == Phase::Running,
        state.wf(config.num_runs),
        state.ix + trace.len() > config.num_runs,
        forall|i: int|
            0 <= i <= config.num_runs - state.ix ==> !all_below(
                #[trigger] trace[i],
                config.convergence_epsilon,
            ),
    ensures
        run_over(state, config, trace) == (LoopState {
            phase: Phase::Exhausted,
            ix: config.num_runs,
        }),
        updates_over(state, config, trace) == config.num_runs - state.ix + 1,
    decreases config.num_runs - state.ix,
{
    let rest = trace.drop_first();
    assert(!all_below(trace[0], config.convergence_epsilon));
    let then = state.next(config.num_runs, false);
    if state.ix == config.num_runs {
        assert(run_over(then, config, rest) == then);
        assert(updates_over(then, config, rest) == 0);
    } else {
        assert forall|i: int| 0 <= i <= config.num_runs - then.ix implies !all_below(
            #[trigger] rest[i],
            config.convergence_epsilon,
        ) by {
            assert(rest[i] == trace[i + 1]);
        }
        lemma_exhausts_from(then, config, rest);
    }
}

/// The loop stops at the first vanishing gradient, before any step of that
/// iteration: if the gradient of iteration `k + 1` is the first to vanish, and
/// the cap allows that iteration, the loop ends converged with `k + 1`
/// iterations counted and `k` steps applied, so that the parameters it returns
/// are those at which the vanishing gradient was evaluated.
pub proof fn lemma_stops_where_gradient_vanishes(
    config: TrainingConfig,
    trace: Seq<Seq<i64>>,
    k: int,
)
    requires
        0 <= k < trace.len(),
        k < config.num_runs,
        all_below(trace[k], config.convergence_epsilon),
        forall|i: int| 0 <= i < k ==> !all_below(#[trigger] trace[i], config.convergence_epsilon),
    ensures
        run_over(LoopState::initial(config.num_runs), config, trace) == (LoopState {
            phase: Phase::Converged,
            ix: (k + 1) as usize,
        }),
        run_over(LoopState::initial(config.num_runs), config, trace).updates() == k,
        updates_over(LoopState::initial(config.num_runs), config, trace) == k,
{
    lemma_converges_from(LoopState::initial(config.num_runs), config, trace, k);
}

/// The loop never runs past the cap: if no gradient of the first `num_runs`
/// iterations vanishes, it ends exhausted with `num_runs` iterations counted
/// and as many steps applied.
pub proof fn lemma_stops_at_cap(config: TrainingConfig, trace: Seq<Seq<i64>>)
    requires
        trace.len() >= config.num_runs,
        forall|i: int|
            0 <= i < config.num_runs ==> !all_below(#[trigger] trace[i], config.convergence_epsilon),
    ensures
        run_over(LoopState::initial(config.num_runs), config, trace) == (LoopState {
            phase: Phase::Exhausted,
            ix: config.num_runs,
        }),
        run_over(LoopState::initial(config.num_runs), config, trace).updates() == config.num_runs,
        updates_over(LoopState::initial(config.num_runs), config, trace) == config.num_runs,
{
    if config.num_runs > 0 {
        lemma_exhausts_from(LoopState::initial(config.num_runs), config, trace);
    }
}

} // verus!
