//! The differential cost estimator.
//!
//! One estimation run is a fixed schedule of calls: under the metered
//! configuration one untimed warm-up execution, a sample start, `repeats`
//! timed executions, a sample end; then the same four phases again under the
//! gas-free configuration; finally the two sampled totals are subtracted.
//! The estimator is a step machine: it names the next call to make, and the
//! driver that owns the engine and the sampling backend feeds each outcome
//! back as an event.  An execution error at any point is fatal for the whole
//! measurement and puts the machine into a failed state.

use crate::config::{ExecutionConfig, GasMetric, VMKind};
use crate::text::{dec_rep, push_decimal};
use vstd::prelude::*;
use vstd::string::StringExecFns;

verus! {

/// One call the driver is asked to make.
#[derive(Clone, Copy, Debug, PartialEq, Eq, Structural)]
pub enum Action {
    /// Execute the contract's entrypoint once, under the metered or the
    /// gas-free configuration.
    RunContract { metered: bool },
    /// Take the collector's opening sample.
    StartSample,
    /// Take the collector's closing sample; its outcome carries the scalar
    /// total for the batch.
    EndSample,
}

/// The outcome of one action, fed back by the driver.
#[derive(Clone, Copy, Debug, PartialEq, Eq, Structural)]
pub enum Event {
    /// The engine returned; `had_error` says whether the result carried an
    /// execution error.
    VmReturned { had_error: bool },
    /// The opening sample was taken.
    SampleStarted,
    /// The closing sample was taken; `total` is the scalar delta for the
    /// batch, in metric-native units.
    SampleEnded { total: u64 },
}

/// How many actions a full run with `r` timed repetitions schedules.
pub open spec fn schedule_len(r: int) -> int {
    6 + 2 * r
}

/// The `k`-th action of a run with `r` timed repetitions: warm-up, sample
/// start, `r` runs, sample end — first metered, then gas-free.
pub open spec fn planned_action(r: int, k: int) -> Action {
    if k == 0 {
        Action::RunContract { metered: true }
    } else if k == 1 {
        Action::StartSample
    } else if k < 2 + r {
        Action::RunContract { metered: true }
    } else if k == 2 + r {
        Action::EndSample
    } else if k == 3 + r {
        Action::RunContract { metered: false }
    } else if k == 4 + r {
        Action::StartSample
    } else if k < 5 + 2 * r {
        Action::RunContract { metered: false }
    } else {
        Action::EndSample
    }
}

/// Whether an event can be the outcome of the given action.
pub open spec fn event_matches(a: Action, e: Event) -> bool {
    match e {
        Event::VmReturned { .. } => a is RunContract,
        Event::SampleStarted => a is StartSample,
        Event::SampleEnded { .. } => a is EndSample,
    }
}

/// Subtraction modulo the `u64` range, as the final differencing performs
/// it: the metered total minus the gas-free total, wrapped if measurement
/// noise ever drives the difference negative.
pub open spec fn wrap_diff(a: int, b: int) -> int {
    if b <= a {
        a - b
    } else {
        a - b + 0x1_0000_0000_0000_0000
    }
}

/// The step machine for one estimation run.
pub struct CostEstimator {
    /// Which sampling backend the driver must use.
    pub metric: GasMetric,
    /// Which engine the driver must execute on.
    pub vm_kind: VMKind,
    /// How many timed executions each batch holds.
    pub repeats: i32,
    /// The nesting depth of the synthetic contract under measurement.
    pub depth: i32,
    /// How many actions have completed.
    pub step: u64,
    /// The sampled total of the metered batch, once its sample has ended.
    pub metered_total: u64,
    /// The sampled total of the gas-free batch, once its sample has ended.
    pub free_total: u64,
    /// Whether an execution error has aborted the run.
    pub failed: bool,
}

impl CostEstimator {
    /// The machine's basic well-formedness: the step index never leaves the
    /// schedule.
    pub open spec fn wf(self) -> bool {
        &&& self.repeats >= 0
        &&& self.depth >= 1
        &&& self.step <= schedule_len(self.repeats as int)
    }

    /// Whether every scheduled action has completed.
    pub open spec fn done_spec(self) -> bool {
        self.step == schedule_len(self.repeats as int)
    }

    /// The action the machine asks for next.
    pub open spec fn next_action_spec(self) -> Action {
        planned_action(self.repeats as int, self.step as int)
    }

    /// Starts a run: nothing executed, nothing sampled, not failed.
    pub fn new(metric: GasMetric, vm_kind: VMKind, repeats: i32, depth: i32) -> (e:
        CostEstimator)
        requires
            repeats >= 0,
            depth >= 1,
        ensures
            e.wf(),
            e.metric == metric,
            e.vm_kind == vm_kind,
            e.repeats == repeats,
            e.depth == depth,
            e.step == 0,
            e.metered_total == 0,
            e.free_total == 0,
            !e.failed,
    {
        CostEstimator {
            metric,
            vm_kind,
            repeats,
            depth,
            step: 0,
            metered_total: 0,
            free_total: 0,
            failed: false,
        }
    }

    /// The configuration the next execution must run under, for a pending
    /// `RunContract` action.
    pub fn next_config(&self) -> (c: ExecutionConfig)
        requires
            self.wf(),
            !self.failed,
            !self.done_spec(),
            self.next_action_spec() is RunContract,
        ensures
            c.metering_enabled == self.next_action_spec()->RunContract_metered,
    {
        if self.step < 2 + (self.repeats as u64) {
            ExecutionConfig::metered()
        } else {
            ExecutionConfig::free()
        }
    }

    /// Names the next call to make.
    pub fn next_action(&self) -> (a: Action)
        requires
            self.wf(),
            !self.failed,
            !self.done_spec(),
        ensures
            a == self.next_action_spec(),
    {
        let r: u64 = self.repeats as u64;
        if self.step == 0 {
            Action::RunContract { metered: true }
        } else if self.step == 1 {
            Action::StartSample
        } else if self.step < 2 + r {
            Action::RunContract { metered: true }
        } else if self.step == 2 + r {
            Action::EndSample
        } else if self.step == 3 + r {
            Action::RunContract { metered: false }
        } else if self.step == 4 + r {
            Action::StartSample
        } else if self.step < 5 + 2 * r {
            Action::RunContract { metered: false }
        } else {
            Action::EndSample
        }
    }

    /// Consumes the outcome of the pending action.  A successful outcome
    /// advances the schedule by one step; an execution error freezes the
    /// machine in the failed state.  A closing sample's total lands in the
    /// slot of whichever batch is being timed; nothing else changes.
    pub fn apply(&mut self, e: Event)
        requires
            old(self).wf(),
            !old(self).failed,
            !old(self).done_spec(),
            event_matches(old(self).next_action_spec(), e),
        ensures
            final(self).metric == old(self).metric,
            final(self).vm_kind == old(self).vm_kind,
            final(self).repeats == old(self).repeats,
            final(self).depth == old(self).depth,
            final(self).wf(),
            (match e {
                Event::VmReturned { had_error } => {
                    &&& final(self).failed == had_error
                    &&& final(self).step == if had_error {
                        old(self).step as int
                    } else {
                        old(self).step as int + 1
                    }
                    &&& final(self).metered_total == old(self).metered_total
                    &&& final(self).free_total == old(self).free_total
                },
                Event::SampleStarted => {
                    &&& !final(self).failed
                    &&& final(self).step == old(self).step as int + 1
                    &&& final(self).metered_total == old(self).metered_total
                    &&& final(self).free_total == old(self).free_total
                },
                Event::SampleEnded { total } => {
                    &&& !final(self).failed
                    &&& final(self).step == old(self).step as int + 1
                    &&& if old(self).step == 2 + old(self).repeats as int {
                        &&& final(self).metered_total == total
                        &&& final(self).free_total == old(self).free_total
                    } else {
                        &&& final(self).metered_total == old(self).metered_total
                        &&& final(self).free_total == total
                    }
                },
            }),
    {
        match e {
            Event::VmReturned { had_error } => {
                if had_error {
                    self.failed = true;
                } else {
                    self.step = self.step + 1;
                }
            },
            Event::SampleStarted => {
                self.step = self.step + 1;
            },
            Event::SampleEnded { total } => {
                if self.step == 2 + (self.repeats as u64) {
                    self.metered_total = total;
                } else {
                    self.free_total = total;
                }
                self.step = self.step + 1;
            },
        }
    }

    /// Whether every scheduled action has completed.
    pub fn is_done(&self) -> (b: bool)
        requires
            self.wf(),
        ensures
            b == self.done_spec(),
    {
        self.step == 6 + 2 * (self.repeats as u64)
    }

    /// Whether an execution error has aborted the run.
    pub fn is_failed(&self) -> (b: bool)
        ensures
            b == self.failed,
    {
        self.failed
    }

    /// The estimated metering overhead of a completed run: the metered
    /// batch's total minus the gas-free batch's total.
    pub fn cost(&self) -> (c: u64)
        requires
            self.wf(),
            self.done_spec(),
            !self.failed,
        ensures
            c == wrap_diff(self.metered_total as int, self.free_total as int),
    {
        cost_delta(self.metered_total, self.free_total)
    }
}

/// The differencing step on its own: metered total minus gas-free total,
/// modulo the `u64` range.
pub fn cost_delta(with_gas: u64, no_gas: u64) -> (r: u64)
    ensures
        r == wrap_diff(with_gas as int, no_gas as int),
{
    with_gas.wrapping_sub(no_gas)
}

/// The fixed list of depths a sweep measures.
pub open spec fn sweep_depths_spec() -> Seq<i32> {
    seq![1i32, 10i32, 20i32, 30i32, 50i32, 100i32, 200i32]
}

/// The fixed list of depths a sweep measures, one report line each.
pub fn sweep_depths() -> (v: Vec<i32>)
    ensures
        v@ == sweep_depths_spec(),
{
    let mut v: Vec<i32> = Vec::new();
    v.push(1);
    v.push(10);
    v.push(20);
    v.push(30);
    v.push(50);
    v.push(100);
    v.push(200);
    proof {
        assert(v@ =~= sweep_depths_spec());
    }
    v
}

/// One report line of a sweep: the depth, one space, the cost.
pub open spec fn report_line_spec(depth: int, cost: int) -> Seq<char> {
    dec_rep(depth) + " "@ + dec_rep(cost)
}

/// Renders one report line of a sweep.
pub fn report_line(depth: i32, cost: u64) -> (s: String)
    requires
        depth >= 0,
    ensures
        s@ == report_line_spec(depth as int, cost as int),
{
    let mut s = String::new();
    push_decimal(&mut s, depth as u64);
    s.append(" ");
    push_decimal(&mut s, cost);
    proof {
        assert(s@ =~= report_line_spec(depth as int, cost as int));
    }
    s
}

/// Law: the run's control flow is deterministic.  Two estimators configured
/// with the same repeat count that have completed the same number of steps
/// ask for the same next action — whatever their metric, engine kind, depth,
/// and whatever sample totals they have received, only the returned scalar
/// can differ between runs.
pub proof fn lemma_control_flow_deterministic(a: CostEstimator, b: CostEstimator)
    requires
        a.wf(),
        b.wf(),
        a.repeats == b.repeats,
        a.step == b.step,
    ensures
        a.next_action_spec() == b.next_action_spec(),
{
}

/// The same action with gas accounting turned off: executions lose the
/// metering flag, sampling stays as it is.
pub open spec fn unmetered_twin(a: Action) -> Action {
    match a {
        Action::RunContract { .. } => Action::RunContract { metered: false },
        Action::StartSample => Action::StartSample,
        Action::EndSample => Action::EndSample,
    }
}

/// Law: the two batches are symmetric.  The gas-free half of the schedule
/// repeats the metered half action for action — the same single warm-up,
/// the same sample bracket, the same number of timed executions of the same
/// contract and entrypoint — differing only in the metering flag.
pub proof fn lemma_batches_differ_only_in_metering(r: int, k: int)
    requires
        r >= 0,
        0 <= k <= 2 + r,
    ensures
        planned_action(r, (3 + r) + k) == unmetered_twin(planned_action(r, k)),
{
}

/// Law: the warm-up execution is isolated from the timed region.  In every
/// schedule, each configuration's single warm-up run stands strictly before
/// that configuration's opening sample, and between the opening and closing
/// samples stand exactly the `r` timed runs of that configuration — so the
/// timed region never contains a first, cold call.
pub proof fn lemma_warmup_outside_timed_region(r: int, k: int)
    requires
        r >= 0,
        0 <= k < schedule_len(r),
    ensures
        planned_action(r, 0) == (Action::RunContract { metered: true }),
        planned_action(r, 1) == Action::StartSample,
        2 <= k < 2 + r ==> planned_action(r, k) == (Action::RunContract { metered: true }),
        planned_action(r, 2 + r) == Action::EndSample,
        planned_action(r, 3 + r) == (Action::RunContract { metered: false }),
        planned_action(r, 4 + r) == Action::StartSample,
        5 + r <= k < 5 + 2 * r ==> planned_action(r, k) == (Action::RunContract {
            metered: false,
        }),
        planned_action(r, 5 + 2 * r) == Action::EndSample,
{
}

} // verus!
