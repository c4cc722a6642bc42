use gas_metering_cost::config::{entry_point, ExecutionConfig, GasMetric, VMKind};
use gas_metering_cost::estimator::{
    cost_delta, report_line, sweep_depths, Action, CostEstimator, Event,
};

/// Drives one full estimation run, answering every execution with success
/// and the two closing samples with the given totals; returns the sequence
/// of actions the machine asked for and the final cost.
fn run_scripted(
    metric: GasMetric,
    vm_kind: VMKind,
    repeats: i32,
    depth: i32,
    metered_total: u64,
    free_total: u64,
) -> (Vec<Action>, u64) {
    let mut est = CostEstimator::new(metric, vm_kind, repeats, depth);
    let mut actions: Vec<Action> = Vec::new();
    let mut samples_ended: u32 = 0;
    while !est.is_done() {
        let action = est.next_action();
        actions.push(action);
        match action {
            Action::RunContract { metered } => {
                assert_eq!(est.next_config().metering_enabled, metered);
                est.apply(Event::VmReturned { had_error: false });
            }
            Action::StartSample => est.apply(Event::SampleStarted),
            Action::EndSample => {
                let total = if samples_ended == 0 { metered_total } else { free_total };
                samples_ended += 1;
                est.apply(Event::SampleEnded { total });
            }
        }
    }
    assert_eq!(samples_ended, 2);
    (actions, est.cost())
}

#[test]
fn scripted_run_schedule_and_cost() {
    let (actions, cost) = run_scripted(GasMetric::Time, VMKind::Wasmer0, 3, 5, 100, 40);
    let run_metered = Action::RunContract { metered: true };
    let run_free = Action::RunContract { metered: false };
    let expected = vec![
        run_metered,
        Action::StartSample,
        run_metered,
        run_metered,
        run_metered,
        Action::EndSample,
        run_free,
        Action::StartSample,
        run_free,
        run_free,
        run_free,
        Action::EndSample,
    ];
    assert_eq!(actions, expected);
    assert_eq!(cost, 60);
}

#[test]
fn estimate_scenario_depth_thirty() {
    let (actions, cost) = run_scripted(GasMetric::Time, VMKind::Wasmer0, 1000, 30, 5000, 1200);
    assert_eq!(actions.len(), 6 + 2 * 1000);
    assert_eq!(cost, 3800);
    assert!(cost < u64::MAX / 2);
}

#[test]
fn warmup_runs_precede_each_timed_region() {
    let (actions, _) = run_scripted(GasMetric::ICount, VMKind::Wasmtime, 4, 2, 9, 3);
    assert_eq!(actions[0], Action::RunContract { metered: true });
    assert_eq!(actions[1], Action::StartSample);
    assert_eq!(actions[6], Action::EndSample);
    assert_eq!(actions[7], Action::RunContract { metered: false });
    assert_eq!(actions[8], Action::StartSample);
    assert_eq!(actions[13], Action::EndSample);
    let timed_metered = &actions[2..6];
    let timed_free = &actions[9..13];
    assert!(timed_metered.iter().all(|a| *a == Action::RunContract { metered: true }));
    assert!(timed_free.iter().all(|a| *a == Action::RunContract { metered: false }));
}

#[test]
fn control_flow_is_independent_of_metric_engine_and_depth() {
    let (a, _) = run_scripted(GasMetric::Time, VMKind::Wasmer0, 7, 1, 50, 20);
    let (b, _) = run_scripted(GasMetric::ICount, VMKind::Wasmtime, 7, 200, 999, 998);
    assert_eq!(a, b);
}

#[test]
fn error_event_freezes_the_run() {
    let mut est = CostEstimator::new(GasMetric::Time, VMKind::Wasmer0, 2, 1);
    est.apply(Event::VmReturned { had_error: true });
    assert!(est.is_failed());
    assert!(!est.is_done());
}

#[test]
fn cost_delta_exact() {
    assert_eq!(cost_delta(10, 3), 7);
    assert_eq!(cost_delta(5, 5), 0);
    assert_eq!(cost_delta(u64::MAX, 0), u64::MAX);
}

#[test]
fn cost_delta_wraps_on_negative_difference() {
    assert_eq!(cost_delta(3, 10), u64::MAX - 6);
    assert_eq!(cost_delta(0, 1), u64::MAX);
}

#[test]
fn sweep_has_seven_depths() {
    assert_eq!(sweep_depths(), vec![1, 10, 20, 30, 50, 100, 200]);
}

#[test]
fn sweep_prints_seven_report_lines() {
    let mut lines: Vec<String> = Vec::new();
    for depth in sweep_depths() {
        let (_, cost) = run_scripted(GasMetric::Time, VMKind::Wasmer0, 1000, depth, 7000, 2500);
        lines.push(report_line(depth, cost));
    }
    assert_eq!(lines.len(), 7);
    for (i, depth) in sweep_depths().into_iter().enumerate() {
        assert_eq!(lines[i], format!("{} {}", depth, 4500));
    }
}

#[test]
fn report_line_exact() {
    assert_eq!(report_line(30, 12345), "30 12345");
    assert_eq!(report_line(0, 0), "0 0");
    assert_eq!(report_line(200, u64::MAX), "200 18446744073709551615");
}

#[test]
fn configurations_differ_in_exactly_the_metering_flag() {
    assert!(ExecutionConfig::metered().metering_enabled);
    assert!(!ExecutionConfig::free().metering_enabled);
}

#[test]
fn entry_point_is_hello() {
    assert_eq!(entry_point(), "hello");
}
