use sunshift::animation::{calculate_interval, Bound, ColorProperty, Interval};
use sunshift::color::Color;
use sunshift::engine::{WaylandState, EngineError, RampUpload, TransitionPlan, WaylandRequest};

const TARGET: Color = Color { temperature: 4500, gamma: 100, brightness: 5000, inverted: false };
const INITIAL: Color = Color { temperature: 6500, gamma: 100, brightness: 10000, inverted: false };

fn state_helper(state: &mut WaylandState, target: Color) {
    state.process_request(WaylandRequest::ChangeOutputColor(target));
}

fn get_state() -> WaylandState {
    let mut state = WaylandState::new();
    assert!(state.add_output(1, 10, 100));
    assert!(state.add_output(2, 20, 200));
    state_helper(&mut state, INITIAL);
    state
}

#[test]
fn color_decrement() {
    let mut state = get_state();
    state_helper(&mut state, TARGET);
    assert_eq!(state.color(), TARGET);
}

#[test]
fn color_increment() {
    let mut state = get_state();
    state_helper(&mut state, TARGET);
    state_helper(&mut state, INITIAL);
    assert_eq!(state.color(), INITIAL);
}

#[test]
fn consecutive_call() {
    let mut state = get_state();
    let target1 = Color { temperature: 7500, brightness: 5000, ..INITIAL };
    let target2 = Color { temperature: 5500, brightness: 9000, ..INITIAL };
    let target3 = Color { temperature: 8500, brightness: 7000, ..INITIAL };
    state_helper(&mut state, target1);
    state_helper(&mut state, target2);
    state_helper(&mut state, target3);
    assert_eq!(state.color(), target3);
}

#[test]
fn normal() {
    assert_eq!(
        Interval { count: 10, step: 100, wait_ms: 1000 },
        calculate_interval(1000, 0, Bound { min: 0, max: 1000 }, 10000)
    );
}

#[test]
fn max_cap() {
    assert_eq!(
        Interval { count: 10, step: 100, wait_ms: 100 },
        calculate_interval(1000, 0, Bound { min: 0, max: 100 }, 1000)
    );
}

#[test]
fn min_cap() {
    assert_eq!(
        Interval { count: 2, step: 5, wait_ms: 5000 },
        calculate_interval(10, 0, Bound { min: 5, max: 100 }, 10000)
    );
}

#[test]
fn negative_cap() {
    assert_eq!(
        Interval { count: 10, step: -100, wait_ms: 100 },
        calculate_interval(0, 1000, Bound { min: 0, max: 100 }, 1000)
    );
}

#[test]
fn interval_rounds_and_never_overshoots() {
    // 1000 ms for 130 units: 130 per second, capped at 100, so 1.3 steps round to 1.
    let iv = calculate_interval(130, 0, Bound { min: 50, max: 100 }, 1000);
    assert_eq!(iv, Interval { count: 1, step: 130, wait_ms: 1000 });
    // A difference smaller than half the smallest step needs no intermediate step.
    assert_eq!(calculate_interval(20, 0, Bound { min: 50, max: 100 }, 1000), Interval { count: 0, step: 0, wait_ms: 0 });
    // Truncated steps stop short of the target; the final write closes the gap.
    let iv = calculate_interval(0, 1000, Bound { min: 0, max: 300 }, 1000);
    assert_eq!(iv, Interval { count: 3, step: -333, wait_ms: 333 });
    assert!(iv.count as i64 * iv.step.abs() <= 1000);
}

#[test]
fn property_bounds_and_values() {
    assert_eq!(ColorProperty::Temperature.bound(), Bound { min: 50, max: 100 });
    assert_eq!(ColorProperty::Brightness.bound(), Bound { min: 50, max: 100 });
    assert_eq!(ColorProperty::Temperature.value(&TARGET), 4500);
    assert_eq!(ColorProperty::Brightness.value(&TARGET), 5000);
}

#[test]
fn new_output_takes_mean_color() {
    let mut state = WaylandState::new();
    assert_eq!(state.color(), Color::default());
    assert!(state.add_output(1, 10, 100));
    assert_eq!(state.color(), Color::default());
    assert!(state.set_color(1, Color { temperature: 3000, brightness: 4000, ..INITIAL }));
    assert!(state.add_output(2, 20, 200));
    assert_eq!(state.output_color(2), Some(Color { temperature: 3000, brightness: 4000, ..INITIAL }));
    assert!(state.set_color(2, Color { temperature: 4001, brightness: 5001, ..INITIAL }));
    assert_eq!(state.color(), Color { temperature: 3500, brightness: 4500, ..INITIAL });
    assert!(!state.add_output(2, 30, 300));
    assert!(!state.add_output(3, 20, 300));
    assert!(!state.add_output(3, 30, 200));
    assert_eq!(state.len(), 2);
}

#[test]
fn uploads_wait_for_ramp_size() {
    let mut state = WaylandState::new();
    state.add_output(7, 70, 700);
    assert!(state.color_changed());
    assert_eq!(state.pending_uploads(), Vec::<u32>::new());
    assert_eq!(state.take_upload(7), None);
    assert!(state.set_ramp_size(700, 256));
    assert!(!state.set_ramp_size(701, 256));
    assert_eq!(state.pending_uploads(), vec![7]);
    assert_eq!(
        state.take_upload(7),
        Some(RampUpload { registry_id: 7, gamma_id: 700, ramp_size: 256, byte_len: 1536, color: Color::default() })
    );
    assert!(!state.color_changed());
    assert_eq!(state.take_upload(7), None);
    // A later announcement of the same size owes no new upload.
    state.set_ramp_size(700, 256);
    assert_eq!(state.pending_uploads(), Vec::<u32>::new());
    state.set_color(7, TARGET);
    assert_eq!(state.pending_uploads(), vec![7]);
}

#[test]
fn removed_output_gets_no_upload() {
    let mut state = WaylandState::new();
    state.add_output(1, 10, 100);
    state.add_output(2, 20, 200);
    state.set_ramp_size(100, 16);
    state.set_ramp_size(200, 16);
    assert_eq!(state.pending_uploads(), vec![1, 2]);
    let removed = state.remove_global(1).unwrap();
    assert_eq!(removed.registry_id, 1);
    assert_eq!(removed.gamma_id, 100);
    assert!(state.remove_global(1).is_none());
    assert_eq!(state.pending_uploads(), vec![2]);
    assert_eq!(state.take_upload(1), None);
    assert_eq!(state.output_color(1), None);
    assert!(!state.set_color(1, TARGET));
}

#[test]
fn failed_gamma_control_removes_output() {
    let mut state = WaylandState::new();
    state.add_output(1, 10, 100);
    state.add_output(2, 20, 200);
    state.set_ramp_size(200, 16);
    let failed = state.gamma_failed(200).unwrap();
    assert_eq!(failed.registry_id, 2);
    assert!(state.gamma_failed(200).is_none());
    assert_eq!(state.len(), 1);
    assert_eq!(state.pending_uploads(), Vec::<u32>::new());
    assert!(state.add_output(2, 21, 201));
}

#[test]
fn output_names_are_recorded() {
    let mut state = WaylandState::new();
    state.add_output(1, 10, 100);
    assert!(state.set_output_name(10, String::from("DP-1")));
    assert!(!state.set_output_name(11, String::from("DP-2")));
    let removed = state.remove_global(1).unwrap();
    assert_eq!(removed.name, Some(String::from("DP-1")));
}

#[test]
fn transition_plans_skip_outputs_on_target() {
    let mut state = get_state();
    state.set_color(2, TARGET);
    let plans = state.plan_transition(TARGET, 1000);
    assert_eq!(plans.len(), 1);
    assert_eq!(plans[0].registry_id, 1);
    assert_eq!(plans[0].temperature, Interval { count: 20, step: -100, wait_ms: 50 });
    assert_eq!(plans[0].brightness, Interval { count: 50, step: -100, wait_ms: 20 });
    let instant = state.plan_transition(TARGET, 0);
    let zero = Interval { count: 0, step: 0, wait_ms: 0 };
    assert_eq!(instant, vec![TransitionPlan { registry_id: 1, temperature: zero, brightness: zero }]);
}

#[test]
fn second_change_to_same_color_does_nothing() {
    let mut state = get_state();
    for transition_ms in [0u64, 100, 1000] {
        state_helper(&mut state, TARGET);
        assert_eq!(state.color(), TARGET);
        assert_eq!(state.output_color(1), Some(TARGET));
        assert_eq!(state.output_color(2), Some(TARGET));
        assert!(state.plan_transition(TARGET, transition_ms).is_empty());
        state_helper(&mut state, INITIAL);
    }
    state_helper(&mut state, TARGET);
    while let Some(id) = state.pending_uploads().first().copied() {
        state.take_upload(id);
    }
    state.set_ramp_size(100, 4);
    state.set_ramp_size(200, 4);
    while let Some(id) = state.pending_uploads().first().copied() {
        state.take_upload(id);
    }
    state_helper(&mut state, TARGET);
    assert!(!state.color_changed());
}

#[test]
fn animation_steps_then_exact_target() {
    let mut state = get_state();
    let plan = state.plan_transition(TARGET, 1000)[0];
    for _ in 0..plan.temperature.count - 1 {
        state.apply_step(plan.registry_id, ColorProperty::Temperature, plan.temperature.step);
    }
    for _ in 0..plan.brightness.count - 1 {
        state.apply_step(plan.registry_id, ColorProperty::Brightness, plan.brightness.step);
    }
    let c = state.output_color(1).unwrap();
    assert_eq!(c.temperature, 4600);
    assert_eq!(c.brightness, 5100);
    state_helper(&mut state, TARGET);
    assert_eq!(state.output_color(1), Some(TARGET));
}

#[test]
fn apply_step_saturates() {
    let mut state = get_state();
    state.apply_step(1, ColorProperty::Temperature, -100000);
    assert_eq!(state.output_color(1).unwrap().temperature, 0);
    state.apply_step(1, ColorProperty::Brightness, i64::MAX);
    assert_eq!(state.output_color(1).unwrap().brightness, u32::MAX);
    assert!(!state.apply_step(9, ColorProperty::Brightness, 1));
}

#[test]
fn startup_needs_manager_then_outputs() {
    let mut state = WaylandState::new();
    assert_eq!(state.ready(false), Err(EngineError::UnsupportedCompositor));
    assert_eq!(state.ready(true), Err(EngineError::NoOutputFound));
    state.add_output(1, 10, 100);
    assert_eq!(state.ready(true), Ok(()));
    assert_eq!(state.ready(false), Err(EngineError::UnsupportedCompositor));
}

#[test]
fn new_output_takes_gamma_and_inversion_of_converged_outputs() {
    let mut state = get_state();
    let profile = Color { temperature: 3400, gamma: 80, brightness: 7000, inverted: true };
    state.process_request(WaylandRequest::ChangeOutputColor(profile));
    assert!(state.add_output(3, 30, 300));
    assert_eq!(state.output_color(3), Some(profile));
}

#[test]
fn steps_are_due_on_all_ticks_but_the_last() {
    let iv = Interval { count: 3, step: 5, wait_ms: 10 };
    assert!(iv.step_due(0));
    assert!(iv.step_due(1));
    assert!(!iv.step_due(2));
    assert!(!iv.step_due(3));
    assert!(!Interval { count: 0, step: 0, wait_ms: 0 }.step_due(0));
}
