use flight_core::attitude::{
    integrator_resets, is_circular, refresh_mode, update_order, Axis, ControllerId, ModeKind,
    Stage, StabilizationMode,
};

fn ids(stage: Stage) -> Vec<ControllerId> {
    vec![
        ControllerId { stage, axis: Axis::Roll },
        ControllerId { stage, axis: Axis::Pitch },
        ControllerId { stage, axis: Axis::Yaw },
    ]
}

#[test]
fn same_variant_ignores_vector() {
    let h1 = StabilizationMode::Horizon([1.0f32, 2.0, 3.0]);
    let h2 = StabilizationMode::Horizon([0.0f32, 0.0, 0.0]);
    let a1 = StabilizationMode::Acro([1.0f32, 2.0, 3.0]);
    assert!(h1.same_variant_as(&h2));
    assert!(!h1.same_variant_as(&a1));
    assert!(a1.same_variant_as(&a1));
    assert_eq!(h1.kind(), ModeKind::Horizon);
    assert_eq!(*a1.setpoint(), [1.0f32, 2.0, 3.0]);
}

#[test]
fn refresh_reports_kind_switch() {
    let mut m = StabilizationMode::Horizon(1i32);
    assert!(!refresh_mode(&mut m, None));
    assert_eq!(m, StabilizationMode::Horizon(1));
    assert!(!refresh_mode(&mut m, Some(StabilizationMode::Horizon(2))));
    assert_eq!(m, StabilizationMode::Horizon(2));
    assert!(refresh_mode(&mut m, Some(StabilizationMode::Acro(2))));
    assert_eq!(m, StabilizationMode::Acro(2));
}

#[test]
fn horizon_cascades_acro_does_not() {
    let v = [0.1f32, 0.2, 0.3];
    let h = StabilizationMode::Horizon(v);
    let a = StabilizationMode::Acro(v);
    let mut cascade = ids(Stage::Outer);
    cascade.extend(ids(Stage::Inner));
    assert_eq!(update_order(h.kind()), cascade);
    assert_eq!(update_order(a.kind()), ids(Stage::Inner));
    assert_ne!(update_order(h.kind()), update_order(a.kind()));
}

#[test]
fn reset_covers_all_six() {
    let r = integrator_resets(Some(true));
    assert_eq!(r.len(), 6);
    for stage in [Stage::Outer, Stage::Inner] {
        for axis in [Axis::Roll, Axis::Pitch, Axis::Yaw] {
            assert!(r.contains(&ControllerId { stage, axis }));
        }
    }
    assert!(integrator_resets(Some(false)).is_empty());
    assert!(integrator_resets(None).is_empty());
}

#[test]
fn only_yaw_is_circular() {
    assert!(is_circular(Axis::Yaw));
    assert!(!is_circular(Axis::Roll));
    assert!(!is_circular(Axis::Pitch));
}
