use flight_core::arm_blocker::{ArmBlocker, ArmFlag};
use flight_core::governor::{
    resolve_armed_wait, ArmedState, DisarmReason, Event, Governor, GovernorConfig, MotorState,
    Output, Phase, Wait,
};

fn config() -> GovernorConfig {
    GovernorConfig {
        reverse_motor: [false, true, false, true],
        timeout_ms: 500,
        speed_min: -1000,
        speed_max: 1000,
    }
}

/// Runs the ramp to its end and returns the total delay waited and the commands.
fn run_ramp(g: &mut Governor, first_wait: Wait) -> (u64, Vec<Output>) {
    let mut waited: u64 = 0;
    let mut commands = Vec::new();
    let mut wait = first_wait;
    while let Wait::Delay(d) = wait {
        waited += d;
        let step = g.handle(Event::DelayElapsed);
        commands.extend(step.outputs);
        wait = step.wait;
    }
    assert_eq!(wait, Wait::ReadBlocker);
    (waited, commands)
}

fn armed_governor() -> Governor {
    let (mut g, _) = Governor::start(config());
    let step = g.handle(Event::Blocker(ArmBlocker::empty()));
    run_ramp(&mut g, step.wait);
    let step = g.handle(Event::Blocker(ArmBlocker::empty()));
    assert_eq!(step.wait, Wait::ArmedEvent(500));
    assert_eq!(g.phase(), Phase::Armed);
    g
}

#[test]
fn startup_publishes_not_initialized() {
    let (g, step) = Governor::start(config());
    assert_eq!(
        step.outputs,
        vec![Output::Publish(MotorState::Disarmed(DisarmReason::NotInitialized))]
    );
    assert_eq!(step.wait, Wait::BlockerClear);
    assert_eq!(g.state(), MotorState::Disarmed(DisarmReason::NotInitialized));
}

#[test]
fn blocked_mask_does_not_arm() {
    let (mut g, _) = Governor::start(config());
    let step = g.handle(Event::Blocker(ArmBlocker::from_flag(ArmFlag::BootGrace)));
    assert!(step.outputs.is_empty());
    assert_eq!(step.wait, Wait::BlockerClear);
    assert_eq!(g.phase(), Phase::WaitingForClear);
    let step = g.handle(Event::Blocker(ArmBlocker::empty()));
    assert_eq!(step.outputs, vec![Output::Publish(MotorState::Arming)]);
    assert_eq!(step.wait, Wait::Delay(500));
    assert_eq!(g.state(), MotorState::Arming);
}

#[test]
fn ramp_is_fixed_sequence() {
    let (mut g, _) = Governor::start(config());
    let step = g.handle(Event::Blocker(ArmBlocker::empty()));
    let (waited, commands) = run_ramp(&mut g, step.wait);
    assert_eq!(waited, 3500);
    assert_eq!(commands.len(), 60);
    assert!(commands[..50].iter().all(|c| *c == Output::ThrottleMinimum));
    assert!(commands[50..]
        .iter()
        .all(|c| *c == Output::Reverse([false, true, false, true])));
    assert_eq!(g.phase(), Phase::Checking);
}

#[test]
fn ramp_ignores_other_events() {
    let (mut g, _) = Governor::start(config());
    g.handle(Event::Blocker(ArmBlocker::empty()));
    g.handle(Event::DelayElapsed);
    let before = g.phase();
    let step = g.handle(Event::Blocker(ArmBlocker::from_flag(ArmFlag::CmdDisarm)));
    assert!(step.outputs.is_empty());
    let step2 = g.handle(Event::TimedOut);
    assert!(step2.outputs.is_empty());
    let step3 = g.handle(Event::Speeds([5, 5, 5, 5]));
    assert!(step3.outputs.is_empty());
    assert_eq!(step3.wait, Wait::Delay(50));
    assert_eq!(g.phase(), before);
    assert_eq!(g.phase(), Phase::Ramp(1));
}

#[test]
fn blocker_after_ramp_is_fault() {
    let (mut g, _) = Governor::start(config());
    let step = g.handle(Event::Blocker(ArmBlocker::empty()));
    run_ramp(&mut g, step.wait);
    let step = g.handle(Event::Blocker(ArmBlocker::from_flag(ArmFlag::RxFailsafe)));
    assert_eq!(
        step.outputs,
        vec![Output::Publish(MotorState::Disarmed(DisarmReason::Fault))]
    );
    assert_eq!(step.wait, Wait::BlockerClear);
    assert_eq!(g.state(), MotorState::Disarmed(DisarmReason::Fault));
}

#[test]
fn zero_speeds_give_idle() {
    let mut g = armed_governor();
    let step = g.handle(Event::Speeds([0, 0, 0, 0]));
    assert_eq!(
        step.outputs,
        vec![
            Output::ThrottleMinimum,
            Output::Publish(MotorState::Armed(ArmedState::Idle))
        ]
    );
    assert_eq!(g.state(), MotorState::Armed(ArmedState::Idle));
}

#[test]
fn speeds_give_running_clamped() {
    let mut g = armed_governor();
    let step = g.handle(Event::Speeds([100, -200, 300, 0]));
    assert_eq!(g.state(), MotorState::Armed(ArmedState::Running([100, -200, 300, 0])));
    assert_eq!(step.outputs[0], Output::Throttle([100, -200, 300, 0]));
    g.handle(Event::Speeds([2000, -3000, 999, 1000]));
    assert_eq!(
        g.state(),
        MotorState::Armed(ArmedState::Running([1000, -1000, 999, 1000]))
    );
}

#[test]
fn commanded_disarm_wins_over_other_bits() {
    let mut g = armed_governor();
    let mask = ArmBlocker::from_flag(ArmFlag::CmdDisarm)
        .with(ArmFlag::HighAttitude)
        .with(ArmFlag::SystemLoad);
    let step = g.handle(Event::Blocker(mask));
    assert_eq!(
        step.outputs,
        vec![
            Output::ThrottleMinimum,
            Output::Publish(MotorState::Disarmed(DisarmReason::Commanded))
        ]
    );
    assert_eq!(step.wait, Wait::BlockerClear);
}

#[test]
fn other_blockers_keep_armed() {
    let mut g = armed_governor();
    let step = g.handle(Event::Blocker(ArmBlocker::from_flag(ArmFlag::HighAttitude)));
    assert!(step.outputs.is_empty());
    assert_eq!(g.phase(), Phase::Armed);
    assert_eq!(step.wait, Wait::ArmedEvent(500));
}

#[test]
fn timeout_disarms() {
    let mut g = armed_governor();
    let step = g.handle(Event::TimedOut);
    assert_eq!(
        step.outputs,
        vec![
            Output::ThrottleMinimum,
            Output::Publish(MotorState::Disarmed(DisarmReason::Timeout))
        ]
    );
    assert_eq!(g.state(), MotorState::Disarmed(DisarmReason::Timeout));
}

#[test]
fn armed_wait_race() {
    let b = ArmBlocker::from_flag(ArmFlag::CmdDisarm);
    assert_eq!(
        resolve_armed_wait(500, 0, 900, Some([1, 2, 3, 4]), Some(b)),
        Some(Event::Speeds([1, 2, 3, 4]))
    );
    assert_eq!(resolve_armed_wait(500, 0, 100, None, Some(b)), Some(Event::Blocker(b)));
    assert_eq!(resolve_armed_wait(500, 0, 499, None, None), None);
    assert_eq!(resolve_armed_wait(500, 0, 500, None, None), Some(Event::TimedOut));
    assert_eq!(resolve_armed_wait(500, 100, 50, None, None), None);
}

#[test]
fn idle_then_silence_times_out() {
    let mut g = armed_governor();
    let t0: u64 = 0;
    let ev = resolve_armed_wait(500, t0, t0, Some([0, 0, 0, 0]), None).unwrap();
    g.handle(ev);
    assert_eq!(g.state(), MotorState::Armed(ArmedState::Idle));
    let since = t0;
    assert_eq!(resolve_armed_wait(500, since, 300, None, None), None);
    let ev = resolve_armed_wait(500, since, 600, None, None).unwrap();
    assert_eq!(ev, Event::TimedOut);
    g.handle(ev);
    assert_eq!(g.state(), MotorState::Disarmed(DisarmReason::Timeout));
}
