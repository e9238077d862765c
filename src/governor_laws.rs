//! Properties of the arming state machine, proved over its transition
//! function.

use vstd::prelude::*;
use crate::arm_blocker::{ArmBlocker, ArmFlag};
use crate::governor::{
    armed_wait_outcome, clamp_speeds, is_zero, ramp_command, transition, wait_for, ArmedState,
    DisarmReason, Event, GovernorConfig, MotorState, Output, Phase, Wait, ESC_BOOT_MS,
    RAMP_PERIOD_MS, RAMP_STEPS, RAMP_TOTAL_MS, THROTTLE_MIN_STEPS,
};

verus! {

/// The motors start arming only from the disarmed wait, only on a blocker
/// mask that is empty, and always at the start of the ramp.
pub proof fn lemma_arming_needs_clear_mask(
    config: GovernorConfig,
    phase: Phase,
    state: MotorState,
    event: Event,
)
    requires
        !(phase is Ramp),
        transition(config, phase, state, event).0 is Ramp,
    ensures
        phase == Phase::WaitingForClear,
        event matches Event::Blocker(b) && b@ == Set::<ArmFlag>::empty(),
        transition(config, phase, state, event).0 == Phase::Ramp(0),
        transition(config, phase, state, event).1 == MotorState::Arming,
{
}

/// Milliseconds of the arming ramp still to wait in `phase`.
pub open spec fn ramp_ms_left(phase: Phase) -> int {
    match phase {
        Phase::Ramp(k) => if k == 0 {
            RAMP_TOTAL_MS as int
        } else if k <= RAMP_STEPS {
            (RAMP_STEPS + 1 - k) * RAMP_PERIOD_MS
        } else {
            RAMP_PERIOD_MS as int
        },
        _ => 0,
    }
}

/// During the ramp nothing but the lapse of the pending delay moves the
/// governor: every other event leaves it as it was. Each lapse issues the
/// next command of the ramp and takes exactly the delay waited off the time
/// left, and the ramp ends only in the post-ramp check, when no time is left.
pub proof fn lemma_ramp_step(config: GovernorConfig, k: u32, state: MotorState, event: Event)
    ensures
        ({
            let (p, s, out) = transition(config, Phase::Ramp(k), state, event);
            &&& !(event is DelayElapsed) ==> p == Phase::Ramp(k) && s == state && out == Seq::<Output>::empty()
            &&& event is DelayElapsed ==> {
                &&& s == state
                &&& wait_for(config, Phase::Ramp(k)) matches Wait::Delay(d)
                    && ramp_ms_left(p) == ramp_ms_left(Phase::Ramp(k)) - d
                &&& k < RAMP_STEPS ==> p == Phase::Ramp((k + 1) as u32)
                    && out == seq![ramp_command(config, k)]
                &&& k >= RAMP_STEPS ==> p == Phase::Checking && out == Seq::<Output>::empty()
            }
        }),
{
}

/// The commands of the whole ramp: minimum throttle, then the motor
/// directions.
pub open spec fn ramp_commands(config: GovernorConfig) -> Seq<Output> {
    Seq::new(RAMP_STEPS as nat, |i: int| ramp_command(config, i as u32))
}

/// Applies `n` lapses of the pending delay, from `phase`. Gives the phase and
/// state reached, the outputs issued and the milliseconds waited.
pub open spec fn run_delays(
    config: GovernorConfig,
    phase: Phase,
    state: MotorState,
    n: nat,
) -> (Phase, MotorState, Seq<Output>, int)
    decreases n,
{
    if n == 0 {
        (phase, state, Seq::empty(), 0)
    } else {
        let (p, s, out) = transition(config, phase, state, Event::DelayElapsed);
        let d = match wait_for(config, phase) {
            Wait::Delay(d) => d as int,
            _ => 0,
        };
        let (p_end, s_end, out_rest, ms_rest) = run_delays(config, p, s, (n - 1) as nat);
        (p_end, s_end, out + out_rest, d + ms_rest)
    }
}

proof fn lemma_run_from(config: GovernorConfig, k: u32, state: MotorState)
    requires
        k <= RAMP_STEPS,
    ensures
        run_delays(config, Phase::Ramp(k), state, (RAMP_STEPS + 1 - k) as nat) == (
            Phase::Checking,
            state,
            ramp_commands(config).subrange(k as int, RAMP_STEPS as int),
            ramp_ms_left(Phase::Ramp(k)),
        ),
    decreases RAMP_STEPS - k,
{
    let n = (RAMP_STEPS + 1 - k) as nat;
    if k == RAMP_STEPS {
        assert(run_delays(config, Phase::Checking, state, 0) == (
            Phase::Checking, state, Seq::<Output>::empty(), 0int));
        assert(ramp_commands(config).subrange(k as int, RAMP_STEPS as int) =~= Seq::<Output>::empty());
    } else {
        lemma_run_from(config, (k + 1) as u32, state);
        let rest = ramp_commands(config).subrange(k + 1, RAMP_STEPS as int);
        assert(seq![ramp_command(config, k)] + rest
            =~= ramp_commands(config).subrange(k as int, RAMP_STEPS as int));
    }
}

/// Once started, the ramp always takes the same course: from its start,
/// it ends in the post-ramp check after exactly the lapses of the fixed
/// schedule, having issued the fixed commands (minimum throttle for the first
/// part, then the motor directions) and waited the fixed total time; any fewer
/// lapses leave it inside the ramp.
pub proof fn lemma_ramp_is_fixed(config: GovernorConfig, state: MotorState, n: nat)
    ensures
        n == RAMP_STEPS + 1 ==> run_delays(config, Phase::Ramp(0), state, n) == (
            Phase::Checking,
            state,
            ramp_commands(config),
            RAMP_TOTAL_MS as int,
        ),
        n <= RAMP_STEPS ==> run_delays(config, Phase::Ramp(0), state, n).0 == Phase::Ramp(n as u32),
        ramp_commands(config).len() == RAMP_STEPS,
        forall|i: int| 0 <= i < THROTTLE_MIN_STEPS ==> ramp_commands(config)[i] == Output::ThrottleMinimum,
        forall|i: int| THROTTLE_MIN_STEPS <= i < RAMP_STEPS
            ==> ramp_commands(config)[i] == Output::Reverse(config.reverse_motor),
        RAMP_TOTAL_MS == ESC_BOOT_MS + RAMP_STEPS * RAMP_PERIOD_MS,
{
    if n == RAMP_STEPS + 1 {
        lemma_run_from(config, 0, state);
        assert(ramp_commands(config).subrange(0, RAMP_STEPS as int) =~= ramp_commands(config));
    }
    if n <= RAMP_STEPS {
        lemma_run_inside(config, 0, state, n);
    }
}

proof fn lemma_run_inside(config: GovernorConfig, k: u32, state: MotorState, n: nat)
    requires
        k + n <= RAMP_STEPS,
    ensures
        run_delays(config, Phase::Ramp(k), state, n).0 == Phase::Ramp((k + n) as u32),
    decreases n,
{
    if n > 0 {
        lemma_run_inside(config, (k + 1) as u32, state, (n - 1) as nat);
    }
}

/// The motors reach the armed phase only from the post-ramp check, and only
/// when the mask read there is empty.
pub proof fn lemma_armed_only_after_clear_check(
    config: GovernorConfig,
    phase: Phase,
    state: MotorState,
    event: Event,
)
    requires
        phase != Phase::Armed,
        transition(config, phase, state, event).0 == Phase::Armed,
    ensures
        phase == Phase::Checking,
        event matches Event::Blocker(b) && b@ == Set::<ArmFlag>::empty(),
{
}

/// A blocker found set right after the ramp disarms the motors with a fault,
/// never arming them.
pub proof fn lemma_fault_after_ramp(config: GovernorConfig, state: MotorState, b: ArmBlocker)
    requires
        b@ != Set::<ArmFlag>::empty(),
    ensures
        transition(config, Phase::Checking, state, Event::Blocker(b)) == (
            Phase::WaitingForClear,
            MotorState::Disarmed(DisarmReason::Fault),
            seq![Output::Publish(MotorState::Disarmed(DisarmReason::Fault))],
        ),
{
}

/// While armed, the all-zero speed vector gives the idle state at minimum
/// throttle, and any other vector gives the running state with that vector
/// clamped to the configured bounds; a vector already within the bounds is
/// kept as it is.
pub proof fn lemma_armed_speeds(config: GovernorConfig, state: MotorState, v: [i16; 4])
    ensures
        ({
            let (p, s, out) = transition(config, Phase::Armed, state, Event::Speeds(v));
            &&& p == Phase::Armed
            &&& is_zero(v) ==> s == MotorState::Armed(ArmedState::Idle)
                && out == seq![Output::ThrottleMinimum, Output::Publish(s)]
            &&& !is_zero(v) ==> s == MotorState::Armed(
                ArmedState::Running(clamp_speeds(v, config.speed_min, config.speed_max)),
            ) && out == seq![Output::Throttle(clamp_speeds(v, config.speed_min, config.speed_max)), Output::Publish(s)]
        }),
        config.speed_min <= config.speed_max ==> forall|i: int| 0 <= i < 4
            ==> config.speed_min <= #[trigger] clamp_speeds(v, config.speed_min, config.speed_max)[i]
                <= config.speed_max,
        (forall|i: int| 0 <= i < 4 ==> config.speed_min <= #[trigger] v[i] <= config.speed_max)
            ==> clamp_speeds(v, config.speed_min, config.speed_max) == v,
{
    let c = clamp_speeds(v, config.speed_min, config.speed_max);
    if forall|i: int| 0 <= i < 4 ==> config.speed_min <= #[trigger] v[i] <= config.speed_max {
        assert(v[0] == c[0] && v[1] == c[1] && v[2] == c[2] && v[3] == c[3]);
        assert(v@ =~= c@);
        vstd::array::axiom_array_ext_equal(v, c);
    }
}

/// While armed, a mask with the disarm command disarms the motors in that one
/// step, whatever other blockers it holds; a mask without it changes nothing.
pub proof fn lemma_commanded_disarm(config: GovernorConfig, state: MotorState, b: ArmBlocker)
    ensures
        b@.contains(ArmFlag::CmdDisarm) ==> transition(config, Phase::Armed, state, Event::Blocker(b))
            == (
            Phase::WaitingForClear,
            MotorState::Disarmed(DisarmReason::Commanded),
            seq![
                Output::ThrottleMinimum,
                Output::Publish(MotorState::Disarmed(DisarmReason::Commanded)),
            ],
        ),
        !b@.contains(ArmFlag::CmdDisarm) ==> transition(config, Phase::Armed, state, Event::Blocker(b))
            == (Phase::Armed, state, Seq::<Output>::empty()),
{
}

/// While armed, every wait carries the configured timeout; when that much time
/// has passed with no speed or blocker update, the wait ends in a timeout and
/// the motors disarm for it.
pub proof fn lemma_timeout_disarms(
    config: GovernorConfig,
    state: MotorState,
    since_ms: u64,
    now_ms: u64,
)
    requires
        since_ms <= now_ms,
        now_ms - since_ms >= config.timeout_ms,
    ensures
        wait_for(config, Phase::Armed) == Wait::ArmedEvent(config.timeout_ms),
        armed_wait_outcome(config.timeout_ms, since_ms, now_ms, None, None) == Some(Event::TimedOut),
        transition(config, Phase::Armed, state, Event::TimedOut) == (
            Phase::WaitingForClear,
            MotorState::Disarmed(DisarmReason::Timeout),
            seq![
                Output::ThrottleMinimum,
                Output::Publish(MotorState::Disarmed(DisarmReason::Timeout)),
            ],
        ),
{
}

/// Observers see every change of state: a step that changes the state ends
/// by publishing the new one, and a step publishes nothing else. Speeds reach
/// the motors only while armed.
pub proof fn lemma_state_is_published(
    config: GovernorConfig,
    phase: Phase,
    state: MotorState,
    event: Event,
)
    ensures
        ({
            let (p, s, out) = transition(config, phase, state, event);
            &&& s != state ==> out.len() > 0 && out.last() == Output::Publish(s)
            &&& forall|i: int| 0 <= i < out.len() && #[trigger] out[i] is Publish
                ==> out[i] == Output::Publish(s)
            &&& forall|i: int| 0 <= i < out.len() && #[trigger] out[i] is Throttle
                ==> phase == Phase::Armed && p == Phase::Armed
        }),
{
}

} // verus!
