//! The arming state machine. It is written as a pure transition function:
//! the task that runs it performs the outputs of each step, waits as the step
//! says, and hands back what ended the wait as the next event.

use vstd::prelude::*;
use crate::arm_blocker::{ArmBlocker, ArmFlag};

verus! {

/// Why the motors are disarmed.
#[derive(Clone, Copy, Debug, PartialEq, Eq, Structural)]
pub enum DisarmReason {
    /// The governor has just started.
    NotInitialized,
    /// A blocker was set when the arming ramp ended.
    Fault,
    /// The operator commanded a disarm.
    Commanded,
    /// No command arrived in time while armed.
    Timeout,
}

/// What armed motors are doing.
#[derive(Clone, Copy, Debug, PartialEq, Eq)]
pub enum ArmedState {
    /// Armed, at minimum throttle.
    Idle,
    /// Armed and spinning at these speeds, one per motor.
    Running([i16; 4]),
}

/// The externally visible state of the motors.
#[derive(Clone, Copy, Debug, PartialEq, Eq)]
pub enum MotorState {
    Disarmed(DisarmReason),
    Arming,
    Armed(ArmedState),
}

/// Time given to the speed controllers to boot before arming starts.
pub const ESC_BOOT_MS: u64 = 500;
/// Spacing of the commands of the arming ramp.
pub const RAMP_PERIOD_MS: u64 = 50;
/// Number of minimum-throttle commands that arm the speed controllers.
pub const THROTTLE_MIN_STEPS: u32 = 50;
/// Number of commands in the whole ramp: the minimum-throttle commands, then
/// the motor-direction commands.
pub const RAMP_STEPS: u32 = 60;
/// Length of the whole arming ramp.
pub const RAMP_TOTAL_MS: u64 = 3500;

/// What the governor is doing.
#[derive(Clone, Copy, Debug, PartialEq, Eq, Structural)]
pub enum Phase {
    /// Disarmed, waiting for a mask with no blocker.
    WaitingForClear,
    /// Arming; the count of ramp commands already issued. A delay is pending.
    Ramp(u32),
    /// The ramp is over; the current mask is being read.
    Checking,
    /// Armed, waiting for a speed command, a mask update or the timeout.
    Armed,
}

/// Settings fixed for the lifetime of the governor.
#[derive(Clone, Copy, Debug, PartialEq, Eq)]
pub struct GovernorConfig {
    /// For each motor, whether it turns in reverse.
    pub reverse_motor: [bool; 4],
    /// Longest wait for an update while armed before the motors disarm.
    pub timeout_ms: u64,
    /// Lowest speed forwarded to a motor.
    pub speed_min: i16,
    /// Highest speed forwarded to a motor.
    pub speed_max: i16,
}

/// A command to the motor driver or to the observers, in the order given.
#[derive(Clone, Copy, Debug, PartialEq, Eq)]
pub enum Output {
    /// Publish the motor state.
    Publish(MotorState),
    /// Command minimum throttle on every motor.
    ThrottleMinimum,
    /// Configure the direction of each motor.
    Reverse([bool; 4]),
    /// Command these speeds, already within the configured bounds.
    Throttle([i16; 4]),
}

/// What to wait for after the outputs of a step.
#[derive(Clone, Copy, Debug, PartialEq, Eq, Structural)]
pub enum Wait {
    /// A change of the blocker mask to an empty one.
    BlockerClear,
    /// This many milliseconds.
    Delay(u64),
    /// The current blocker mask, without waiting for a change.
    ReadBlocker,
    /// The first of a new speed vector or a changed blocker mask, or the
    /// lapse of this many milliseconds without either.
    ArmedEvent(u64),
}

/// What ended a wait.
#[derive(Clone, Copy, Debug, PartialEq, Eq)]
pub enum Event {
    /// The blocker mask, as changed or as read.
    Blocker(ArmBlocker),
    /// A new commanded speed vector.
    Speeds([i16; 4]),
    /// A delay has passed.
    DelayElapsed,
    /// The armed wait has lapsed with no update.
    TimedOut,
}

/// One decision of the governor: what to do now, then what to wait for.
pub struct Step {
    pub outputs: Vec<Output>,
    pub wait: Wait,
}

pub open spec fn clamp(v: i16, lo: i16, hi: i16) -> i16 {
    if v < lo {
        lo
    } else if v > hi {
        hi
    } else {
        v
    }
}

/// Each speed brought within `[lo, hi]`.
pub open spec fn clamp_speeds(s: [i16; 4], lo: i16, hi: i16) -> [i16; 4] {
    [clamp(s[0], lo, hi), clamp(s[1], lo, hi), clamp(s[2], lo, hi), clamp(s[3], lo, hi)]
}

pub open spec fn is_zero(s: [i16; 4]) -> bool {
    s[0] == 0 && s[1] == 0 && s[2] == 0 && s[3] == 0
}

/// The wait that belongs to each phase.
pub open spec fn wait_for(config: GovernorConfig, phase: Phase) -> Wait {
    match phase {
        Phase::WaitingForClear => Wait::BlockerClear,
        Phase::Ramp(k) => if k == 0 {
            Wait::Delay(ESC_BOOT_MS)
        } else {
            Wait::Delay(RAMP_PERIOD_MS)
        },
        Phase::Checking => Wait::ReadBlocker,
        Phase::Armed => Wait::ArmedEvent(config.timeout_ms),
    }
}

/// The command issued by the ramp when `k` commands have been issued before.
pub open spec fn ramp_command(config: GovernorConfig, k: u32) -> Output {
    if k < THROTTLE_MIN_STEPS {
        Output::ThrottleMinimum
    } else {
        Output::Reverse(config.reverse_motor)
    }
}

/// The governor's next phase, its published state and its outputs, when
/// `event` ends the wait of `phase`. An event that the phase does not wait
/// for changes nothing.
pub open spec fn transition(
    config: GovernorConfig,
    phase: Phase,
    state: MotorState,
    event: Event,
) -> (Phase, MotorState, Seq<Output>) {
    match (phase, event) {
        (Phase::WaitingForClear, Event::Blocker(b)) => if b@ == Set::<ArmFlag>::empty() {
            (Phase::Ramp(0), MotorState::Arming, seq![Output::Publish(MotorState::Arming)])
        } else {
            (phase, state, seq![])
        },
        (Phase::Ramp(k), Event::DelayElapsed) => if k < RAMP_STEPS {
            (Phase::Ramp((k + 1) as u32), state, seq![ramp_command(config, k)])
        } else {
            (Phase::Checking, state, seq![])
        },
        (Phase::Checking, Event::Blocker(b)) => if b@ == Set::<ArmFlag>::empty() {
            (Phase::Armed, state, seq![])
        } else {
            let s = MotorState::Disarmed(DisarmReason::Fault);
            (Phase::WaitingForClear, s, seq![Output::Publish(s)])
        },
        (Phase::Armed, Event::Speeds(v)) => if is_zero(v) {
            let s = MotorState::Armed(ArmedState::Idle);
            (Phase::Armed, s, seq![Output::ThrottleMinimum, Output::Publish(s)])
        } else {
            let c = clamp_speeds(v, config.speed_min, config.speed_max);
            let s = MotorState::Armed(ArmedState::Running(c));
            (Phase::Armed, s, seq![Output::Throttle(c), Output::Publish(s)])
        },
        (Phase::Armed, Event::Blocker(b)) => if b@.contains(ArmFlag::CmdDisarm) {
            let s = MotorState::Disarmed(DisarmReason::Commanded);
            (Phase::WaitingForClear, s, seq![Output::ThrottleMinimum, Output::Publish(s)])
        } else {
            (phase, state, seq![])
        },
        (Phase::Armed, Event::TimedOut) => {
            let s = MotorState::Disarmed(DisarmReason::Timeout);
            (Phase::WaitingForClear, s, seq![Output::ThrottleMinimum, Output::Publish(s)])
        },
        _ => (phase, state, seq![]),
    }
}

/// What ends an armed wait that began at `since_ms`, looked at at `now_ms`:
/// a new speed vector wins over a changed mask, either wins over the timeout,
/// and the timeout ends the wait once `timeout_ms` have passed. `None` while
/// nothing has ended it.
pub open spec fn armed_wait_outcome(
    timeout_ms: u64,
    since_ms: u64,
    now_ms: u64,
    speeds: Option<[i16; 4]>,
    blocker: Option<ArmBlocker>,
) -> Option<Event> {
    match speeds {
        Some(v) => Some(Event::Speeds(v)),
        None => match blocker {
            Some(b) => Some(Event::Blocker(b)),
            None => if now_ms >= since_ms && now_ms - since_ms >= timeout_ms {
                Some(Event::TimedOut)
            } else {
                None
            },
        },
    }
}

/// Decides what ended an armed wait: the first ready update, or the lapse of
/// the timeout. `speeds` and `blocker` are the updates that arrived since the
/// wait began.
pub fn resolve_armed_wait(
    timeout_ms: u64,
    since_ms: u64,
    now_ms: u64,
    speeds: Option<[i16; 4]>,
    blocker: Option<ArmBlocker>,
) -> (r: Option<Event>)
    ensures
        r == armed_wait_outcome(timeout_ms, since_ms, now_ms, speeds, blocker),
{
    match speeds {
        Some(v) => Some(Event::Speeds(v)),
        None => match blocker {
            Some(b) => Some(Event::Blocker(b)),
            None => if now_ms >= since_ms && now_ms - since_ms >= timeout_ms {
                Some(Event::TimedOut)
            } else {
                None
            },
        },
    }
}

fn clamp_speed(v: i16, lo: i16, hi: i16) -> (r: i16)
    ensures
        r == clamp(v, lo, hi),
{
    if v < lo {
        lo
    } else if v > hi {
        hi
    } else {
        v
    }
}

fn clamp_all(s: [i16; 4], lo: i16, hi: i16) -> (r: [i16; 4])
    ensures
        r == clamp_speeds(s, lo, hi),
{
    [clamp_speed(s[0], lo, hi), clamp_speed(s[1], lo, hi), clamp_speed(s[2], lo, hi), clamp_speed(s[3], lo, hi)]
}

/// The arming state machine of the motors.
pub struct Governor {
    config: GovernorConfig,
    phase: Phase,
    state: MotorState,
}

impl Governor {
    pub closed spec fn spec_config(&self) -> GovernorConfig {
        self.config
    }

    pub closed spec fn spec_phase(&self) -> Phase {
        self.phase
    }

    pub closed spec fn spec_state(&self) -> MotorState {
        self.state
    }

    /// Starts a governor: it publishes that the motors are disarmed because
    /// nothing has been initialised yet, then waits for a clear mask.
    pub fn start(config: GovernorConfig) -> (r: (Governor, Step))
        ensures
            r.0.spec_config() == config,
            r.0.spec_phase() == Phase::WaitingForClear,
            r.0.spec_state() == MotorState::Disarmed(DisarmReason::NotInitialized),
            r.1.outputs@ == seq![Output::Publish(MotorState::Disarmed(DisarmReason::NotInitialized))],
            r.1.wait == Wait::BlockerClear,
    {
        let s = MotorState::Disarmed(DisarmReason::NotInitialized);
        let g = Governor { config, phase: Phase::WaitingForClear, state: s };
        (g, Step { outputs: vec![Output::Publish(s)], wait: Wait::BlockerClear })
    }

    pub fn config(&self) -> (r: GovernorConfig)
        ensures
            r == self.spec_config(),
    {
        self.config
    }

    pub fn phase(&self) -> (r: Phase)
        ensures
            r == self.spec_phase(),
    {
        self.phase
    }

    /// The state most recently published.
    pub fn state(&self) -> (r: MotorState)
        ensures
            r == self.spec_state(),
    {
        self.state
    }

    /// The wait that the governor is in.
    pub fn wait(&self) -> (r: Wait)
        ensures
            r == wait_for(self.spec_config(), self.spec_phase()),
    {
        match self.phase {
            Phase::WaitingForClear => Wait::BlockerClear,
            Phase::Ramp(k) => if k == 0 {
                Wait::Delay(ESC_BOOT_MS)
            } else {
                Wait::Delay(RAMP_PERIOD_MS)
            },
            Phase::Checking => Wait::ReadBlocker,
            Phase::Armed => Wait::ArmedEvent(self.config.timeout_ms),
        }
    }

    /// Takes the event that ended the current wait, and returns what to do
    /// and what to wait for next.
    pub fn handle(&mut self, event: Event) -> (r: Step)
        ensures
            final(self).spec_config() == old(self).spec_config(),
            (final(self).spec_phase(), final(self).spec_state(), r.outputs@) == transition(
                old(self).spec_config(),
                old(self).spec_phase(),
                old(self).spec_state(),
                event,
            ),
            r.wait == wait_for(final(self).spec_config(), final(self).spec_phase()),
    {
        let mut outputs: Vec<Output> = Vec::new();
        match (self.phase, event) {
            (Phase::WaitingForClear, Event::Blocker(b)) => {
                if b.is_empty() {
                    self.phase = Phase::Ramp(0);
                    self.state = MotorState::Arming;
                    outputs.push(Output::Publish(MotorState::Arming));
                }
            },
            (Phase::Ramp(k), Event::DelayElapsed) => {
                if k < RAMP_STEPS {
                    if k < THROTTLE_MIN_STEPS {
                        outputs.push(Output::ThrottleMinimum);
                    } else {
                        outputs.push(Output::Reverse(self.config.reverse_motor));
                    }
                    self.phase = Phase::Ramp(k + 1);
                } else {
                    self.phase = Phase::Checking;
                }
            },
            (Phase::Checking, Event::Blocker(b)) => {
                if b.is_empty() {
                    self.phase = Phase::Armed;
                } else {
                    let s = MotorState::Disarmed(DisarmReason::Fault);
                    self.phase = Phase::WaitingForClear;
                    self.state = s;
                    outputs.push(Output::Publish(s));
                }
            },
            (Phase::Armed, Event::Speeds(v)) => {
                if v[0] == 0 && v[1] == 0 && v[2] == 0 && v[3] == 0 {
                    let s = MotorState::Armed(ArmedState::Idle);
                    self.state = s;
                    outputs.push(Output::ThrottleMinimum);
                    outputs.push(Output::Publish(s));
                } else {
                    let c = clamp_all(v, self.config.speed_min, self.config.speed_max);
                    let s = MotorState::Armed(ArmedState::Running(c));
                    self.state = s;
                    outputs.push(Output::Throttle(c));
                    outputs.push(Output::Publish(s));
                }
            },
            (Phase::Armed, Event::Blocker(b)) => {
                if b.contains(ArmFlag::CmdDisarm) {
                    let s = MotorState::Disarmed(DisarmReason::Commanded);
                    self.phase = Phase::WaitingForClear;
                    self.state = s;
                    outputs.push(Output::ThrottleMinimum);
                    outputs.push(Output::Publish(s));
                }
            },
            (Phase::Armed, Event::TimedOut) => {
                let s = MotorState::Disarmed(DisarmReason::Timeout);
                self.phase = Phase::WaitingForClear;
                self.state = s;
                outputs.push(Output::ThrottleMinimum);
                outputs.push(Output::Publish(s));
            },
            _ => {},
        }
        assert(outputs@ =~= transition(
            old(self).config, old(self).phase, old(self).state, event).2);
        let wait = self.wait();
        Step { outputs, wait }
    }
}

} // verus!
