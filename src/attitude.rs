//! Decisions of the attitude control loop: which setpoint kind is active,
//! which of the six axis controllers run in which order, and when their
//! integrators are reset. The controllers' arithmetic is done by the task that
//! owns them, following these decisions.

use vstd::prelude::*;

verus! {

/// The kind of a stabilization setpoint.
#[derive(Clone, Copy, Debug, PartialEq, Eq, Structural)]
pub enum ModeKind {
    /// An attitude-angle target: the cascade of angle and rate loops runs.
    Horizon,
    /// A body-rate target: the rate loop runs alone.
    Acro,
}

/// A setpoint vector tagged with its kind.
#[derive(Clone, Copy, Debug, PartialEq)]
pub enum StabilizationMode<V> {
    Horizon(V),
    Acro(V),
}

impl<V> StabilizationMode<V> {
    pub open spec fn spec_kind(&self) -> ModeKind {
        match self {
            StabilizationMode::Horizon(_) => ModeKind::Horizon,
            StabilizationMode::Acro(_) => ModeKind::Acro,
        }
    }

    pub open spec fn spec_setpoint(&self) -> V {
        match self {
            StabilizationMode::Horizon(v) => *v,
            StabilizationMode::Acro(v) => *v,
        }
    }

    /// Whether both setpoints are of the same kind, whatever their vectors.
    pub fn same_variant_as(&self, rhs: &StabilizationMode<V>) -> (r: bool)
        ensures
            r == (self.spec_kind() == rhs.spec_kind()),
    {
        self.variant() == rhs.variant()
    }

    fn variant(&self) -> (r: usize)
        ensures
            r == (if self.spec_kind() == ModeKind::Horizon { 0usize } else { 1usize }),
    {
        match self {
            StabilizationMode::Horizon(_) => 0,
            StabilizationMode::Acro(_) => 1,
        }
    }

    pub fn kind(&self) -> (r: ModeKind)
        ensures
            r == self.spec_kind(),
    {
        match self {
            StabilizationMode::Horizon(_) => ModeKind::Horizon,
            StabilizationMode::Acro(_) => ModeKind::Acro,
        }
    }

    pub fn setpoint(&self) -> (r: &V)
        ensures
            *r == self.spec_setpoint(),
    {
        match self {
            StabilizationMode::Horizon(v) => v,
            StabilizationMode::Acro(v) => v,
        }
    }
}

/// Takes the newest setpoint, if one arrived, in place of the current one.
/// Returns whether its kind differs from the kind held before, in which case
/// the controllers are to be treated as freshly entered.
pub fn refresh_mode<V>(current: &mut StabilizationMode<V>, incoming: Option<StabilizationMode<V>>) -> (switched: bool)
    ensures
        match incoming {
            Some(m) => *final(current) == m && switched == (m.spec_kind() != old(current).spec_kind()),
            None => *final(current) == *old(current) && !switched,
        },
{
    match incoming {
        Some(m) => {
            let switched = !m.same_variant_as(current);
            *current = m;
            switched
        },
        None => false,
    }
}

/// A body axis.
#[derive(Clone, Copy, Debug, PartialEq, Eq, Structural)]
pub enum Axis {
    Roll,
    Pitch,
    Yaw,
}

/// A stage of the cascade.
#[derive(Clone, Copy, Debug, PartialEq, Eq, Structural)]
pub enum Stage {
    /// The angle loop, whose output is a rate setpoint.
    Outer,
    /// The rate loop, whose output is the actuation.
    Inner,
}

/// One of the six axis controllers.
#[derive(Clone, Copy, Debug, PartialEq, Eq, Structural)]
pub struct ControllerId {
    pub stage: Stage,
    pub axis: Axis,
}

/// The three controllers of a stage, in axis order roll, pitch, yaw.
pub open spec fn stage_controllers(stage: Stage) -> Seq<ControllerId> {
    seq![
        ControllerId { stage: stage, axis: Axis::Roll },
        ControllerId { stage: stage, axis: Axis::Pitch },
        ControllerId { stage: stage, axis: Axis::Yaw },
    ]
}

/// The controllers that run in one cycle, in order.
pub open spec fn spec_update_order(kind: ModeKind) -> Seq<ControllerId> {
    match kind {
        ModeKind::Horizon => stage_controllers(Stage::Outer) + stage_controllers(Stage::Inner),
        ModeKind::Acro => stage_controllers(Stage::Inner),
    }
}

/// All six controllers.
pub open spec fn all_controllers() -> Seq<ControllerId> {
    stage_controllers(Stage::Outer) + stage_controllers(Stage::Inner)
}

fn push_stage(v: &mut Vec<ControllerId>, stage: Stage)
    ensures
        final(v)@ == old(v)@ + stage_controllers(stage),
{
    v.push(ControllerId { stage, axis: Axis::Roll });
    v.push(ControllerId { stage, axis: Axis::Pitch });
    v.push(ControllerId { stage, axis: Axis::Yaw });
    assert(final(v)@ =~= old(v)@ + stage_controllers(stage));
}

/// The controllers that run in a cycle of this kind, in order: in Horizon the
/// angle loop of each axis and then the rate loop of each axis, fed with the
/// angle loop's output; in Acro the rate loop of each axis alone.
pub fn update_order(kind: ModeKind) -> (r: Vec<ControllerId>)
    ensures
        r@ == spec_update_order(kind),
{
    let mut r: Vec<ControllerId> = Vec::new();
    if kind == ModeKind::Horizon {
        push_stage(&mut r, Stage::Outer);
    }
    push_stage(&mut r, Stage::Inner);
    assert(r@ =~= spec_update_order(kind));
    r
}

/// The controllers whose integral term is zeroed, given the reset signal
/// read this cycle: all six on a pending `true`, none otherwise.
pub fn integrator_resets(signal: Option<bool>) -> (r: Vec<ControllerId>)
    ensures
        signal == Some(true) ==> r@ == all_controllers(),
        signal != Some(true) ==> r@ == Seq::<ControllerId>::empty(),
{
    let mut r: Vec<ControllerId> = Vec::new();
    if let Some(true) = signal {
        push_stage(&mut r, Stage::Outer);
        push_stage(&mut r, Stage::Inner);
        assert(r@ =~= all_controllers());
    } else {
        assert(r@ =~= Seq::<ControllerId>::empty());
    }
    r
}

/// Whether the controller's error wraps around on the ring `[-pi, pi]`
/// rather than being a plain difference: true of the yaw axis.
pub fn is_circular(axis: Axis) -> (r: bool)
    ensures
        r == (axis == Axis::Yaw),
{
    match axis {
        Axis::Yaw => true,
        _ => false,
    }
}

/// A reset reaches every one of the six controllers, each once, in one step.
pub proof fn lemma_reset_is_complete()
    ensures
        all_controllers().len() == 6,
        forall|id: ControllerId| all_controllers().contains(id),
        forall|i: int, j: int| 0 <= i < j < 6 ==> all_controllers()[i] != all_controllers()[j],
{
    assert forall|id: ControllerId| all_controllers().contains(id) by {
        let i: int = (if id.stage == Stage::Outer { 0int } else { 3int }) + match id.axis {
            Axis::Roll => 0int,
            Axis::Pitch => 1int,
            Axis::Yaw => 2int,
        };
        assert(all_controllers()[i] == id);
    }
}

/// The same setpoint vector under the two kinds runs different code: Horizon
/// runs the angle loop before the rate loop, Acro runs the rate loop alone.
pub proof fn lemma_kinds_take_distinct_paths<V>(v: V)
    ensures
        StabilizationMode::Horizon(v).spec_kind() != StabilizationMode::Acro(v).spec_kind(),
        spec_update_order(StabilizationMode::Horizon(v).spec_kind()) != spec_update_order(
            StabilizationMode::Acro(v).spec_kind(),
        ),
        exists|i: int| 0 <= i < spec_update_order(ModeKind::Horizon).len()
            && (#[trigger] spec_update_order(ModeKind::Horizon)[i]).stage == Stage::Outer,
        forall|i: int| 0 <= i < spec_update_order(ModeKind::Acro).len()
            ==> (#[trigger] spec_update_order(ModeKind::Acro)[i]).stage == Stage::Inner,
{
    assert(spec_update_order(ModeKind::Horizon).len() == 6);
    assert(spec_update_order(ModeKind::Acro).len() == 3);
    assert(spec_update_order(ModeKind::Horizon)[0].stage == Stage::Outer);
}

} // verus!
