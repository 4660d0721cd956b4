//! The decisions of the per-tick driver around a filter, separated from the
//! engine callbacks that carry them out: which node reference is missing,
//! whether a tick runs at all (the driver can be inactive, or sitting in an
//! editor without leave to run there), and which action a notification asks
//! for. The surrounding layer performs the chosen action - reading the
//! target, stepping the filter with the active clock's delta, writing the
//! output back - and owns every call into the scene graph.

use vstd::prelude::*;

verus! {

/// Which clock drives the filter: the variable-step frame tick or the
/// fixed-step physics tick.
#[derive(Clone, Copy, Debug, PartialEq, Eq, Structural)]
pub enum InterpolationMode {
    Process,
    Physics,
}

/// The node references a driver needs before it can tick.
#[derive(Clone, Copy, Debug, PartialEq, Eq, Structural)]
pub enum NodeRole {
    Target,
    Follower,
}

/// A required node reference is not set.
#[derive(Clone, Copy, Debug, PartialEq, Eq, Structural)]
pub enum AnimatorError {
    NodeNotSpecified(NodeRole),
}

/// The notifications a driver reacts to.
#[derive(Clone, Copy, Debug, PartialEq, Eq, Structural)]
pub enum TickEvent {
    Process,
    PhysicsProcess,
    Ready,
    Other,
}

/// What a notification asks the surrounding layer to do.
#[derive(Clone, Copy, Debug, PartialEq, Eq, Structural)]
pub enum TickAction {
    Idle,
    UpdateWithProcessDelta,
    UpdateWithPhysicsDelta,
    Initialize,
}

/// The validation result: the first missing node reference, target checked
/// before follower, or nothing.
pub open spec fn validate_value(target_set: bool, follower_set: bool) -> Result<(), AnimatorError> {
    if !target_set {
        Err(AnimatorError::NodeNotSpecified(NodeRole::Target))
    } else if !follower_set {
        Err(AnimatorError::NodeNotSpecified(NodeRole::Follower))
    } else {
        Ok(())
    }
}

/// Checks that both node references are set, reporting the target first.
pub fn validate(target_set: bool, follower_set: bool) -> (r: Result<(), AnimatorError>)
    ensures
        r == validate_value(target_set, follower_set),
{
    if !target_set {
        Err(AnimatorError::NodeNotSpecified(NodeRole::Target))
    } else if !follower_set {
        Err(AnimatorError::NodeNotSpecified(NodeRole::Follower))
    } else {
        Ok(())
    }
}

/// Whether a tick runs at all: the driver must be active, and in an editor it
/// must have leave to run there.
pub open spec fn tick_enabled(active: bool, editor_hint: bool, run_in_editor: bool) -> bool {
    active && !(editor_hint && !run_in_editor)
}

/// The action a notification asks for.
pub open spec fn notification_action_value(
    active: bool,
    editor_hint: bool,
    run_in_editor: bool,
    mode: InterpolationMode,
    event: TickEvent,
    target_set: bool,
    follower_set: bool,
) -> Result<TickAction, AnimatorError> {
    if !tick_enabled(active, editor_hint, run_in_editor) {
        Ok(TickAction::Idle)
    } else if event == TickEvent::Process && mode == InterpolationMode::Process {
        match validate_value(target_set, follower_set) {
            Ok(u) => Ok(TickAction::UpdateWithProcessDelta),
            Err(e) => Err(e),
        }
    } else if event == TickEvent::PhysicsProcess && mode == InterpolationMode::Physics {
        match validate_value(target_set, follower_set) {
            Ok(u) => Ok(TickAction::UpdateWithPhysicsDelta),
            Err(e) => Err(e),
        }
    } else if event == TickEvent::Ready {
        match validate_value(target_set, follower_set) {
            Ok(u) => Ok(TickAction::Initialize),
            Err(e) => Err(e),
        }
    } else {
        Ok(TickAction::Idle)
    }
}

/// Decides what a notification asks the surrounding layer to do: nothing when
/// ticking is disabled or the notification does not match the chosen clock;
/// an update with the matching clock's delta on that clock's tick; seeding
/// the filter when the node becomes ready; and the validation error when a
/// node reference is missing on an acted-upon notification.
pub fn notification_action(
    active: bool,
    editor_hint: bool,
    run_in_editor: bool,
    mode: InterpolationMode,
    event: TickEvent,
    target_set: bool,
    follower_set: bool,
) -> (r: Result<TickAction, AnimatorError>)
    ensures
        r == notification_action_value(
            active,
            editor_hint,
            run_in_editor,
            mode,
            event,
            target_set,
            follower_set,
        ),
{
    if !active || (editor_hint && !run_in_editor) {
        return Ok(TickAction::Idle);
    }
    match (event, mode) {
        (TickEvent::Process, InterpolationMode::Process) => {
            match validate(target_set, follower_set) {
                Ok(u) => Ok(TickAction::UpdateWithProcessDelta),
                Err(e) => Err(e),
            }
        },
        (TickEvent::PhysicsProcess, InterpolationMode::Physics) => {
            match validate(target_set, follower_set) {
                Ok(u) => Ok(TickAction::UpdateWithPhysicsDelta),
                Err(e) => Err(e),
            }
        },
        (TickEvent::Ready, _) => {
            match validate(target_set, follower_set) {
                Ok(u) => Ok(TickAction::Initialize),
                Err(e) => Err(e),
            }
        },
        _ => Ok(TickAction::Idle),
    }
}

/// The decision of a direct frame callback (used when the driver is wired to
/// a single clock without notifications): idle when ticking is disabled, the
/// validation error when a node reference is missing, otherwise an update.
pub open spec fn frame_action_value(
    active: bool,
    editor_hint: bool,
    run_in_editor: bool,
    update: TickAction,
    target_set: bool,
    follower_set: bool,
) -> Result<TickAction, AnimatorError> {
    if !tick_enabled(active, editor_hint, run_in_editor) {
        Ok(TickAction::Idle)
    } else {
        match validate_value(target_set, follower_set) {
            Ok(u) => Ok(update),
            Err(e) => Err(e),
        }
    }
}

/// Decides what a direct frame callback does, with `update` naming the action
/// taken when the tick goes ahead.
pub fn frame_action(
    active: bool,
    editor_hint: bool,
    run_in_editor: bool,
    update: TickAction,
    target_set: bool,
    follower_set: bool,
) -> (r: Result<TickAction, AnimatorError>)
    ensures
        r == frame_action_value(
            active,
            editor_hint,
            run_in_editor,
            update,
            target_set,
            follower_set,
        ),
{
    if !active || (editor_hint && !run_in_editor) {
        return Ok(TickAction::Idle);
    }
    match validate(target_set, follower_set) {
        Ok(u) => Ok(update),
        Err(e) => Err(e),
    }
}

} // verus!
