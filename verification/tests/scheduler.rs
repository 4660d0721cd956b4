use second_order_systems::scheduler::{
    frame_action, notification_action, validate, AnimatorError, InterpolationMode, NodeRole,
    TickAction, TickEvent,
};

#[test]
fn validation_reports_target_first() {
    assert_eq!(
        validate(false, false),
        Err(AnimatorError::NodeNotSpecified(NodeRole::Target))
    );
    assert_eq!(
        validate(false, true),
        Err(AnimatorError::NodeNotSpecified(NodeRole::Target))
    );
    assert_eq!(
        validate(true, false),
        Err(AnimatorError::NodeNotSpecified(NodeRole::Follower))
    );
    assert_eq!(validate(true, true), Ok(()));
}

#[test]
fn inactive_driver_idles() {
    let r = notification_action(
        false,
        false,
        false,
        InterpolationMode::Process,
        TickEvent::Process,
        true,
        true,
    );
    assert_eq!(r, Ok(TickAction::Idle));
}

#[test]
fn editor_needs_leave_to_run() {
    let idle = notification_action(
        true,
        true,
        false,
        InterpolationMode::Process,
        TickEvent::Process,
        true,
        true,
    );
    assert_eq!(idle, Ok(TickAction::Idle));
    let runs = notification_action(
        true,
        true,
        true,
        InterpolationMode::Process,
        TickEvent::Process,
        true,
        true,
    );
    assert_eq!(runs, Ok(TickAction::UpdateWithProcessDelta));
}

#[test]
fn matching_clock_updates() {
    let process = notification_action(
        true,
        false,
        false,
        InterpolationMode::Process,
        TickEvent::Process,
        true,
        true,
    );
    assert_eq!(process, Ok(TickAction::UpdateWithProcessDelta));
    let physics = notification_action(
        true,
        false,
        false,
        InterpolationMode::Physics,
        TickEvent::PhysicsProcess,
        true,
        true,
    );
    assert_eq!(physics, Ok(TickAction::UpdateWithPhysicsDelta));
}

#[test]
fn mismatched_clock_idles() {
    let r = notification_action(
        true,
        false,
        false,
        InterpolationMode::Physics,
        TickEvent::Process,
        true,
        true,
    );
    assert_eq!(r, Ok(TickAction::Idle));
    let r = notification_action(
        true,
        false,
        false,
        InterpolationMode::Process,
        TickEvent::PhysicsProcess,
        true,
        true,
    );
    assert_eq!(r, Ok(TickAction::Idle));
    let r = notification_action(
        true,
        false,
        false,
        InterpolationMode::Process,
        TickEvent::Other,
        true,
        true,
    );
    assert_eq!(r, Ok(TickAction::Idle));
}

#[test]
fn ready_initializes_in_either_mode() {
    for mode in [InterpolationMode::Process, InterpolationMode::Physics] {
        let r = notification_action(true, false, false, mode, TickEvent::Ready, true, true);
        assert_eq!(r, Ok(TickAction::Initialize));
    }
}

#[test]
fn missing_node_is_an_error_on_acted_ticks() {
    let r = notification_action(
        true,
        false,
        false,
        InterpolationMode::Process,
        TickEvent::Ready,
        false,
        true,
    );
    assert_eq!(r, Err(AnimatorError::NodeNotSpecified(NodeRole::Target)));
    let r = notification_action(
        true,
        false,
        false,
        InterpolationMode::Physics,
        TickEvent::PhysicsProcess,
        true,
        false,
    );
    assert_eq!(r, Err(AnimatorError::NodeNotSpecified(NodeRole::Follower)));
}

#[test]
fn frame_callback_decisions() {
    let r = frame_action(false, false, false, TickAction::UpdateWithProcessDelta, true, true);
    assert_eq!(r, Ok(TickAction::Idle));
    let r = frame_action(true, true, false, TickAction::UpdateWithProcessDelta, true, true);
    assert_eq!(r, Ok(TickAction::Idle));
    let r = frame_action(true, false, false, TickAction::UpdateWithProcessDelta, false, true);
    assert_eq!(r, Err(AnimatorError::NodeNotSpecified(NodeRole::Target)));
    let r = frame_action(true, false, false, TickAction::UpdateWithProcessDelta, true, true);
    assert_eq!(r, Ok(TickAction::UpdateWithProcessDelta));
    let r = frame_action(true, false, false, TickAction::UpdateWithPhysicsDelta, true, true);
    assert_eq!(r, Ok(TickAction::UpdateWithPhysicsDelta));
}
