//! Agent-side behaviour: tick planning, the tick budget, the command-inlet
//! wait, startup emissions, and the active-application lookup.

use vros_steamvr::agent::{
    classify_property_read, command_wait_step, display_name_from_raw, encode_message_frame,
    initialization_failure,
    interpret_event, name_read_step, plan_tick, remaining_tick_budget, scene_application_key,
    scene_process_active, startup_emissions, CommandWaitEvent, EventDisposition, KeyLookupStatus,
    LookupError, NameReadStep, PlannedAction, PropertyReadResult, PropertyReadStatus,
    RuntimeEventKind, WaitDirective, NAME_READ_ATTEMPTS, TICK_PERIOD_NANOS,
};
use vros_steamvr::codec::{decode_from_agent, DecodeError};
use vros_steamvr::messages::{ApplicationName, FromAgent, InitializationError};
use vros_steamvr::text::u32_to_decimal;

#[test]
fn event_interpretation() {
    assert_eq!(
        interpret_event(RuntimeEventKind::SceneApplicationChanged),
        EventDisposition::RefreshApplicationName,
    );
    assert_eq!(interpret_event(RuntimeEventKind::EnterStandby), EventDisposition::Ignore);
    assert_eq!(interpret_event(RuntimeEventKind::LeaveStandby), EventDisposition::Ignore);
    assert_eq!(
        interpret_event(RuntimeEventKind::QuitRequested),
        EventDisposition::AcknowledgeQuitAndStop,
    );
    assert_eq!(interpret_event(RuntimeEventKind::Other), EventDisposition::Ignore);
}

#[test]
fn tick_drains_all_pending_events() {
    let pending = vec![
        RuntimeEventKind::Other,
        RuntimeEventKind::SceneApplicationChanged,
        RuntimeEventKind::EnterStandby,
        RuntimeEventKind::SceneApplicationChanged,
    ];
    let plan = plan_tick(&pending);
    assert_eq!(
        plan.actions,
        vec![PlannedAction::RefreshApplicationName, PlannedAction::RefreshApplicationName],
    );
    assert!(!plan.shutdown);
}

#[test]
fn quit_request_ends_the_tick_and_the_loop() {
    let pending = vec![
        RuntimeEventKind::SceneApplicationChanged,
        RuntimeEventKind::QuitRequested,
        // Events past the quit are not processed.
        RuntimeEventKind::SceneApplicationChanged,
    ];
    let plan = plan_tick(&pending);
    assert_eq!(
        plan.actions,
        vec![PlannedAction::RefreshApplicationName, PlannedAction::AcknowledgeQuit],
    );
    assert!(plan.shutdown);
}

#[test]
fn empty_tick_plans_nothing() {
    let plan = plan_tick(&Vec::new());
    assert!(plan.actions.is_empty());
    assert!(!plan.shutdown);
}

#[test]
fn tick_budget_is_clamped_and_bounded() {
    assert_eq!(TICK_PERIOD_NANOS, 1_000_000_000 / 120);
    assert_eq!(remaining_tick_budget(0), TICK_PERIOD_NANOS);
    assert_eq!(remaining_tick_budget(3_000_000), TICK_PERIOD_NANOS - 3_000_000);
    assert_eq!(remaining_tick_budget(TICK_PERIOD_NANOS), 0);
    assert_eq!(remaining_tick_budget(u64::MAX), 0);
}

#[test]
fn command_wait_decisions() {
    assert_eq!(command_wait_step(CommandWaitEvent::TimedOut), WaitDirective::NextTick);
    assert_eq!(command_wait_step(CommandWaitEvent::InletClosed), WaitDirective::ShutDown);
    assert_eq!(
        command_wait_step(CommandWaitEvent::CommandArrived(Err(DecodeError::UnknownTag))),
        WaitDirective::ShutDown,
    );
}

#[test]
fn startup_emissions_on_failure() {
    let err = InitializationError { name: String::from("VRInitError_Unknown"), code: 1 };
    let emitted = startup_emissions(Err(err.clone()), Err(LookupError::BufferNegotiation));
    assert_eq!(emitted, vec![FromAgent::InitializationError(err)]);
}

#[test]
fn startup_emissions_on_success() {
    let name = Some(ApplicationName { key: String::from("k"), name: String::from("N") });
    let emitted = startup_emissions(Ok(()), Ok(name.clone()));
    assert_eq!(
        emitted,
        vec![FromAgent::InitializationCompleted, FromAgent::ApplicationName(name)],
    );
    let emitted = startup_emissions(Ok(()), Ok(None));
    assert_eq!(
        emitted,
        vec![FromAgent::InitializationCompleted, FromAgent::ApplicationName(None)],
    );
}

#[test]
fn startup_emissions_skip_failed_first_lookup() {
    let emitted = startup_emissions(Ok(()), Err(LookupError::Runtime { code: 3 }));
    assert_eq!(emitted, vec![FromAgent::InitializationCompleted]);
}

#[test]
fn encoded_message_frame_decodes_back() {
    let m = FromAgent::ApplicationName(Some(ApplicationName {
        key: String::from("steam.app.438100"),
        name: String::from("VRChat"),
    }));
    let frame = encode_message_frame(&m).unwrap();
    let declared = u32::from_le_bytes([frame[0], frame[1], frame[2], frame[3]]) as usize;
    assert_eq!(declared, frame.len() - 4);
    assert_eq!(decode_from_agent(&frame[4..]), Ok(m));
}

#[test]
fn process_id_zero_means_no_application() {
    assert!(!scene_process_active(0));
    assert!(scene_process_active(1));
    assert!(scene_process_active(u32::MAX));
}

#[test]
fn key_is_read_up_to_the_first_nul() {
    let mut raw = [0u8; 128];
    raw[..16].copy_from_slice(b"steam.app.438100");
    // Stale bytes past the terminator are not part of the key.
    raw[20] = b'x';
    let key = scene_application_key(KeyLookupStatus::Success, &raw).unwrap();
    assert_eq!(key.as_deref(), Some("steam.app.438100"));
}

#[test]
fn key_without_terminator_uses_the_whole_buffer() {
    let raw = [b'a'; 8];
    let key = scene_application_key(KeyLookupStatus::Success, &raw).unwrap();
    assert_eq!(key.as_deref(), Some("aaaaaaaa"));
}

#[test]
fn invalid_key_bytes_are_replaced_not_fatal() {
    let raw = [0xFFu8, 0, 0, 0];
    let key = scene_application_key(KeyLookupStatus::Success, &raw).unwrap();
    assert_eq!(key.as_deref(), Some("\u{FFFD}"));
}

#[test]
fn key_lookup_maps_no_application_to_none() {
    let raw = [0u8; 4];
    assert_eq!(scene_application_key(KeyLookupStatus::NoApplication, &raw), Ok(None));
    assert_eq!(
        scene_application_key(KeyLookupStatus::Other(5), &raw),
        Err(LookupError::Runtime { code: 5 }),
    );
}

#[test]
fn property_read_classification() {
    assert_eq!(
        classify_property_read(PropertyReadStatus::Success, 11, 64),
        PropertyReadResult::Completed { len: 11 },
    );
    // A success whose reported length exceeds the buffer is a grow request.
    assert_eq!(
        classify_property_read(PropertyReadStatus::Success, 80, 64),
        PropertyReadResult::NeedLarger { required: 80 },
    );
    assert_eq!(
        classify_property_read(PropertyReadStatus::BufferTooSmall, 80, 64),
        PropertyReadResult::NeedLarger { required: 80 },
    );
    assert_eq!(
        classify_property_read(PropertyReadStatus::NoApplication, 0, 64),
        PropertyReadResult::NoneActive,
    );
    assert_eq!(
        classify_property_read(PropertyReadStatus::Other(9), 0, 64),
        PropertyReadResult::Failed { code: 9 },
    );
}

#[test]
fn name_read_retries_exactly_once() {
    assert_eq!(NAME_READ_ATTEMPTS, 2);
    assert_eq!(
        name_read_step(1, PropertyReadResult::NeedLarger { required: 200 }),
        NameReadStep::Retry { size: 200 },
    );
    // A runtime that keeps reporting "too small" does not loop the agent.
    assert_eq!(
        name_read_step(2, PropertyReadResult::NeedLarger { required: 400 }),
        NameReadStep::Abandon(LookupError::BufferNegotiation),
    );
    assert_eq!(
        name_read_step(1, PropertyReadResult::Completed { len: 7 }),
        NameReadStep::Finish { len: 7 },
    );
    assert_eq!(name_read_step(2, PropertyReadResult::NoneActive), NameReadStep::NoneActive);
    assert_eq!(
        name_read_step(1, PropertyReadResult::Failed { code: 4 }),
        NameReadStep::Abandon(LookupError::Runtime { code: 4 }),
    );
}

#[test]
fn display_name_drops_the_trailing_nul() {
    let mut buf = [0u8; 32];
    buf[..11].copy_from_slice(b"Beat Saber\0");
    assert_eq!(display_name_from_raw(&buf[..], 11), "Beat Saber");
}

#[test]
fn display_name_handles_degenerate_lengths() {
    let buf = *b"VRChat\0";
    // A reported length of zero yields an empty name, not a panic.
    assert_eq!(display_name_from_raw(&buf[..], 0), "");
    // A report longer than the buffer is clamped to what is there.
    assert_eq!(display_name_from_raw(&buf[..], 100), "VRChat");
}

#[test]
fn decimal_rendering_is_exact() {
    assert_eq!(u32_to_decimal(0), "0");
    assert_eq!(u32_to_decimal(9), "9");
    assert_eq!(u32_to_decimal(108), "108");
    assert_eq!(u32_to_decimal(4_294_967_295), "4294967295");
}

#[test]
fn initialization_error_message_holds_both_fields() {
    let e = InitializationError { name: String::from("VRInitError_Driver_Failed"), code: 205 };
    assert_eq!(e.message(), "VRInitError_Driver_Failed (205)");
}

#[test]
fn initialization_failure_keeps_the_runtime_symbol() {
    let e = initialization_failure(Some(String::from("VRInitError_Init_HmdNotFound")), 108);
    assert_eq!(e.name, "VRInitError_Init_HmdNotFound");
    assert_eq!(e.code, 108);
}

#[test]
fn initialization_failure_marks_a_missing_symbol() {
    let e = initialization_failure(None, 42);
    assert_eq!(e.name, "(null)");
    assert_eq!(e.code, 42);
}
