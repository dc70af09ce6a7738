//! Host supervisor behaviour: the handshake race, error passthrough, and
//! the steady-state republishing order.

use vros_steamvr::codec::{encode_from_agent, DecodeError};
use vros_steamvr::framing::{encode_frame, FrameDecoder, MAX_FRAME_LEN};
use vros_steamvr::messages::{ApplicationName, FromAgent, InitializationError};
use vros_steamvr::supervisor::{
    end_of_stream_event, handshake_step, next_session_event, process_incoming, session_step,
    HandshakeEvent, HandshakeStep, SessionEnd, SessionEvent, SessionStep, SupervisorError,
};

fn some_name(key: &str, name: &str) -> Option<ApplicationName> {
    Some(ApplicationName { key: String::from(key), name: String::from(name) })
}

#[test]
fn handshake_succeeds_on_completion() {
    let step = handshake_step(HandshakeEvent::MessageDecoded(FromAgent::InitializationCompleted));
    assert!(matches!(step, HandshakeStep::Ready));
}

#[test]
fn handshake_fails_when_child_exits_first() {
    let step = handshake_step(HandshakeEvent::ChildExited);
    match step {
        HandshakeStep::Failed(e) => {
            assert_eq!(e, SupervisorError::AgentExited);
            assert_eq!(e.message(), "Agent exited unexpectedly");
        },
        _ => panic!("child exit must fail the handshake"),
    }
}

#[test]
fn handshake_passes_initialization_error_through() {
    let err = InitializationError {
        name: String::from("VRInitError_Init_HmdNotFound"),
        code: 108,
    };
    let step = handshake_step(HandshakeEvent::MessageDecoded(FromAgent::InitializationError(
        err.clone(),
    )));
    match step {
        HandshakeStep::Failed(SupervisorError::InitializationFailed(e)) => {
            assert_eq!(e, err);
            let diagnostic = e.message();
            assert!(diagnostic.contains("VRInitError_Init_HmdNotFound"));
            assert!(diagnostic.contains("108"));
            assert_eq!(diagnostic, "VRInitError_Init_HmdNotFound (108)");
        },
        _ => panic!("initialization error must carry its diagnostic out"),
    }
}

#[test]
fn handshake_forwards_early_application_name() {
    let step = handshake_step(HandshakeEvent::MessageDecoded(FromAgent::ApplicationName(
        some_name("a", "A"),
    )));
    match step {
        HandshakeStep::Forward(n) => assert_eq!(n, some_name("a", "A")),
        _ => panic!("an early application name is forwarded, not fatal"),
    }
}

#[test]
fn handshake_treats_garbage_as_protocol_violation() {
    let step = handshake_step(HandshakeEvent::DecodeFailed(DecodeError::UnknownTag));
    assert!(matches!(step, HandshakeStep::Failed(SupervisorError::ProtocolViolation)));
    let step = handshake_step(HandshakeEvent::EndOfStream);
    assert!(matches!(step, HandshakeStep::Failed(SupervisorError::ProtocolViolation)));
}

#[test]
fn session_step_maps_each_observation() {
    match session_step(SessionEvent::MessageDecoded(FromAgent::ApplicationName(None))) {
        SessionStep::Publish(n) => assert_eq!(n, None),
        _ => panic!("an application name is published"),
    }
    assert!(matches!(
        session_step(SessionEvent::MessageDecoded(FromAgent::InitializationCompleted)),
        SessionStep::Stop(SessionEnd::ProtocolViolation),
    ));
    assert!(matches!(
        session_step(SessionEvent::DecodeFailed(DecodeError::Truncated)),
        SessionStep::Stop(SessionEnd::AgentFailed(DecodeError::Truncated)),
    ));
    assert!(matches!(
        session_step(SessionEvent::EndOfStream),
        SessionStep::Stop(SessionEnd::PeerClosed),
    ));
}

#[test]
fn sink_observes_updates_in_emission_order() {
    let events = vec![
        SessionEvent::MessageDecoded(FromAgent::ApplicationName(some_name("a", "A"))),
        SessionEvent::MessageDecoded(FromAgent::ApplicationName(None)),
        SessionEvent::MessageDecoded(FromAgent::ApplicationName(some_name("b", "B"))),
    ];
    let log = process_incoming(events);
    assert_eq!(
        log.published,
        vec![some_name("a", "A"), None, some_name("b", "B")],
    );
    assert_eq!(log.end, None);
}

#[test]
fn session_stops_cleanly_at_end_of_stream() {
    let events = vec![
        SessionEvent::MessageDecoded(FromAgent::ApplicationName(some_name("a", "A"))),
        SessionEvent::EndOfStream,
        // Nothing after the stop is looked at.
        SessionEvent::MessageDecoded(FromAgent::ApplicationName(None)),
    ];
    let log = process_incoming(events);
    assert_eq!(log.published, vec![some_name("a", "A")]);
    assert_eq!(log.end, Some(SessionEnd::PeerClosed));
}

#[test]
fn repeated_handshake_message_is_fatal() {
    let events = vec![
        SessionEvent::MessageDecoded(FromAgent::ApplicationName(None)),
        SessionEvent::MessageDecoded(FromAgent::InitializationCompleted),
        SessionEvent::MessageDecoded(FromAgent::ApplicationName(some_name("b", "B"))),
    ];
    let log = process_incoming(events);
    assert_eq!(log.published, vec![None]);
    assert_eq!(log.end, Some(SessionEnd::ProtocolViolation));
}

#[test]
fn decode_failure_ends_the_session() {
    let events = vec![SessionEvent::DecodeFailed(DecodeError::MalformedString)];
    let log = process_incoming(events);
    assert!(log.published.is_empty());
    assert_eq!(log.end, Some(SessionEnd::AgentFailed(DecodeError::MalformedString)));
    let diagnostic = SupervisorError::AgentFailed(DecodeError::MalformedString).message();
    assert_eq!(diagnostic, "Agent failed: malformed string");
}

#[test]
fn next_session_event_decodes_arriving_frames() {
    let mut d = FrameDecoder::new();
    assert!(next_session_event(&mut d).is_none());

    let msg = FromAgent::ApplicationName(some_name("k", "N"));
    let frame = encode_frame(encode_from_agent(&msg).as_slice()).unwrap();
    d.feed(frame.as_slice());
    match next_session_event(&mut d) {
        Some(SessionEvent::MessageDecoded(m)) => assert_eq!(m, msg),
        _ => panic!("a complete frame decodes to its message"),
    }
    assert!(next_session_event(&mut d).is_none());
}

#[test]
fn next_session_event_reports_undecodable_frame() {
    let mut d = FrameDecoder::new();
    let frame = encode_frame(&[99]).unwrap();
    d.feed(frame.as_slice());
    match next_session_event(&mut d) {
        Some(SessionEvent::DecodeFailed(e)) => assert_eq!(e, DecodeError::UnknownTag),
        _ => panic!("an undecodable body is a decode failure"),
    }
}

#[test]
fn next_session_event_reports_oversize_as_decode_failure() {
    let mut d = FrameDecoder::new();
    d.feed(&(MAX_FRAME_LEN + 1).to_le_bytes());
    match next_session_event(&mut d) {
        Some(SessionEvent::DecodeFailed(e)) => assert_eq!(e, DecodeError::OversizedFrame),
        _ => panic!("an oversize declaration is fatal"),
    }
}

#[test]
fn end_of_stream_event_classification() {
    let clean = FrameDecoder::new();
    assert!(matches!(end_of_stream_event(&clean), SessionEvent::EndOfStream));

    let mut mid_frame = FrameDecoder::new();
    mid_frame.feed(&[9, 0, 0, 0, 1, 2]);
    assert!(matches!(
        end_of_stream_event(&mid_frame),
        SessionEvent::DecodeFailed(DecodeError::Truncated),
    ));
}

#[test]
fn supervisor_messages_are_fixed_lines() {
    assert_eq!(SupervisorError::SpawnFailed.message(), "Agent start failed");
    assert_eq!(SupervisorError::ProtocolViolation.message(), "Agent protocol error");
    assert_eq!(
        SupervisorError::AgentFailed(DecodeError::OversizedFrame).message(),
        "Agent failed: oversized frame",
    );
}
