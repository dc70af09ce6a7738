//! Host supervisor decisions: the initialization handshake and the
//! steady-state republishing loop. The surrounding process owns the child,
//! the pipes and the scheduler; it reports what happened — a decoded
//! message, a decode failure, end of stream, or the child exiting — and
//! these functions decide what follows. Events are forwarded in exactly the
//! order they arrive; a repeated handshake message or a decode failure ends
//! the session; end of stream is a clean shutdown.

use vstd::prelude::*;
use crate::codec::{decode_from_agent, spec_decode_from_agent, DecodeError};
use crate::framing::{after_first_frame, first_frame, has_complete_frame, stream_oversized,
    FrameDecoder, FramePoll};
use crate::messages::{ApplicationName, FromAgent, FromAgentView};

verus! {

/// Why a supervised session could not start or continue.
#[derive(Debug, Clone, PartialEq, Eq)]
pub enum SupervisorError {
    /// The agent executable could not be launched.
    SpawnFailed,
    /// The child process exited before completing the handshake.
    AgentExited,
    /// The agent reported that the external runtime refused to start.
    InitializationFailed(crate::messages::InitializationError),
    /// The two sides desynchronized: an unexpected handshake message, an
    /// unexpected end of stream, or an undecodable first frame.
    ProtocolViolation,
    /// The transport or the decoder failed mid-session.
    AgentFailed(DecodeError),
}

impl SupervisorError {
    /// The diagnostic line for this failure.
    pub fn message(&self) -> (r: String)
        ensures
            match self {
                SupervisorError::SpawnFailed => r@ == "Agent start failed"@,
                SupervisorError::AgentExited => r@ == "Agent exited unexpectedly"@,
                SupervisorError::InitializationFailed(e) => r@ == "Initialization error: "@ + (
                e.name@ + " ("@ + crate::text::spec_decimal(e.code as nat) + ")"@),
                SupervisorError::ProtocolViolation => r@ == "Agent protocol error"@,
                SupervisorError::AgentFailed(e) => r@ == "Agent failed: "@
                    + crate::text::spec_decode_error_text(*e),
            },
    {
        match self {
            SupervisorError::SpawnFailed => String::from_str("Agent start failed"),
            SupervisorError::AgentExited => String::from_str("Agent exited unexpectedly"),
            SupervisorError::InitializationFailed(e) => {
                let mut s = String::from_str("Initialization error: ");
                let detail = e.message();
                s.append(detail.as_str());
                s
            },
            SupervisorError::ProtocolViolation => String::from_str("Agent protocol error"),
            SupervisorError::AgentFailed(e) => {
                let mut s = String::from_str("Agent failed: ");
                let detail = e.message();
                s.append(detail.as_str());
                s
            },
        }
    }
}

/// What the host observed while waiting for the handshake to resolve.
pub enum HandshakeEvent {
    /// A frame arrived and decoded to this message.
    MessageDecoded(FromAgent),
    /// A frame arrived but did not decode.
    DecodeFailed(DecodeError),
    /// The agent closed its output before resolving the handshake.
    EndOfStream,
    /// The child process exited before resolving the handshake.
    ChildExited,
}

/// What the host must do next with a handshake observation.
pub enum HandshakeStep {
    /// An application-name event arrived before the handshake resolved:
    /// forward it to the sink and keep waiting.
    Forward(Option<ApplicationName>),
    /// The handshake succeeded; enter the steady state.
    Ready,
    /// The handshake failed with this diagnostic.
    Failed(SupervisorError),
}

/// Resolves one handshake observation: `InitializationCompleted` succeeds,
/// `InitializationError` carries its diagnostic out, an early application
/// name is forwarded, the child exiting is reported as such, and anything
/// else is a protocol violation.
pub fn handshake_step(ev: HandshakeEvent) -> (r: HandshakeStep)
    ensures
        match ev {
            HandshakeEvent::MessageDecoded(m) => match m {
                FromAgent::InitializationCompleted => r == HandshakeStep::Ready,
                FromAgent::InitializationError(e) => r == HandshakeStep::Failed(
                    SupervisorError::InitializationFailed(e),
                ),
                FromAgent::ApplicationName(n) => r == HandshakeStep::Forward(n),
            },
            HandshakeEvent::DecodeFailed(_) => r == HandshakeStep::Failed(
                SupervisorError::ProtocolViolation,
            ),
            HandshakeEvent::EndOfStream => r == HandshakeStep::Failed(
                SupervisorError::ProtocolViolation,
            ),
            HandshakeEvent::ChildExited => r == HandshakeStep::Failed(
                SupervisorError::AgentExited,
            ),
        },
{
    match ev {
        HandshakeEvent::MessageDecoded(m) => match m {
            FromAgent::InitializationCompleted => HandshakeStep::Ready,
            FromAgent::InitializationError(e) => HandshakeStep::Failed(
                SupervisorError::InitializationFailed(e),
            ),
            FromAgent::ApplicationName(n) => HandshakeStep::Forward(n),
        },
        HandshakeEvent::DecodeFailed(_) => HandshakeStep::Failed(
            SupervisorError::ProtocolViolation,
        ),
        HandshakeEvent::EndOfStream => HandshakeStep::Failed(SupervisorError::ProtocolViolation),
        HandshakeEvent::ChildExited => HandshakeStep::Failed(SupervisorError::AgentExited),
    }
}

/// What the host observed in the steady state.
pub enum SessionEvent {
    /// A frame arrived and decoded to this message.
    MessageDecoded(FromAgent),
    /// A frame arrived but did not decode, or the stream broke mid-frame.
    DecodeFailed(DecodeError),
    /// The agent closed its output at a frame boundary.
    EndOfStream,
}

/// How a steady-state session ended.
#[derive(Debug, Clone, Copy, PartialEq, Eq)]
pub enum SessionEnd {
    /// The peer closed the stream cleanly.
    PeerClosed,
    /// A handshake message arrived again after the handshake.
    ProtocolViolation,
    /// The transport or the decoder failed.
    AgentFailed(DecodeError),
}

/// What the host must do next with a steady-state observation.
pub enum SessionStep {
    /// Republish this application-name update to the external sink.
    Publish(Option<ApplicationName>),
    /// Stop the session for this reason.
    Stop(SessionEnd),
}

/// Resolves one steady-state observation: application names are republished
/// in arrival order; a repeated handshake message is a protocol violation; a
/// decode failure is an agent failure; end of stream is a clean stop.
pub fn session_step(ev: SessionEvent) -> (r: SessionStep)
    ensures
        match ev {
            SessionEvent::MessageDecoded(m) => match m {
                FromAgent::ApplicationName(n) => r == SessionStep::Publish(n),
                FromAgent::InitializationCompleted => r == SessionStep::Stop(
                    SessionEnd::ProtocolViolation,
                ),
                FromAgent::InitializationError(_) => r == SessionStep::Stop(
                    SessionEnd::ProtocolViolation,
                ),
            },
            SessionEvent::DecodeFailed(e) => r == SessionStep::Stop(SessionEnd::AgentFailed(e)),
            SessionEvent::EndOfStream => r == SessionStep::Stop(SessionEnd::PeerClosed),
        },
{
    match ev {
        SessionEvent::MessageDecoded(m) => match m {
            FromAgent::ApplicationName(n) => SessionStep::Publish(n),
            FromAgent::InitializationCompleted => SessionStep::Stop(SessionEnd::ProtocolViolation),
            FromAgent::InitializationError(_) => SessionStep::Stop(SessionEnd::ProtocolViolation),
        },
        SessionEvent::DecodeFailed(e) => SessionStep::Stop(SessionEnd::AgentFailed(e)),
        SessionEvent::EndOfStream => SessionStep::Stop(SessionEnd::PeerClosed),
    }
}

/// The application-name updates a steady-state session publishes for the
/// given observations: those of every message before the first terminating
/// observation, in arrival order.
pub open spec fn spec_session_publishes(events: Seq<SessionEvent>) -> Seq<Option<ApplicationName>>
    decreases events.len(),
{
    if events.len() == 0 {
        Seq::empty()
    } else {
        match events[0] {
            SessionEvent::MessageDecoded(m) => match m {
                FromAgent::ApplicationName(n) => seq![n]
                    + spec_session_publishes(events.skip(1)),
                _ => Seq::empty(),
            },
            _ => Seq::empty(),
        }
    }
}

/// How a steady-state session ends for the given observations, or `None`
/// if they run out with the session still live.
pub open spec fn spec_session_end(events: Seq<SessionEvent>) -> Option<SessionEnd>
    decreases events.len(),
{
    if events.len() == 0 {
        None
    } else {
        match events[0] {
            SessionEvent::MessageDecoded(m) => match m {
                FromAgent::ApplicationName(_) => spec_session_end(events.skip(1)),
                _ => Some(SessionEnd::ProtocolViolation),
            },
            SessionEvent::DecodeFailed(e) => Some(SessionEnd::AgentFailed(e)),
            SessionEvent::EndOfStream => Some(SessionEnd::PeerClosed),
        }
    }
}

/// Everything a steady-state session did with a run of observations.
pub struct SessionLog {
    /// The updates republished to the sink, in arrival order.
    pub published: Vec<Option<ApplicationName>>,
    /// Why the session stopped, or `None` if the observations ran out.
    pub end: Option<SessionEnd>,
}

/// Runs the steady-state loop over a whole run of observations. The sink
/// observes exactly the application-name payloads that preceded the first
/// terminating observation, in exactly their arrival order.
pub fn process_incoming(events: Vec<SessionEvent>) -> (r: SessionLog)
    ensures
        r.published@ == spec_session_publishes(events@),
        r.end == spec_session_end(events@),
{
    let ghost all = events@;
    let mut remaining = events;
    let mut published: Vec<Option<ApplicationName>> = Vec::new();
    proof {
        assert(Seq::<Option<ApplicationName>>::empty() + spec_session_publishes(all)
            =~= spec_session_publishes(all));
    }
    loop
        invariant
            all == events@,
            spec_session_publishes(all) == published@ + spec_session_publishes(remaining@),
            spec_session_end(all) == spec_session_end(remaining@),
        decreases remaining@.len(),
    {
        if remaining.len() == 0 {
            assert(published@ + spec_session_publishes(remaining@) =~= published@);
            return SessionLog { published, end: None };
        }
        let ghost before = remaining@;
        let ghost done = published@;
        let ev = remaining.remove(0);
        let ghost gev = ev;
        assert(before.remove(0) =~= before.skip(1));
        match session_step(ev) {
            SessionStep::Publish(n) => {
                proof {
                    assert(gev == SessionEvent::MessageDecoded(FromAgent::ApplicationName(n)));
                    assert(spec_session_publishes(before) == seq![n]
                        + spec_session_publishes(before.skip(1)));
                    assert(spec_session_end(before) == spec_session_end(before.skip(1)));
                }
                published.push(n);
                proof {
                    assert(published@ =~= done.push(n));
                    assert(done + (seq![n] + spec_session_publishes(remaining@))
                        =~= done.push(n) + spec_session_publishes(remaining@));
                }
            },
            SessionStep::Stop(end) => {
                proof {
                    assert(spec_session_publishes(before)
                        == Seq::<Option<ApplicationName>>::empty());
                    assert(spec_session_end(before) == Some(end));
                    assert(published@ + Seq::<Option<ApplicationName>>::empty() =~= published@);
                }
                return SessionLog { published, end: Some(end) };
            },
        }
    }
}

/// Drives the frame decoder one step and classifies what came out: a decoded
/// message, a body that would not decode, an oversize declaration (reported
/// as a decode failure, since the stream is desynchronized), or nothing yet.
pub fn next_session_event(d: &mut FrameDecoder) -> (r: Option<SessionEvent>)
    requires
        old(d).wf(),
    ensures
        final(d).wf(),
        final(d).fed() == old(d).fed(),
        match r {
            None => {
                &&& *final(d) == *old(d)
                &&& !old(d).poisoned()
                &&& !has_complete_frame(old(d).pending_bytes())
                &&& !stream_oversized(old(d).pending_bytes())
            },
            Some(ev) => match ev {
                SessionEvent::MessageDecoded(m) => {
                    &&& !old(d).poisoned()
                    &&& has_complete_frame(old(d).pending_bytes())
                    &&& spec_decode_from_agent(first_frame(old(d).pending_bytes()))
                        == Ok::<FromAgentView, DecodeError>(m@)
                    &&& final(d).pending_bytes() == after_first_frame(old(d).pending_bytes())
                    &&& final(d).delivered() == old(d).delivered().push(
                        first_frame(old(d).pending_bytes()),
                    )
                },
                SessionEvent::DecodeFailed(e) => {
                    ||| {
                        &&& e == DecodeError::OversizedFrame
                        &&& (old(d).poisoned() || stream_oversized(old(d).pending_bytes()))
                        &&& final(d).delivered() == old(d).delivered()
                        &&& final(d).pending_bytes() == old(d).pending_bytes()
                    }
                    ||| {
                        &&& !old(d).poisoned()
                        &&& has_complete_frame(old(d).pending_bytes())
                        &&& spec_decode_from_agent(first_frame(old(d).pending_bytes()))
                            == Err::<FromAgentView, DecodeError>(e)
                        &&& final(d).pending_bytes() == after_first_frame(old(d).pending_bytes())
                    }
                },
                SessionEvent::EndOfStream => false,
            },
        },
{
    match d.poll() {
        FramePoll::NeedMoreBytes => None,
        FramePoll::Oversized => Some(SessionEvent::DecodeFailed(DecodeError::OversizedFrame)),
        FramePoll::Frame(body) => match decode_from_agent(body.as_slice()) {
            Ok(m) => Some(SessionEvent::MessageDecoded(m)),
            Err(e) => Some(SessionEvent::DecodeFailed(e)),
        },
    }
}

/// The whole wire, both layers: framing any constructible, admissible
/// message and then deframing and decoding the bytes yields exactly that
/// message — what the agent sends is what the host's sink observes.
pub proof fn lemma_wire_round_trip(m: FromAgentView)
    requires
        crate::codec::from_agent_representable(m),
        crate::framing::frame_admissible(crate::codec::spec_encode_from_agent(m)),
    ensures
        ({
            let wire = crate::framing::spec_frame(crate::codec::spec_encode_from_agent(m));
            &&& crate::framing::frames_of(wire) == seq![crate::codec::spec_encode_from_agent(m)]
            &&& spec_decode_from_agent(crate::framing::frames_of(wire)[0])
                == Ok::<FromAgentView, DecodeError>(m)
        }),
{
    crate::framing::lemma_frame_round_trip(crate::codec::spec_encode_from_agent(m));
    crate::codec::lemma_from_agent_round_trip(m);
}

/// Classifies end of stream for the steady state: clean at a frame
/// boundary or before a length prefix completed, a transport fault
/// mid-frame or after an oversize declaration.
pub fn end_of_stream_event(d: &FrameDecoder) -> (r: SessionEvent)
    requires
        d.wf(),
    ensures
        d.pending_bytes().len() < 4 && !d.poisoned() ==> r == SessionEvent::EndOfStream,
        d.pending_bytes().len() >= 4 || d.poisoned() ==> r == SessionEvent::DecodeFailed(
            DecodeError::Truncated,
        ),
{
    if d.end_is_clean() {
        SessionEvent::EndOfStream
    } else {
        SessionEvent::DecodeFailed(DecodeError::Truncated)
    }
}

} // verus!
