//! Agent-side logic: the state machine `Initializing -> Running ->
//! ShuttingDown`, the per-tick event drain plan, the tick budget, the
//! command-inlet wait decisions, and the active-application lookup — the
//! process-id test, the key and display-name buffer handling, and the
//! bounded grow-and-retry negotiation of the name buffer. The surrounding
//! process owns the runtime session, the clock and the pipes; it reports
//! what the runtime said and performs what these functions decide.

use vstd::prelude::*;
use vstd::slice::{slice_index_get, slice_subrange};
use vstd::utf8::{decode_utf8, valid_utf8};
use crate::codec::{encode_from_agent, spec_encode_from_agent};
use crate::framing::{encode_frame, frame_admissible, spec_frame, FrameError};
use crate::messages::{ApplicationName, FromAgent, InitializationError, ToAgent};

verus! {

/// The agent's phase. `Initializing` acquires the runtime session;
/// `Running` drains events at the tick cadence; `ShuttingDown` is terminal
/// and releases the session on every exit path.
#[derive(Debug, Clone, Copy, PartialEq, Eq)]
pub enum AgentPhase {
    Initializing,
    Running,
    ShuttingDown,
}

/// A runtime event classified by its raw type tag at the read boundary.
#[derive(Debug, Clone, Copy, PartialEq, Eq)]
pub enum RuntimeEventKind {
    /// The active scene application changed.
    SceneApplicationChanged,
    /// The runtime entered standby; reserved, currently no action.
    EnterStandby,
    /// The runtime left standby; reserved, currently no action.
    LeaveStandby,
    /// The runtime asks the agent to quit.
    QuitRequested,
    /// Any other event type; ignored.
    Other,
}

/// What one drained event obliges the agent to do.
#[derive(Debug, Clone, Copy, PartialEq, Eq)]
pub enum EventDisposition {
    /// Re-resolve the active application and emit `ApplicationName`.
    RefreshApplicationName,
    /// Do nothing.
    Ignore,
    /// Acknowledge the quit to the runtime and shut down.
    AcknowledgeQuitAndStop,
}

/// Interprets one drained runtime event: an application change asks for a
/// re-resolve, standby transitions are reserved no-ops, a quit request is
/// acknowledged and ends the loop, everything else is ignored.
pub fn interpret_event(kind: RuntimeEventKind) -> (r: EventDisposition)
    ensures
        match kind {
            RuntimeEventKind::SceneApplicationChanged => r
                == EventDisposition::RefreshApplicationName,
            RuntimeEventKind::EnterStandby => r == EventDisposition::Ignore,
            RuntimeEventKind::LeaveStandby => r == EventDisposition::Ignore,
            RuntimeEventKind::QuitRequested => r == EventDisposition::AcknowledgeQuitAndStop,
            RuntimeEventKind::Other => r == EventDisposition::Ignore,
        },
{
    match kind {
        RuntimeEventKind::SceneApplicationChanged => EventDisposition::RefreshApplicationName,
        RuntimeEventKind::EnterStandby => EventDisposition::Ignore,
        RuntimeEventKind::LeaveStandby => EventDisposition::Ignore,
        RuntimeEventKind::QuitRequested => EventDisposition::AcknowledgeQuitAndStop,
        RuntimeEventKind::Other => EventDisposition::Ignore,
    }
}

/// An action a tick plan schedules, in drain order.
#[derive(Debug, Clone, Copy, PartialEq, Eq)]
pub enum PlannedAction {
    /// Re-resolve the active application and emit `ApplicationName`.
    RefreshApplicationName,
    /// Acknowledge the quit to the runtime.
    AcknowledgeQuit,
}

/// The actions one tick performs for the events found pending, in order:
/// one refresh per application change, up to and including the
/// acknowledgement of the first quit request, after which the remaining
/// events are not processed.
pub open spec fn spec_tick_actions(pending: Seq<RuntimeEventKind>) -> Seq<PlannedAction>
    decreases pending.len(),
{
    if pending.len() == 0 {
        Seq::empty()
    } else {
        match pending[0] {
            RuntimeEventKind::SceneApplicationChanged => seq![
                PlannedAction::RefreshApplicationName,
            ] + spec_tick_actions(pending.skip(1)),
            RuntimeEventKind::QuitRequested => seq![PlannedAction::AcknowledgeQuit],
            _ => spec_tick_actions(pending.skip(1)),
        }
    }
}

/// Whether the tick's drain runs into a quit request.
pub open spec fn spec_tick_shutdown(pending: Seq<RuntimeEventKind>) -> bool
    decreases pending.len(),
{
    if pending.len() == 0 {
        false
    } else {
        match pending[0] {
            RuntimeEventKind::QuitRequested => true,
            _ => spec_tick_shutdown(pending.skip(1)),
        }
    }
}

/// What one tick does with the events the runtime reported pending.
pub struct TickPlan {
    /// The scheduled actions, in drain order.
    pub actions: Vec<PlannedAction>,
    /// Whether the loop ends after this tick.
    pub shutdown: bool,
}

/// Plans one tick: every event pending at the tick's start is drained in
/// order — exhaustively, not one per tick — until a quit request, whose
/// acknowledgement ends the plan and the loop.
pub fn plan_tick(pending: &Vec<RuntimeEventKind>) -> (r: TickPlan)
    ensures
        r.actions@ == spec_tick_actions(pending@),
        r.shutdown == spec_tick_shutdown(pending@),
{
    let ghost all = pending@;
    let mut actions: Vec<PlannedAction> = Vec::new();
    let mut i: usize = 0;
    proof {
        assert(all.skip(0) =~= all);
        assert(Seq::<PlannedAction>::empty() + spec_tick_actions(all) =~= spec_tick_actions(all));
    }
    while i < pending.len()
        invariant
            all == pending@,
            i <= all.len(),
            spec_tick_actions(all) == actions@ + spec_tick_actions(all.skip(i as int)),
            spec_tick_shutdown(all) == spec_tick_shutdown(all.skip(i as int)),
        decreases all.len() - i,
    {
        let ghost rest = all.skip(i as int);
        assert(rest[0] == all[i as int]);
        assert(rest.skip(1) =~= all.skip(i + 1));
        let ghost done = actions@;
        match interpret_event(pending[i]) {
            EventDisposition::RefreshApplicationName => {
                actions.push(PlannedAction::RefreshApplicationName);
                proof {
                    assert(done + (seq![PlannedAction::RefreshApplicationName]
                        + spec_tick_actions(rest.skip(1))) =~= actions@
                        + spec_tick_actions(rest.skip(1)));
                }
            },
            EventDisposition::Ignore => {},
            EventDisposition::AcknowledgeQuitAndStop => {
                actions.push(PlannedAction::AcknowledgeQuit);
                proof {
                    assert(spec_tick_actions(rest) == seq![PlannedAction::AcknowledgeQuit]);
                    assert(done + seq![PlannedAction::AcknowledgeQuit] =~= actions@);
                    assert(actions@ + Seq::<PlannedAction>::empty() =~= actions@);
                }
                return TickPlan { actions, shutdown: true };
            },
        }
        i = i + 1;
    }
    proof {
        assert(all.skip(all.len() as int) =~= Seq::<RuntimeEventKind>::empty());
        assert(actions@ + Seq::<PlannedAction>::empty() =~= actions@);
    }
    TickPlan { actions, shutdown: false }
}

/// The tick period: events are drained and emitted at 120 ticks a second.
pub const TICK_PERIOD_NANOS: u64 = 1_000_000_000 / 120;

/// Time left of the current tick after `elapsed_nanos` of it were spent:
/// the period minus the elapsed time, clamped to zero, never negative. The
/// wait on the command inlet is bounded by this, so an idle loop spends its
/// tick waiting rather than spinning, and a busy one is never delayed.
pub fn remaining_tick_budget(elapsed_nanos: u64) -> (r: u64)
    ensures
        r == if elapsed_nanos >= TICK_PERIOD_NANOS { 0u64 } else {
            (TICK_PERIOD_NANOS - elapsed_nanos) as u64
        },
        r <= TICK_PERIOD_NANOS,
{
    if elapsed_nanos >= TICK_PERIOD_NANOS {
        0
    } else {
        TICK_PERIOD_NANOS - elapsed_nanos
    }
}

/// What the wait on the command inlet observed.
pub enum CommandWaitEvent {
    /// A command frame arrived and was decoded — or failed to.
    CommandArrived(Result<ToAgent, crate::codec::DecodeError>),
    /// The tick budget ran out with nothing arriving.
    TimedOut,
    /// The host closed the inlet.
    InletClosed,
}

/// What the agent loop does after a wait on the command inlet.
#[derive(Debug, Clone, Copy, PartialEq, Eq)]
pub enum WaitDirective {
    /// Dispatch done (no commands exist today); keep waiting out the tick.
    KeepWaiting,
    /// The tick budget is spent; start the next tick.
    NextTick,
    /// The inlet is closed or unreadable: the host is gone, stop cleanly.
    ShutDown,
}

/// Resolves one command-inlet observation: a decoded command is dispatched
/// and the wait continues, a timeout starts the next tick, and a closed or
/// unreadable inlet means the host is gone — a silent, clean shutdown.
pub fn command_wait_step(ev: CommandWaitEvent) -> (r: WaitDirective)
    ensures
        match ev {
            CommandWaitEvent::CommandArrived(c) => match c {
                Ok(_) => r == WaitDirective::KeepWaiting,
                Err(_) => r == WaitDirective::ShutDown,
            },
            CommandWaitEvent::TimedOut => r == WaitDirective::NextTick,
            CommandWaitEvent::InletClosed => r == WaitDirective::ShutDown,
        },
{
    match ev {
        CommandWaitEvent::CommandArrived(c) => match c {
            Ok(_) => WaitDirective::KeepWaiting,
            Err(_) => WaitDirective::ShutDown,
        },
        CommandWaitEvent::TimedOut => WaitDirective::NextTick,
        CommandWaitEvent::InletClosed => WaitDirective::ShutDown,
    }
}

/// The messages the agent emits on leaving `Initializing`: on failure the
/// error alone, terminally; on success the completion and then the first
/// application identity — an explicit `None` when nothing is active — or
/// the completion alone when that first lookup failed.
pub fn startup_emissions(
    init: Result<(), InitializationError>,
    first_lookup: Result<Option<ApplicationName>, LookupError>,
) -> (r: Vec<FromAgent>)
    ensures
        match init {
            Err(e) => r@ == seq![FromAgent::InitializationError(e)],
            Ok(_) => match first_lookup {
                Ok(n) => r@ == seq![
                    FromAgent::InitializationCompleted,
                    FromAgent::ApplicationName(n),
                ],
                Err(_) => r@ == seq![FromAgent::InitializationCompleted],
            },
        },
{
    let mut out: Vec<FromAgent> = Vec::new();
    match init {
        Err(e) => {
            out.push(FromAgent::InitializationError(e));
            assert(out@ =~= seq![FromAgent::InitializationError(e)]);
        },
        Ok(_) => {
            out.push(FromAgent::InitializationCompleted);
            match first_lookup {
                Ok(n) => {
                    out.push(FromAgent::ApplicationName(n));
                    assert(out@ =~= seq![
                        FromAgent::InitializationCompleted,
                        FromAgent::ApplicationName(n),
                    ]);
                },
                Err(_) => {
                    assert(out@ =~= seq![FromAgent::InitializationCompleted]);
                },
            }
        },
    }
    out
}

/// Builds the structured error for a refused session: the runtime's
/// symbolic error name as it reported it, or the `"(null)"` marker when it
/// reported none, beside the raw status code.
pub fn initialization_failure(symbol: Option<String>, code: u32) -> (r: InitializationError)
    ensures
        r.code == code,
        match symbol {
            Some(s) => r.name@ == s@,
            None => r.name@ == "(null)"@,
        },
{
    let name = match symbol {
        Some(s) => s,
        None => String::from_str("(null)"),
    };
    InitializationError { name, code }
}

/// Protocol invariant over an agent's emission stream: a handshake message
/// — `InitializationCompleted` or `InitializationError` — stands only
/// first; everything after the head is an application-name update.
pub open spec fn handshake_only_first(s: Seq<FromAgent>) -> bool {
    forall|i: int| 1 <= i < s.len() ==> (#[trigger] s[i]) is ApplicationName
}

/// Every emission sequence [`startup_emissions`] can produce satisfies the
/// protocol invariant: a handshake message occurs at most once and only as
/// the first message.
pub proof fn lemma_startup_emissions_well_placed(e: InitializationError, n: Option<ApplicationName>)
    ensures
        handshake_only_first(seq![FromAgent::InitializationError(e)]),
        handshake_only_first(
            seq![FromAgent::InitializationCompleted, FromAgent::ApplicationName(n)],
        ),
        handshake_only_first(seq![FromAgent::InitializationCompleted]),
{
}

/// The running phase emits only application-name updates, and appending one
/// preserves the protocol invariant; so the whole stream of a session keeps
/// its handshake message first, and unique.
pub proof fn lemma_handshake_only_first_extend(s: Seq<FromAgent>, n: Option<ApplicationName>)
    requires
        handshake_only_first(s),
    ensures
        handshake_only_first(s.push(FromAgent::ApplicationName(n))),
{
    let t = s.push(FromAgent::ApplicationName(n));
    assert forall|i: int| 1 <= i < t.len() implies (#[trigger] t[i]) is ApplicationName by {
        if i < s.len() {
            assert(t[i] == s[i]);
        } else {
            assert(t[i] == FromAgent::ApplicationName(n));
        }
    }
}

/// The framed wire bytes for one outgoing message: the encoded body behind
/// its length prefix, or a refusal if the body exceeds the frame ceiling.
pub fn encode_message_frame(m: &FromAgent) -> (r: Result<Vec<u8>, FrameError>)
    ensures
        match r {
            Ok(f) => frame_admissible(spec_encode_from_agent(m@)) && f@ == spec_frame(
                spec_encode_from_agent(m@),
            ),
            Err(e) => !frame_admissible(spec_encode_from_agent(m@)) && e == FrameError::TooLarge,
        },
{
    let body = encode_from_agent(m);
    encode_frame(body.as_slice())
}

/// A failure of one active-application lookup. Lookup failures are scoped:
/// the pending `ApplicationName` update is skipped and polling continues.
#[derive(Debug, Clone, Copy, PartialEq, Eq)]
pub enum LookupError {
    /// The runtime returned this status.
    Runtime { code: u32 },
    /// The runtime kept reporting the name buffer too small past the retry
    /// ceiling.
    BufferNegotiation,
}

/// What characters `String::from_utf8_lossy` reads out of the given bytes.
pub uninterp spec fn lossy_utf8(bytes: Seq<u8>) -> Seq<char>;

/// Turns raw bytes into text, replacing ill-formed sequences.
///
/// Relies on `String::from_utf8_lossy` from std: the result is a function
/// of the bytes alone, and bytes that are valid UTF-8 decode unchanged.
#[verifier::external_body]
fn string_from_utf8_lossy(bytes: &[u8]) -> (r: String)
    ensures
        r@ == lossy_utf8(bytes@),
        valid_utf8(bytes@) ==> r@ == decode_utf8(bytes@),
{
    String::from_utf8_lossy(bytes).into_owned()
}

/// The bytes of a fixed NUL-terminated buffer up to its first NUL, or all
/// of them if none occurs.
pub open spec fn prefix_to_nul(b: Seq<u8>) -> Seq<u8>
    decreases b.len(),
{
    if b.len() == 0 {
        Seq::empty()
    } else if b[0] == 0 {
        Seq::empty()
    } else {
        seq![b[0]] + prefix_to_nul(b.skip(1))
    }
}

proof fn lemma_prefix_to_nul_take(b: Seq<u8>, i: int)
    requires
        0 <= i <= b.len(),
        forall|j: int| 0 <= j < i ==> b[j] != 0,
        i == b.len() || b[i] == 0,
    ensures
        prefix_to_nul(b) == b.take(i),
    decreases i,
{
    if i == 0 {
        assert(b.take(0) =~= Seq::<u8>::empty());
    } else {
        assert(b[0] != 0);
        lemma_prefix_to_nul_take(b.skip(1), i - 1);
        assert(seq![b[0]] + b.skip(1).take(i - 1) =~= b.take(i));
    }
}

/// Whether a process id names an active scene application: zero means none.
pub fn scene_process_active(pid: u32) -> (r: bool)
    ensures
        r == (pid != 0),
{
    pid != 0
}

/// The status of the runtime's key-by-process-id call, classified at the
/// read boundary.
#[derive(Debug, Clone, Copy, PartialEq, Eq)]
pub enum KeyLookupStatus {
    /// The key buffer was filled.
    Success,
    /// The process runs no registered application; a normal state, not an
    /// error.
    NoApplication,
    /// Any other status.
    Other(u32),
}

/// Reads the application key out of the runtime's answer: the filled
/// buffer's NUL-terminated text on success, no application as an explicit
/// `None`, and any other status as a lookup-scoped error.
pub fn scene_application_key(status: KeyLookupStatus, raw: &[u8]) -> (r: Result<
    Option<String>,
    LookupError,
>)
    ensures
        match status {
            KeyLookupStatus::Success => match r {
                Ok(k) => match k {
                    Some(s) => s@ == lossy_utf8(prefix_to_nul(raw@)),
                    None => false,
                },
                Err(_) => false,
            },
            KeyLookupStatus::NoApplication => r == Ok::<Option<String>, LookupError>(None),
            KeyLookupStatus::Other(code) => r == Err::<Option<String>, LookupError>(
                LookupError::Runtime { code },
            ),
        },
{
    match status {
        KeyLookupStatus::Success => {
            let mut i: usize = 0;
            while i < raw.len() && *slice_index_get(raw, i) != 0
                invariant
                    i <= raw@.len(),
                    forall|j: int| 0 <= j < i ==> raw@[j] != 0,
                decreases raw@.len() - i,
            {
                i = i + 1;
            }
            proof {
                lemma_prefix_to_nul_take(raw@, i as int);
            }
            let prefix = slice_subrange(raw, 0, i);
            Ok(Some(string_from_utf8_lossy(prefix)))
        },
        KeyLookupStatus::NoApplication => Ok(None),
        KeyLookupStatus::Other(code) => Err(LookupError::Runtime { code }),
    }
}

/// The status of one display-name read, classified at the read boundary.
#[derive(Debug, Clone, Copy, PartialEq, Eq)]
pub enum PropertyReadStatus {
    /// The call reported no error.
    Success,
    /// The call reported the buffer too small.
    BufferTooSmall,
    /// The process runs no registered application.
    NoApplication,
    /// Any other status.
    Other(u32),
}

/// One display-name read, resolved against the buffer it was given.
#[derive(Debug, Clone, Copy, PartialEq, Eq)]
pub enum PropertyReadResult {
    /// The buffer holds the name: `len` bytes including the trailing NUL.
    Completed { len: u32 },
    /// The buffer was too small; the runtime needs `required` bytes.
    NeedLarger { required: u32 },
    /// No application is active.
    NoneActive,
    /// The runtime returned this status.
    Failed { code: u32 },
}

/// Resolves one display-name read: success only counts when the reported
/// length fits the buffer the call was given — a longer report means the
/// buffer must grow to it, exactly as an explicit too-small status does.
pub fn classify_property_read(status: PropertyReadStatus, reported_len: u32, capacity: u32) -> (r:
    PropertyReadResult)
    ensures
        match status {
            PropertyReadStatus::Success => if reported_len <= capacity {
                r == (PropertyReadResult::Completed { len: reported_len })
            } else {
                r == (PropertyReadResult::NeedLarger { required: reported_len })
            },
            PropertyReadStatus::BufferTooSmall => r == (PropertyReadResult::NeedLarger {
                required: reported_len,
            }),
            PropertyReadStatus::NoApplication => r == PropertyReadResult::NoneActive,
            PropertyReadStatus::Other(code) => r == (PropertyReadResult::Failed { code }),
        },
{
    match status {
        PropertyReadStatus::Success => if reported_len <= capacity {
            PropertyReadResult::Completed { len: reported_len }
        } else {
            PropertyReadResult::NeedLarger { required: reported_len }
        },
        PropertyReadStatus::BufferTooSmall => PropertyReadResult::NeedLarger {
            required: reported_len,
        },
        PropertyReadStatus::NoApplication => PropertyReadResult::NoneActive,
        PropertyReadStatus::Other(code) => PropertyReadResult::Failed { code },
    }
}

/// How many display-name read attempts one lookup may spend: the first
/// best-guess request and exactly one retry at the size the runtime then
/// reported. A runtime that keeps reporting "too small" past that fails
/// the lookup rather than looping.
pub const NAME_READ_ATTEMPTS: u32 = 2;

/// What the lookup does after one display-name read attempt.
#[derive(Debug, Clone, Copy, PartialEq, Eq)]
pub enum NameReadStep {
    /// The name is in the buffer: finish with it.
    Finish { len: u32 },
    /// Read again once more, with a buffer of this size.
    Retry { size: u32 },
    /// No application is active: finish with an explicit `None`.
    NoneActive,
    /// Give this lookup up; polling continues.
    Abandon(LookupError),
}

/// Decides what follows display-name read attempt number `attempt`
/// (1-based): completion finishes, a grow request within the attempt
/// ceiling retries at the reported size, one at the ceiling abandons the
/// lookup, and any other failure abandons it with the runtime's status.
pub fn name_read_step(attempt: u32, result: PropertyReadResult) -> (r: NameReadStep)
    requires
        1 <= attempt <= NAME_READ_ATTEMPTS,
    ensures
        match result {
            PropertyReadResult::Completed { len } => r == (NameReadStep::Finish { len }),
            PropertyReadResult::NeedLarger { required } => if attempt < NAME_READ_ATTEMPTS {
                r == (NameReadStep::Retry { size: required })
            } else {
                r == NameReadStep::Abandon(LookupError::BufferNegotiation)
            },
            PropertyReadResult::NoneActive => r == NameReadStep::NoneActive,
            PropertyReadResult::Failed { code } => r == NameReadStep::Abandon(
                LookupError::Runtime { code },
            ),
        },
{
    match result {
        PropertyReadResult::Completed { len } => NameReadStep::Finish { len },
        PropertyReadResult::NeedLarger { required } => if attempt < NAME_READ_ATTEMPTS {
            NameReadStep::Retry { size: required }
        } else {
            NameReadStep::Abandon(LookupError::BufferNegotiation)
        },
        PropertyReadResult::NoneActive => NameReadStep::NoneActive,
        PropertyReadResult::Failed { code } => NameReadStep::Abandon(LookupError::Runtime { code }),
    }
}

/// The byte span of the display name within a completed read's buffer:
/// `len` bytes were written, the last of them the trailing NUL, and a
/// report longer than the buffer — or empty — yields what is actually
/// there.
pub open spec fn name_span(avail: int, reported: int) -> int {
    let n = if reported <= avail {
        reported
    } else {
        avail
    };
    if n > 0 {
        n - 1
    } else {
        0
    }
}

/// Reads the display name out of a completed read's buffer: the written
/// bytes with the trailing NUL dropped, as text.
pub fn display_name_from_raw(buf: &[u8], len: u32) -> (r: String)
    ensures
        r@ == lossy_utf8(buf@.take(name_span(buf@.len() as int, len as int))),
{
    let avail = buf.len();
    let n: usize = if len as usize <= avail {
        len as usize
    } else {
        avail
    };
    let m: usize = if n > 0 {
        n - 1
    } else {
        0
    };
    let prefix = slice_subrange(buf, 0, m);
    string_from_utf8_lossy(prefix)
}

} // verus!
