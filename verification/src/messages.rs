//! The message schema shared by host and agent: the two closed message
//! families and their mathematical views.

use vstd::prelude::*;

verus! {

/// Reported by the agent when the session with the external runtime cannot be
/// established: `name` is the runtime's own symbolic error name, `code` the
/// raw status it returned.
#[derive(Debug, Clone, PartialEq, Eq)]
pub struct InitializationError {
    pub name: String,
    pub code: u32,
}

/// Mathematical view of [`InitializationError`].
#[verifier::ext_equal]
pub struct InitializationErrorView {
    pub name: Seq<char>,
    pub code: u32,
}

impl View for InitializationError {
    type V = InitializationErrorView;

    open spec fn view(&self) -> InitializationErrorView {
        InitializationErrorView { name: self.name@, code: self.code }
    }
}

/// Identity of the currently active external application.
#[derive(Debug, Clone, PartialEq, Eq)]
pub struct ApplicationName {
    pub key: String,
    pub name: String,
}

/// Mathematical view of [`ApplicationName`].
#[verifier::ext_equal]
pub struct ApplicationNameView {
    pub key: Seq<char>,
    pub name: Seq<char>,
}

impl View for ApplicationName {
    type V = ApplicationNameView;

    open spec fn view(&self) -> ApplicationNameView {
        ApplicationNameView { key: self.key@, name: self.name@ }
    }
}

/// Witness type for the single forced variant of [`ToAgent`]. Its field is
/// private and no constructor exists, so no value of it — and hence no
/// `ToAgent` value — can be made outside this crate; none is made inside it.
#[derive(Debug, PartialEq, Eq)]
pub struct NoCommand {
    #[allow(dead_code)]
    marker: bool,
}

/// Commands sent host to agent. Deliberately an empty closed set today: the
/// wire format and the decode dispatch still support a non-empty set, so a
/// future command surface needs no framing change. The verifier requires an
/// enum to have a variant, so the one variant carries [`NoCommand`], which is
/// unconstructible; the command decoder rejects every discriminant.
#[derive(Debug, PartialEq, Eq)]
pub enum ToAgent {
    Reserved(NoCommand),
}

/// Events sent agent to host.
#[derive(Debug, Clone, PartialEq, Eq)]
pub enum FromAgent {
    /// The session with the external runtime is established; the agent is
    /// ready. Occurs at most once and only as part of the handshake.
    InitializationCompleted,
    /// Session setup failed; terminal for that agent instance.
    InitializationError(InitializationError),
    /// Identity of the active external application, or `None` if no
    /// application is active.
    ApplicationName(Option<ApplicationName>),
}

/// Mathematical view of [`FromAgent`].
#[verifier::ext_equal]
pub enum FromAgentView {
    InitializationCompleted,
    InitializationError(InitializationErrorView),
    ApplicationName(Option<ApplicationNameView>),
}

impl View for FromAgent {
    type V = FromAgentView;

    open spec fn view(&self) -> FromAgentView {
        match self {
            FromAgent::InitializationCompleted => FromAgentView::InitializationCompleted,
            FromAgent::InitializationError(e) => FromAgentView::InitializationError(e@),
            FromAgent::ApplicationName(a) => FromAgentView::ApplicationName(
                match a {
                    Some(n) => Some(n@),
                    None => None,
                },
            ),
        }
    }
}

} // verus!
