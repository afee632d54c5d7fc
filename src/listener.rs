use vstd::prelude::*;
use crate::tokens::DecodeError;

verus! {

/// The one route the listener serves.
pub fn route_path() -> (r: &'static str)
    ensures
        r@ == "/device-token"@,
{
    "/device-token"
}

/// The event under which decoded tokens are handed to the application.
pub fn token_event_name() -> (r: &'static str)
    ensures
        r@ == "hopp_auth://token"@,
{
    "hopp_auth://token"
}

/// The socket address to bind: the loopback interface, at the requested
/// port, so that no other host can reach the listener.
pub fn listen_address(port: u16) -> (r: ([u8; 4], u16))
    ensures
        r.0@ == seq![127u8, 0u8, 0u8, 1u8],
        r.1 == port,
{
    let ip: [u8; 4] = [127, 0, 0, 1];
    assert(ip@ =~= seq![127u8, 0u8, 0u8, 1u8]);
    (ip, port)
}

#[derive(Clone, Copy, Debug, PartialEq, Eq, Structural)]
pub enum ListenerState {
    Unbound,
    Binding,
    Serving,
    /// The port could not be bound; the host cannot go on.
    Aborted,
    /// The accept loop failed after it had started; it is not restarted.
    Crashed,
}

#[derive(Clone, Copy, Debug, PartialEq, Eq, Structural)]
pub enum ListenerEvent {
    Start,
    BindSucceeded,
    BindFailed,
    ServeFailed,
}

#[derive(Clone, Copy, Debug, PartialEq, Eq, Structural)]
pub enum ListenerAction {
    /// Bind the loopback address.
    Bind,
    /// Run the accept loop on the bound socket.
    Serve,
    /// Stop the host: the token handoff cannot be received.
    Abort,
    /// Log that the accept loop ended with an error.
    ReportCrash,
    /// Nothing to do.
    Ignore,
}

/// The listener's lifecycle: `Unbound`, `Binding`, `Serving`, then `Crashed`
/// or `Aborted`. Events that do not fit the state change nothing.
pub open spec fn next_state(s: ListenerState, e: ListenerEvent) -> (ListenerState, ListenerAction) {
    match (s, e) {
        (ListenerState::Unbound, ListenerEvent::Start) => (ListenerState::Binding, ListenerAction::Bind),
        (ListenerState::Binding, ListenerEvent::BindSucceeded) => (ListenerState::Serving, ListenerAction::Serve),
        (ListenerState::Binding, ListenerEvent::BindFailed) => (ListenerState::Aborted, ListenerAction::Abort),
        (ListenerState::Serving, ListenerEvent::ServeFailed) => (ListenerState::Crashed, ListenerAction::ReportCrash),
        _ => (s, ListenerAction::Ignore),
    }
}

/// Decides what the listener does on an event.
pub fn listener_step(s: ListenerState, e: ListenerEvent) -> (r: (ListenerState, ListenerAction))
    ensures
        r == next_state(s, e),
{
    match (s, e) {
        (ListenerState::Unbound, ListenerEvent::Start) => (ListenerState::Binding, ListenerAction::Bind),
        (ListenerState::Binding, ListenerEvent::BindSucceeded) => (ListenerState::Serving, ListenerAction::Serve),
        (ListenerState::Binding, ListenerEvent::BindFailed) => (ListenerState::Aborted, ListenerAction::Abort),
        (ListenerState::Serving, ListenerEvent::ServeFailed) => (ListenerState::Crashed, ListenerAction::ReportCrash),
        _ => (s, ListenerAction::Ignore),
    }
}

/// The listener serves only after the bind was confirmed, and a failed
/// bind always stops the host.
pub proof fn lemma_serving_needs_bind(s: ListenerState, e: ListenerEvent)
    ensures
        next_state(s, e).0 == ListenerState::Serving ==> s == ListenerState::Serving || (s
            == ListenerState::Binding && e == ListenerEvent::BindSucceeded),
        s == ListenerState::Binding && e == ListenerEvent::BindFailed ==> next_state(s, e)
            == (ListenerState::Aborted, ListenerAction::Abort),
{
}

#[derive(Clone, Copy, Debug, PartialEq, Eq, Structural)]
pub enum Reply {
    Success,
    BadRequest,
    InternalServerError,
}

impl Reply {
    pub open spec fn spec_code(self) -> u16 {
        match self {
            Reply::Success => 200,
            Reply::BadRequest => 400,
            Reply::InternalServerError => 500,
        }
    }

    /// The HTTP status code of the reply.
    pub fn code(self) -> (r: u16)
        ensures
            r == self.spec_code(),
    {
        match self {
            Reply::Success => 200,
            Reply::BadRequest => 400,
            Reply::InternalServerError => 500,
        }
    }
}

/// How handling one request ended.
#[derive(Clone, Copy, Debug, PartialEq, Eq, Structural)]
pub enum RequestOutcome {
    /// The query did not decode.
    DecodeFailed(DecodeError),
    /// The tokens decoded but could not be put in event form.
    SerializeFailed,
    /// The event was handed to the application.
    Emitted,
    /// The application did not take the event.
    EmitFailed,
}

/// The reply to the browser: a malformed query is a client error, a failure
/// to build the event a server error, and once the event was built the
/// request succeeded whether or not the application took it.
pub fn device_token_reply(outcome: RequestOutcome) -> (r: Reply)
    ensures
        r == match outcome {
            RequestOutcome::DecodeFailed(_) => Reply::BadRequest,
            RequestOutcome::SerializeFailed => Reply::InternalServerError,
            RequestOutcome::Emitted => Reply::Success,
            RequestOutcome::EmitFailed => Reply::Success,
        },
{
    match outcome {
        RequestOutcome::DecodeFailed(_) => Reply::BadRequest,
        RequestOutcome::SerializeFailed => Reply::InternalServerError,
        RequestOutcome::Emitted | RequestOutcome::EmitFailed => Reply::Success,
    }
}

} // verus!
