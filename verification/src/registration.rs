//! The registration client: performs the one-shot registration handshake and
//! repeats it, with the identical request, whenever the re-register channel
//! signals that the agent dropped its connection.

use crate::endpoint::RegisterDiscoveryHandlerRequest;
use vstd::prelude::*;

verus! {

/// Registration failed; fatal for the handler process, since an unregistered
/// handler is useless.
pub enum RegistrationFault {
    /// The agent's registration endpoint could not be reached.
    Unreachable { detail: String },
    /// The agent rejected the registration.
    Rejected { detail: String },
}

/// One event observed by the re-registration loop.
pub enum RegistrationEvent {
    /// A re-register signal arrived: the agent dropped its connection.
    SignalRaised,
    /// The signal channel closed: the process is shutting down.
    SignalChannelClosed,
    /// A registration attempt succeeded.
    AttemptSucceeded,
    /// A registration attempt failed.
    AttemptFailed { fault: RegistrationFault },
}

/// What the re-registration loop does next.
pub enum RegistrationAction {
    /// Send the registration request — the identical one, every time.
    SendRequest,
    /// Block until the next re-register signal.
    AwaitSignal,
    /// Exit cleanly: deliberate shutdown.
    ExitOk,
    /// Exit with the fault; the supervisor fails the whole process.
    ExitFault { fault: RegistrationFault },
}

/// Decides one step of the re-registration loop: a signal triggers one more
/// registration attempt, a closed channel is a clean shutdown, a successful
/// attempt goes back to waiting, and a failed attempt exits with its fault.
pub fn registration_step(event: RegistrationEvent) -> (r: RegistrationAction)
    ensures
        event matches RegistrationEvent::SignalRaised ==> r
            matches RegistrationAction::SendRequest,
        event matches RegistrationEvent::SignalChannelClosed ==> r
            matches RegistrationAction::ExitOk,
        event matches RegistrationEvent::AttemptSucceeded ==> r
            matches RegistrationAction::AwaitSignal,
        (event matches RegistrationEvent::AttemptFailed { fault } ==> (r matches
            RegistrationAction::ExitFault { fault: carried } && carried == fault)),
{
    match event {
        RegistrationEvent::SignalRaised => RegistrationAction::SendRequest,
        RegistrationEvent::SignalChannelClosed => RegistrationAction::ExitOk,
        RegistrationEvent::AttemptSucceeded => RegistrationAction::AwaitSignal,
        RegistrationEvent::AttemptFailed { fault } => RegistrationAction::ExitFault { fault },
    }
}

/// The registration client. It holds the one registration request, which is
/// constructed at startup and never changes: every attempt, first or
/// repeated, sends this very value.
pub struct RegistrationClient {
    request: RegisterDiscoveryHandlerRequest,
}

impl RegistrationClient {
    /// The request this client registers with.
    pub closed spec fn request_spec(self) -> RegisterDiscoveryHandlerRequest {
        self.request
    }

    /// A client that will register with the given request.
    pub fn new(request: RegisterDiscoveryHandlerRequest) -> (r: RegistrationClient)
        ensures
            r.request_spec() == request,
    {
        RegistrationClient { request }
    }

    /// The request for the next attempt: always the identical value the
    /// client was constructed with, on the first registration and on every
    /// re-registration alike.
    pub fn request(&self) -> (r: &RegisterDiscoveryHandlerRequest)
        ensures
            *r == self.request_spec(),
    {
        &self.request
    }
}

} // verus!
