//! The lifecycle supervisor: the transport server and the registration
//! client run as independent concurrent tasks, and the failure of either one
//! is fatal for the whole handler process.

use crate::registration::RegistrationFault;
use crate::server::ServerError;
use vstd::prelude::*;

verus! {

/// Why the handler process failed.
pub enum HandlerError {
    /// The transport server terminated with an error.
    Server { error: ServerError },
    /// The registration client terminated with a fault.
    Registration { fault: RegistrationFault },
}

/// The supervisor's verdict from the outcomes of its two tasks: success only
/// when both ended cleanly (which happens only at deliberate shutdown);
/// otherwise the error of the task that failed, the server's when both did.
pub open spec fn supervise_spec(
    server: Result<(), ServerError>,
    registration: Result<(), RegistrationFault>,
) -> Result<(), HandlerError> {
    match server {
        Err(error) => Err(HandlerError::Server { error }),
        Ok(_) => match registration {
            Err(fault) => Err(HandlerError::Registration { fault }),
            Ok(_) => Ok(()),
        },
    }
}

/// Couples the failures of the transport server and the registration client:
/// if either terminated with an error, the whole handler fails with it. There
/// is no restart policy; restarting is the outer process manager's job.
pub fn supervise(server: Result<(), ServerError>, registration: Result<(), RegistrationFault>) -> (r:
    Result<(), HandlerError>)
    ensures
        r == supervise_spec(server, registration),
{
    match server {
        Err(error) => Err(HandlerError::Server { error }),
        Ok(_) => match registration {
            Err(fault) => Err(HandlerError::Registration { fault }),
            Ok(_) => Ok(()),
        },
    }
}

/// Law: a registration fault is fatal for the whole handler even though the
/// transport server itself is healthy.
pub proof fn lemma_registration_fault_is_fatal(fault: RegistrationFault)
    ensures
        supervise_spec(Ok(()), Err(fault)) == Err::<(), HandlerError>(
            HandlerError::Registration { fault },
        ),
{
}

/// Law: the handler succeeds exactly when both of its tasks do.
pub proof fn lemma_supervisor_success(
    server: Result<(), ServerError>,
    registration: Result<(), RegistrationFault>,
)
    ensures
        (supervise_spec(server, registration) matches Ok(_)) <==> ((server matches Ok(_)) && (
        registration matches Ok(_))),
{
}

} // verus!
