//! Error taxonomy of the service client contract.
//!
//! A call into the agent fails either at the transport (the agent is
//! unreachable, or the call timed out) or at the application level (the
//! agent was reached and rejected the request). A negative-but-valid
//! result, such as "not yet redeemed", is not an error at all; it is
//! classified as a continuation condition by `ProvisioningOutcome`.

use vstd::prelude::*;

verus! {

/// How a service call failed.
#[derive(Clone, Copy, Debug, PartialEq, Eq, Structural)]
pub enum ErrorClass {
    /// The agent is unreachable: the connection was refused.
    ConnectionRefused,
    /// The agent was reached but the call did not complete in time
    /// (deadline elapsed, or another in-call transport failure).
    Timeout,
    /// The agent was reached and rejected the request.
    Application,
}

/// A failed service call: its class and a human-readable message.
#[derive(Clone, Debug)]
pub struct ServiceError {
    pub class: ErrorClass,
    pub message: String,
}

impl ServiceError {
    /// Whether this error is a transport-level failure (the agent was
    /// unreachable or the call timed out), as opposed to an
    /// application-level rejection.
    pub open spec fn spec_is_transport(&self) -> bool {
        self.class is ConnectionRefused || self.class is Timeout
    }

    pub fn new(class: ErrorClass, message: String) -> (e: Self)
        ensures
            e.class == class,
            e.message@ == message@,
    {
        ServiceError { class, message }
    }

    pub fn is_transport(&self) -> (r: bool)
        ensures
            r == self.spec_is_transport(),
    {
        match self.class {
            ErrorClass::ConnectionRefused => true,
            ErrorClass::Timeout => true,
            ErrorClass::Application => false,
        }
    }
}

/// Tagged result of one redemption attempt.
#[derive(Clone, Copy, Debug, PartialEq, Eq, Structural)]
pub enum ProvisioningOutcome {
    /// The code was redeemed; the linking session is complete.
    Success,
    /// The agent answered, but the code has not been redeemed yet.
    NotYetRedeemed,
    /// The agent was unreachable or the call timed out.
    TransportError,
    /// The agent rejected the request.
    ApplicationError,
}

/// What outcome a redemption attempt's raw result denotes.
pub open spec fn spec_provision_outcome(result: Result<bool, ServiceError>) -> ProvisioningOutcome {
    match result {
        Ok(redeemed) => if redeemed {
            ProvisioningOutcome::Success
        } else {
            ProvisioningOutcome::NotYetRedeemed
        },
        Err(e) => if e.spec_is_transport() {
            ProvisioningOutcome::TransportError
        } else {
            ProvisioningOutcome::ApplicationError
        },
    }
}

/// Classifies the raw result of a `provision_by_code` call. A `false`
/// success field means "not yet redeemed" and is not an error.
pub fn classify_provision_result(result: &Result<bool, ServiceError>) -> (o: ProvisioningOutcome)
    ensures
        o == spec_provision_outcome(*result),
{
    match result {
        Ok(redeemed) => {
            if *redeemed {
                ProvisioningOutcome::Success
            } else {
                ProvisioningOutcome::NotYetRedeemed
            }
        },
        Err(e) => {
            if e.is_transport() {
                ProvisioningOutcome::TransportError
            } else {
                ProvisioningOutcome::ApplicationError
            }
        },
    }
}

} // verus!
