//! The ways the agent can fail.

use vstd::prelude::*;

verus! {

/// A failure of the agent, by kind.
#[derive(Clone, Copy, Debug, PartialEq, Eq, Structural)]
pub enum AgentError {
    /// The root-of-trust device is unreachable or rejected a command.
    HardwareFault,
    /// The requested asymmetric scheme is not available.
    UnsupportedAlgorithm,
    /// The registrar rejected the identifier at registration.
    RegistrationRejected,
    /// The registrar did not acknowledge the activation.
    ActivationRejected,
    /// The authentication tag could not be computed.
    CryptoFailure,
    /// An outcome arrived that does not answer the step in progress.
    OutOfOrder,
    /// A quote was requested without a nonce.
    MissingNonce,
    /// The delivered key share does not fit the one held.
    KeyReconstructionError,
    /// The key was asked for before it was reconstructed.
    KeyNotReady,
}

impl AgentError {
    /// Whether this kind of failure answers a single request of the evidence
    /// service, and leaves the service running.
    pub open spec fn is_request_error(self) -> bool {
        self is MissingNonce || self is KeyReconstructionError || self is KeyNotReady
    }

    /// A short description for the operator or the caller.
    pub open spec fn spec_describe(self) -> Seq<char> {
        match self {
            AgentError::HardwareFault => "hardware fault"@,
            AgentError::UnsupportedAlgorithm => "unsupported algorithm"@,
            AgentError::RegistrationRejected => "registration rejected"@,
            AgentError::ActivationRejected => "activation rejected"@,
            AgentError::CryptoFailure => "authentication tag could not be computed"@,
            AgentError::OutOfOrder => "outcome out of order"@,
            AgentError::MissingNonce => "missing nonce"@,
            AgentError::KeyReconstructionError => "key reconstruction error"@,
            AgentError::KeyNotReady => "key not ready"@,
        }
    }

    /// A short description for the operator or the caller.
    pub fn describe(&self) -> (text: String)
        ensures
            text@ == self.spec_describe(),
    {
        let text = match self {
            AgentError::HardwareFault => "hardware fault",
            AgentError::UnsupportedAlgorithm => "unsupported algorithm",
            AgentError::RegistrationRejected => "registration rejected",
            AgentError::ActivationRejected => "activation rejected",
            AgentError::CryptoFailure => "authentication tag could not be computed",
            AgentError::OutOfOrder => "outcome out of order",
            AgentError::MissingNonce => "missing nonce",
            AgentError::KeyReconstructionError => "key reconstruction error",
            AgentError::KeyNotReady => "key not ready",
        };
        text.to_owned()
    }
}

} // verus!
