use keylime_agent::error::AgentError;

#[test]
fn every_error_has_a_description() {
    let all = [
        AgentError::HardwareFault,
        AgentError::UnsupportedAlgorithm,
        AgentError::RegistrationRejected,
        AgentError::ActivationRejected,
        AgentError::CryptoFailure,
        AgentError::OutOfOrder,
        AgentError::MissingNonce,
        AgentError::KeyReconstructionError,
        AgentError::KeyNotReady,
    ];
    for (i, error) in all.iter().enumerate() {
        assert!(!error.describe().is_empty());
        for other in &all[i + 1..] {
            assert_ne!(error.describe(), other.describe());
        }
    }
}

#[test]
fn descriptions() {
    assert_eq!(AgentError::MissingNonce.describe(), "missing nonce");
    assert_eq!(AgentError::HardwareFault.describe(), "hardware fault");
    assert_eq!(AgentError::KeyNotReady.describe(), "key not ready");
}
