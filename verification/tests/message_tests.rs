use contract_verify::errors::VerifyError;

#[test]
fn unsupported_chain_message_renders_the_identifier() {
    assert_eq!(VerifyError::UnsupportedChain(999).message(), "unexpected chain 999");
    assert_eq!(VerifyError::UnsupportedChain(0).message(), "unexpected chain 0");
    assert_eq!(
        VerifyError::UnsupportedChain(u64::MAX).message(),
        "unexpected chain 18446744073709551615"
    );
}

#[test]
fn contract_context_is_embedded_in_messages() {
    assert_eq!(VerifyError::MissingAbi("Token".to_string()).message(), "abi not found for Token");
    assert_eq!(
        VerifyError::MissingBytecode("Vault".to_string()).message(),
        "bytecode not found for Vault"
    );
    assert_eq!(
        VerifyError::ArgumentEncodingError {
            index: Some(2),
            detail: "Invalid data".to_string()
        }
        .message(),
        "could not encode constructor argument 2: Invalid data"
    );
}

#[test]
fn rejection_message_preserves_the_service_text() {
    let e = VerifyError::VerificationRejected {
        message: "Unable to locate ContractCode".to_string(),
        detail: "detail".to_string(),
    };
    assert_eq!(
        e.message(),
        "Encountered an error verifying this contract:\nResponse: `Unable to locate ContractCode`\nDetails: `detail`"
    );
}
