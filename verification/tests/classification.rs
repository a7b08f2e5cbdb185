use mpesa_b2c::err::MPesaError;

#[test]
fn test_should_validate_from_code() {
    assert_eq!(
        MPesaError::from_code(200, "Request processed successfully"),
        MPesaError::Successful("Request processed successfully".to_string())
    );
    assert_eq!(
        MPesaError::from_code(201, "Request processed successfully"),
        MPesaError::Successful("Request processed successfully".to_string())
    );
    assert_eq!(
        MPesaError::from_code(500, "Internal Error"),
        MPesaError::InternalError
    );
    assert_eq!(
        MPesaError::from_code(401, "INS-2"),
        MPesaError::InvalidAPIKey
    );
    assert_eq!(
        MPesaError::from_code(401, "INS-4"),
        MPesaError::UserNotActive
    );
    assert_eq!(
        MPesaError::from_code(401, "INS-5"),
        MPesaError::TransactionCancelledByCustomer
    );
    assert_eq!(
        MPesaError::from_code(401, "INS-6"),
        MPesaError::TransactionFailed
    );
    assert_eq!(
        MPesaError::from_code(401, "INS-26"),
        MPesaError::Unauthorized
    );
    assert_eq!(
        MPesaError::from_code(408, "Request Timeout"),
        MPesaError::RequestTimeout
    );
    assert_eq!(
        MPesaError::from_code(409, "Duplicate Transaction"),
        MPesaError::DuplicateTransaction
    );
    assert_eq!(
        MPesaError::from_code(400, "INS-13"),
        MPesaError::InvalidShortcode
    );
    assert_eq!(
        MPesaError::from_code(400, "INS-14"),
        MPesaError::InvalidReference
    );
    assert_eq!(
        MPesaError::from_code(400, "INS-15"),
        MPesaError::InvalidAmount
    );
    assert_eq!(
        MPesaError::from_code(400, "INS-17"),
        MPesaError::InvalidTransactionReferenceLength
    );
    assert_eq!(
        MPesaError::from_code(400, "INS-18"),
        MPesaError::InvalidTransactionID
    );
    assert_eq!(
        MPesaError::from_code(400, "INS-19"),
        MPesaError::InvalidThirdPartyReference
    );
    assert_eq!(
        MPesaError::from_code(400, "INS-20"),
        MPesaError::MissingParameters
    );
    assert_eq!(
        MPesaError::from_code(400, "INS-21"),
        MPesaError::ParameterValidationFailed
    );
    assert_eq!(
        MPesaError::from_code(400, "INS-22"),
        MPesaError::InvalidOperationType
    );
    assert_eq!(
        MPesaError::from_code(400, "INS-23"),
        MPesaError::UnknownStatus
    );
    assert_eq!(
        MPesaError::from_code(400, "INS-24"),
        MPesaError::InvalidInitiatorIdentifier
    );
    assert_eq!(
        MPesaError::from_code(400, "INS-25"),
        MPesaError::InvalidSecurityCredential
    );
    assert_eq!(
        MPesaError::from_code(400, "INS-993"),
        MPesaError::DirectDebitMissing
    );
    assert_eq!(
        MPesaError::from_code(400, "INS-994"),
        MPesaError::DirectDebitAlreadyExists
    );
    assert_eq!(
        MPesaError::from_code(400, "INS-995"),
        MPesaError::CustomerProfileProblem
    );
    assert_eq!(
        MPesaError::from_code(400, "INS-996"),
        MPesaError::CustomerAccountNotActive
    );
    assert_eq!(
        MPesaError::from_code(400, "INS-997"),
        MPesaError::LinkingTransactionNotFound
    );
    assert_eq!(
        MPesaError::from_code(400, "INS-998"),
        MPesaError::InvalidMarket
    );
    assert_eq!(
        MPesaError::from_code(400, "INS-2001"),
        MPesaError::InitiatorAuthenticationError
    );
    assert_eq!(
        MPesaError::from_code(400, "INS-2002"),
        MPesaError::ReceiverInvalid
    );
    assert_eq!(
        MPesaError::from_code(400, "INS-2051"),
        MPesaError::MSISDNInvalid
    );
    assert_eq!(
        MPesaError::from_code(400, "INS-2057"),
        MPesaError::LanguageCodeInvalid
    );
    assert_eq!(
        MPesaError::from_code(503, "Service Unavailable"),
        MPesaError::TemporaryOverload
    );
    assert_eq!(
        MPesaError::from_code(422, "Insufficient Balance"),
        MPesaError::InsufficientBalance
    );
    assert_eq!(
        MPesaError::from_code(999, "Unknown Error"),
        MPesaError::Other(999, "Unknown Error".to_string())
    );
}

#[test]
fn test_success_carries_the_description() {
    assert_eq!(
        MPesaError::from_code(200, "x"),
        MPesaError::Successful("x".to_string())
    );
}

#[test]
fn test_unknown_description_under_known_status_is_other() {
    assert_eq!(
        MPesaError::from_code(401, "INS-999"),
        MPesaError::Other(401, "INS-999".to_string())
    );
    assert_eq!(
        MPesaError::from_code(400, "not a vendor code"),
        MPesaError::Other(400, "not a vendor code".to_string())
    );
}

#[test]
fn test_description_is_ignored_outside_the_sub_tables() {
    assert_eq!(
        MPesaError::from_code(503, "INS-2"),
        MPesaError::TemporaryOverload
    );
    assert_eq!(
        MPesaError::from_code(422, "INS-13"),
        MPesaError::InsufficientBalance
    );
}
