use vstd::prelude::*;

verus! {

/// The closed taxonomy of gateway outcomes: one variant per known
/// (HTTP status, vendor description) combination, plus a catch-all
/// `Other` that keeps the raw pair for every unknown combination.
#[derive(Debug, PartialEq, Eq)]
pub enum MPesaError {
    Successful(String),
    InternalError,
    InvalidAPIKey,
    UserNotActive,
    TransactionCancelledByCustomer,
    TransactionFailed,
    RequestTimeout,
    DuplicateTransaction,
    InvalidShortcode,
    InvalidReference,
    InvalidAmount,
    TemporaryOverload,
    InvalidTransactionReferenceLength,
    InvalidTransactionID,
    InvalidThirdPartyReference,
    MissingParameters,
    ParameterValidationFailed,
    InvalidOperationType,
    UnknownStatus,
    InvalidInitiatorIdentifier,
    InvalidSecurityCredential,
    Unauthorized,
    DirectDebitMissing,
    DirectDebitAlreadyExists,
    CustomerProfileProblem,
    CustomerAccountNotActive,
    LinkingTransactionNotFound,
    InvalidMarket,
    InitiatorAuthenticationError,
    ReceiverInvalid,
    InsufficientBalance,
    MSISDNInvalid,
    LanguageCodeInvalid,
    Other(u16, String),
}

/// The catch-all outcome: the raw status and description are kept verbatim.
pub open spec fn is_other(code: u16, desc: Seq<char>, r: MPesaError) -> bool {
    &&& r matches MPesaError::Other(c, d)
    &&& c == code
    &&& d@ == desc
}

/// The routing table of the classifier: for every (status, description)
/// pair it pins the variant `r` that classification must produce.
/// Status is consulted first; only 401 and 400 look at the description,
/// which the vendor overloads with `INS-...` sub-codes.
pub open spec fn is_classification_of(code: u16, desc: Seq<char>, r: MPesaError) -> bool {
    if code == 200 || code == 201 {
        r matches MPesaError::Successful(s) && s@ == desc
    } else if code == 500 {
        r == MPesaError::InternalError
    } else if code == 401 {
        if desc == "INS-2"@ {
            r == MPesaError::InvalidAPIKey
        } else if desc == "INS-4"@ {
            r == MPesaError::UserNotActive
        } else if desc == "INS-5"@ {
            r == MPesaError::TransactionCancelledByCustomer
        } else if desc == "INS-6"@ {
            r == MPesaError::TransactionFailed
        } else if desc == "INS-26"@ {
            r == MPesaError::Unauthorized
        } else {
            is_other(code, desc, r)
        }
    } else if code == 408 {
        r == MPesaError::RequestTimeout
    } else if code == 409 {
        r == MPesaError::DuplicateTransaction
    } else if code == 400 {
        if desc == "INS-13"@ {
            r == MPesaError::InvalidShortcode
        } else if desc == "INS-14"@ {
            r == MPesaError::InvalidReference
        } else if desc == "INS-15"@ {
            r == MPesaError::InvalidAmount
        } else if desc == "INS-17"@ {
            r == MPesaError::InvalidTransactionReferenceLength
        } else if desc == "INS-18"@ {
            r == MPesaError::InvalidTransactionID
        } else if desc == "INS-19"@ {
            r == MPesaError::InvalidThirdPartyReference
        } else if desc == "INS-20"@ {
            r == MPesaError::MissingParameters
        } else if desc == "INS-21"@ {
            r == MPesaError::ParameterValidationFailed
        } else if desc == "INS-22"@ {
            r == MPesaError::InvalidOperationType
        } else if desc == "INS-23"@ {
            r == MPesaError::UnknownStatus
        } else if desc == "INS-24"@ {
            r == MPesaError::InvalidInitiatorIdentifier
        } else if desc == "INS-25"@ {
            r == MPesaError::InvalidSecurityCredential
        } else if desc == "INS-993"@ {
            r == MPesaError::DirectDebitMissing
        } else if desc == "INS-994"@ {
            r == MPesaError::DirectDebitAlreadyExists
        } else if desc == "INS-995"@ {
            r == MPesaError::CustomerProfileProblem
        } else if desc == "INS-996"@ {
            r == MPesaError::CustomerAccountNotActive
        } else if desc == "INS-997"@ {
            r == MPesaError::LinkingTransactionNotFound
        } else if desc == "INS-998"@ {
            r == MPesaError::InvalidMarket
        } else if desc == "INS-2001"@ {
            r == MPesaError::InitiatorAuthenticationError
        } else if desc == "INS-2002"@ {
            r == MPesaError::ReceiverInvalid
        } else if desc == "INS-2051"@ {
            r == MPesaError::MSISDNInvalid
        } else if desc == "INS-2057"@ {
            r == MPesaError::LanguageCodeInvalid
        } else {
            is_other(code, desc, r)
        }
    } else if code == 503 {
        r == MPesaError::TemporaryOverload
    } else if code == 422 {
        r == MPesaError::InsufficientBalance
    } else {
        is_other(code, desc, r)
    }
}

/// Equality up to the contents of the carried strings: the same variant,
/// and equal views of any carried description.
pub open spec fn same_classification(a: MPesaError, b: MPesaError) -> bool {
    match (a, b) {
        (MPesaError::Successful(x), MPesaError::Successful(y)) => x@ == y@,
        (MPesaError::Other(c1, d1), MPesaError::Other(c2, d2)) => c1 == c2 && d1@ == d2@,
        _ => a == b,
    }
}

/// String comparison whose result is the equality of the two views.
pub(crate) fn str_eq(a: &str, b: &str) -> (r: bool)
    ensures
        r == (a@ == b@),
{
    let sa: String = a.to_owned();
    let sb: String = b.to_owned();
    sa == sb
}

impl MPesaError {
    /// Classification is total: every (status, description) pair yields
    /// exactly the variant that the routing table pins, and unknown pairs
    /// yield `Other` rather than failing.
    pub fn from_code(code: u16, description: &str) -> (r: MPesaError)
        ensures
            is_classification_of(code, description@, r),
    {
        if code == 200 || code == 201 {
            MPesaError::Successful(description.to_owned())
        } else if code == 500 {
            MPesaError::InternalError
        } else if code == 401 {
            if str_eq(description, "INS-2") {
                MPesaError::InvalidAPIKey
            } else if str_eq(description, "INS-4") {
                MPesaError::UserNotActive
            } else if str_eq(description, "INS-5") {
                MPesaError::TransactionCancelledByCustomer
            } else if str_eq(description, "INS-6") {
                MPesaError::TransactionFailed
            } else if str_eq(description, "INS-26") {
                MPesaError::Unauthorized
            } else {
                MPesaError::Other(code, description.to_owned())
            }
        } else if code == 408 {
            MPesaError::RequestTimeout
        } else if code == 409 {
            MPesaError::DuplicateTransaction
        } else if code == 400 {
            if str_eq(description, "INS-13") {
                MPesaError::InvalidShortcode
            } else if str_eq(description, "INS-14") {
                MPesaError::InvalidReference
            } else if str_eq(description, "INS-15") {
                MPesaError::InvalidAmount
            } else if str_eq(description, "INS-17") {
                MPesaError::InvalidTransactionReferenceLength
            } else if str_eq(description, "INS-18") {
                MPesaError::InvalidTransactionID
            } else if str_eq(description, "INS-19") {
                MPesaError::InvalidThirdPartyReference
            } else if str_eq(description, "INS-20") {
                MPesaError::MissingParameters
            } else if str_eq(description, "INS-21") {
                MPesaError::ParameterValidationFailed
            } else if str_eq(description, "INS-22") {
                MPesaError::InvalidOperationType
            } else if str_eq(description, "INS-23") {
                MPesaError::UnknownStatus
            } else if str_eq(description, "INS-24") {
                MPesaError::InvalidInitiatorIdentifier
            } else if str_eq(description, "INS-25") {
                MPesaError::InvalidSecurityCredential
            } else if str_eq(description, "INS-993") {
                MPesaError::DirectDebitMissing
            } else if str_eq(description, "INS-994") {
                MPesaError::DirectDebitAlreadyExists
            } else if str_eq(description, "INS-995") {
                MPesaError::CustomerProfileProblem
            } else if str_eq(description, "INS-996") {
                MPesaError::CustomerAccountNotActive
            } else if str_eq(description, "INS-997") {
                MPesaError::LinkingTransactionNotFound
            } else if str_eq(description, "INS-998") {
                MPesaError::InvalidMarket
            } else if str_eq(description, "INS-2001") {
                MPesaError::InitiatorAuthenticationError
            } else if str_eq(description, "INS-2002") {
                MPesaError::ReceiverInvalid
            } else if str_eq(description, "INS-2051") {
                MPesaError::MSISDNInvalid
            } else if str_eq(description, "INS-2057") {
                MPesaError::LanguageCodeInvalid
            } else {
                MPesaError::Other(code, description.to_owned())
            }
        } else if code == 503 {
            MPesaError::TemporaryOverload
        } else if code == 422 {
            MPesaError::InsufficientBalance
        } else {
            MPesaError::Other(code, description.to_owned())
        }
    }
}

/// Classification is deterministic: any two results that the routing table
/// admits for the same (status, description) pair are the same variant with
/// the same carried strings.
pub proof fn lemma_classify_deterministic(
    code: u16,
    desc: Seq<char>,
    a: MPesaError,
    b: MPesaError,
)
    requires
        is_classification_of(code, desc, a),
        is_classification_of(code, desc, b),
    ensures
        same_classification(a, b),
{
}

/// A status outside the routing table always falls to the catch-all,
/// whatever the description says.
pub proof fn lemma_unknown_status_is_other(code: u16, desc: Seq<char>, r: MPesaError)
    requires
        code != 200,
        code != 201,
        code != 500,
        code != 401,
        code != 408,
        code != 409,
        code != 400,
        code != 503,
        code != 422,
        is_classification_of(code, desc, r),
    ensures
        is_other(code, desc, r),
{
}

} // verus!
