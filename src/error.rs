use vstd::prelude::*;
use vstd::string::*;

verus! {

/// Every way an operation on a vault can fail.
#[derive(Debug, Clone, PartialEq, Eq)]
pub enum VaultError {
    VaultNotFound,
    Unauthorized,
    InvalidInput(String),
    TransferFailed(String),
    InsufficientBalance,
    VaultAlreadyExists,
    InvalidDestinationAddress,
    TimeoutTooShort,
    TimeoutTooLong,
    TransferInProgress,
    SigningServiceError(String),
}

/// The text that describes each error.
pub open spec fn error_text(e: VaultError) -> Seq<char> {
    match e {
        VaultError::VaultNotFound => "Vault not found"@,
        VaultError::Unauthorized => "Unauthorized access"@,
        VaultError::InvalidInput(m) => "Invalid input: "@ + m@,
        VaultError::TransferFailed(m) => "Transfer failed: "@ + m@,
        VaultError::InsufficientBalance => "Insufficient balance"@,
        VaultError::VaultAlreadyExists => "Vault already exists"@,
        VaultError::InvalidDestinationAddress => "Invalid destination address"@,
        VaultError::TimeoutTooShort => "Timeout too short (minimum 1 days)"@,
        VaultError::TimeoutTooLong => "Timeout too long (maximum 3650 days)"@,
        VaultError::TransferInProgress => "Transfer in progress"@,
        VaultError::SigningServiceError(m) => "Signing service error: "@ + m@,
    }
}

impl VaultError {
    /// A human-readable description of the error.
    pub fn message(&self) -> (r: String)
        ensures
            r@ == error_text(*self),
    {
        match self {
            VaultError::VaultNotFound => String::from_str("Vault not found"),
            VaultError::Unauthorized => String::from_str("Unauthorized access"),
            VaultError::InvalidInput(m) => String::from_str("Invalid input: ").concat(m.as_str()),
            VaultError::TransferFailed(m) => String::from_str("Transfer failed: ").concat(
                m.as_str(),
            ),
            VaultError::InsufficientBalance => String::from_str("Insufficient balance"),
            VaultError::VaultAlreadyExists => String::from_str("Vault already exists"),
            VaultError::InvalidDestinationAddress => String::from_str(
                "Invalid destination address",
            ),
            VaultError::TimeoutTooShort => String::from_str("Timeout too short (minimum 1 days)"),
            VaultError::TimeoutTooLong => String::from_str("Timeout too long (maximum 3650 days)"),
            VaultError::TransferInProgress => String::from_str("Transfer in progress"),
            VaultError::SigningServiceError(m) => String::from_str(
                "Signing service error: ",
            ).concat(m.as_str()),
        }
    }
}

} // verus!
