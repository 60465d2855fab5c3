use vstd::prelude::*;

verus! {

/// The kinds of failure that a request can end with. Every failure leaves
/// the registry exactly as it was.
#[derive(Clone, Copy, Debug, PartialEq, Eq, Structural)]
pub enum ErrorCode {
    /// The caller lacks the membership or ownership that the request needs.
    Unauthorized,
    /// The referenced organization does not exist.
    NotFound,
    /// A duplicate organization name, member, or claim identifier.
    AlreadyExists,
    /// A required string field is empty.
    InvalidInput,
    /// The proposed new owner is the current owner.
    InvalidTransferTarget,
    /// Acceptance attempted with no matching pending transfer.
    NoPendingTransfer,
}

impl ErrorCode {
    /// A short human-readable message for this error.
    pub fn message(&self) -> (r: String) {
        match self {
            ErrorCode::Unauthorized => String::from_str("Caller is not allowed to perform this action"),
            ErrorCode::NotFound => String::from_str("Organization not found"),
            ErrorCode::AlreadyExists => String::from_str("Entry already exists"),
            ErrorCode::InvalidInput => String::from_str("Required field cannot be empty"),
            ErrorCode::InvalidTransferTarget => String::from_str("Invalid new owner address"),
            ErrorCode::NoPendingTransfer => String::from_str("No pending ownership transfer"),
        }
    }
}

} // verus!
