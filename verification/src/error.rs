use vstd::prelude::*;

verus! {

/// Categorical failures of the registry's operations.
#[derive(Clone, Copy, Debug, PartialEq, Eq, Structural)]
pub enum CertificateError {
    AlreadyExists,
    NotFound,
    Unauthorized,
    InvalidData,
    AlreadyRevoked,
    TransferNotFound,
    TransferNotPending,
    TransferNotAuthorized,
    InsufficientBalance,
    InvalidTransferStatus,
}

} // verus!
