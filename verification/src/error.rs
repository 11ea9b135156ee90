use vstd::prelude::*;

verus! {

/// Every failing operation of the registry reports one of these outcomes.
/// No operation that returns an error leaves a partial mutation behind.
#[derive(Debug, Clone, Copy, PartialEq, Eq, Structural)]
pub enum ContractError {
    /// The caller may not perform the requested action.
    Unauthorized,
    /// The named token does not exist.
    TokenNotFound,
    /// A token with this identifier already exists.
    TokenAlreadyExists,
    /// The approval (or pending role transfer) is absent or expired.
    ApprovalExpiredOrAbsent,
    /// The royalty share bound or the per-update delta bound is violated.
    InvalidRoyalties,
    /// The collection description may not be empty.
    CollectionDescriptionEmpty,
    /// The collection description exceeds the maximum length.
    CollectionDescriptionTooLong { max_length: u32 },
    /// A provided link is not a well-formed absolute URL.
    MalformedUrl,
    /// The migration target version is not ahead of the stored version,
    /// or no upgrade path exists from the stored version.
    VersionMismatch,
}

} // verus!
