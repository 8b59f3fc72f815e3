use vstd::prelude::*;

verus! {

/// Why an operation on the registry was refused.
#[derive(Debug, Clone, PartialEq, Eq)]
pub enum ContractError {
    /// The caller is not the registry's owner.
    Unauthorized,
    /// The candidate name has fewer bytes than allowed.
    NameTooShort { length: u64, min_length: u64 },
    /// The candidate name has more bytes than allowed.
    NameTooLong { length: u64, max_length: u64 },
    /// The first character of the candidate name that is not allowed.
    InvalidCharacter { c: char },
    /// The member to remove is not in the registry.
    MemberNotFound,
    /// No registry has been stored yet.
    NotInitialized,
    /// The storage layer failed; the message is its own.
    Storage { msg: String },
}

} // verus!
