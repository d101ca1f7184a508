use vstd::prelude::*;

verus! {

/// Every way an operation on an orphan account handle can fail.
#[derive(Debug, Clone, Copy, PartialEq, Eq, Structural)]
pub enum ErrorCode {
    /// The account is owned by the system program and holds no lamports.
    AccountNotInitialized,
    /// The leading discriminator is missing or names another account type.
    AccountDiscriminatorMismatch,
    /// The bytes after the discriminator do not parse as the account type.
    AccountDidNotDeserialize,
    /// The account data is already borrowed in a conflicting way.
    AccountBorrowFailed,
    /// The account data is too short to hold the serialized value.
    AccountDidNotSerialize,
    /// A mutable access was asked of an account that is not writable.
    AccountNotMutable,
    /// Closing this kind of account handle is not supported.
    CloseUnsupported,
    /// The list of accounts handed to the handle was empty.
    AccountNotEnoughKeys,
}

} // verus!
