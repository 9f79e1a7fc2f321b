//! The errors of the vault controller.

use vstd::prelude::*;

verus! {

/// Why an operation was refused. Every error ends the operation and leaves the vault and
/// its holding as they were.
#[derive(Clone, Copy, Debug, PartialEq, Eq, Structural)]
pub enum ErrorCode {
    /// The amount asked for is zero.
    InvalidAmount,
    /// The withdrawal is more than the holding has.
    InsufficientFunds,
    /// A withdrawal from a locked vault, or a lock of a vault that is locked already.
    LockedVault,
    /// An unlock of a vault that is not locked.
    UnlockedVault,
    /// The request does not come from the principal it needs, or does not name the
    /// accounts that belong to the vault.
    Unauthorized,
    /// The vault to initialize is there already.
    AlreadyExists,
    /// The token program did not move the assets.
    TransferFailed,
}

impl ErrorCode {
    /// The text that describes the error.
    pub open spec fn spec_message(self) -> Seq<char> {
        match self {
            ErrorCode::InvalidAmount => "Invalid amount"@,
            ErrorCode::InsufficientFunds => "Insufficient funds"@,
            ErrorCode::LockedVault => "Vault is locked"@,
            ErrorCode::UnlockedVault => "Vault is not locked"@,
            ErrorCode::Unauthorized => "Unauthorized"@,
            ErrorCode::AlreadyExists => "Vault already exists"@,
            ErrorCode::TransferFailed => "Transfer failed"@,
        }
    }

    /// The text that describes the error.
    pub fn message(&self) -> (text: &'static str)
        ensures
            text@ == self.spec_message(),
    {
        match self {
            ErrorCode::InvalidAmount => "Invalid amount",
            ErrorCode::InsufficientFunds => "Insufficient funds",
            ErrorCode::LockedVault => "Vault is locked",
            ErrorCode::UnlockedVault => "Vault is not locked",
            ErrorCode::Unauthorized => "Unauthorized",
            ErrorCode::AlreadyExists => "Vault already exists",
            ErrorCode::TransferFailed => "Transfer failed",
        }
    }
}

} // verus!
