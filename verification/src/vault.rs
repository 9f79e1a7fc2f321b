//! The vault record: the balance ledger and the lock state machine.

use crate::address::Address;
use crate::error::ErrorCode;
use vstd::prelude::*;

verus! {

/// Bytes that mark the kind of a stored record.
pub const DISCRIMINATOR_LENGTH: usize = 8;

/// Bytes of a stored address.
pub const PUBLIC_KEY_LENGTH: usize = 32;

/// Bytes of a stored amount or timestamp.
pub const MAX_INT_LENGTH: usize = 8;

/// Bytes of a stored flag.
pub const MAX_BOOL_LENGTH: usize = 1;

/// The custody record of one owner and one asset.
#[derive(Clone, Copy, Debug, PartialEq, Eq)]
pub struct Vault {
    /// The holding that keeps the vault's assets.
    pub token_account: Address,
    /// The principal who may withdraw, lock and unlock.
    pub owner: Address,
    /// The asset that the vault keeps.
    pub mint: Address,
    /// The balance recorded at the last deposit or withdrawal.
    pub amount: u64,
    /// Whether withdrawals are suspended.
    pub locked: bool,
    /// When assets were last deposited; zero before the first deposit.
    pub last_deposit: i64,
    /// When assets were last withdrawn; zero before the first withdrawal.
    pub last_withdrawal: i64,
    /// When the vault was created.
    pub created_at: i64,
}

impl Vault {
    /// Bytes that a stored vault takes.
    pub const SIZE: usize = DISCRIMINATOR_LENGTH + PUBLIC_KEY_LENGTH + PUBLIC_KEY_LENGTH
        + PUBLIC_KEY_LENGTH + MAX_INT_LENGTH + MAX_BOOL_LENGTH + MAX_INT_LENGTH + MAX_INT_LENGTH
        + MAX_INT_LENGTH;

    /// The vault as it is created: empty, unlocked, with no deposit or withdrawal yet.
    pub open spec fn created(token_account: Address, owner: Address, mint: Address, now: i64)
        -> Vault {
        Vault {
            token_account,
            owner,
            mint,
            amount: 0,
            locked: false,
            last_deposit: 0,
            last_withdrawal: 0,
            created_at: now,
        }
    }

    /// The vault after a deposit of `amount` into a holding that had `balance`.
    pub open spec fn after_deposit(self, balance: u64, amount: u64, now: i64) -> Vault {
        Vault { amount: (balance + amount) as u64, last_deposit: now, ..self }
    }

    /// The vault after a withdrawal of `amount` from a holding that had `balance`.
    pub open spec fn after_withdrawal(self, balance: u64, amount: u64, now: i64) -> Vault {
        Vault { amount: (balance - amount) as u64, last_withdrawal: now, ..self }
    }

    /// What stands against a withdrawal of `amount` from a holding that has `balance`: the
    /// lock first, then a zero amount, then the balance.
    pub open spec fn withdrawal_refusal(self, amount: u64, balance: u64) -> Option<ErrorCode> {
        if self.locked {
            Some(ErrorCode::LockedVault)
        } else if amount == 0 {
            Some(ErrorCode::InvalidAmount)
        } else if amount > balance {
            Some(ErrorCode::InsufficientFunds)
        } else {
            None
        }
    }

    /// Creates the record of a vault at time `now`.
    pub fn new(token_account: Address, owner: Address, mint: Address, now: i64) -> (vault: Vault)
        ensures
            vault == Vault::created(token_account, owner, mint, now),
    {
        Vault {
            token_account,
            owner,
            mint,
            amount: 0,
            locked: false,
            last_deposit: 0,
            last_withdrawal: 0,
            created_at: now,
        }
    }

    /// Locks the vault. A vault that is locked already is not locked again.
    pub fn lock(&mut self) -> (result: Result<(), ErrorCode>)
        ensures
            old(self).locked ==> result == Err::<(), ErrorCode>(ErrorCode::LockedVault)
                && *final(self) == *old(self),
            !old(self).locked ==> result == Ok::<(), ErrorCode>(())
                && *final(self) == (Vault { locked: true, ..*old(self) }),
    {
        if self.locked {
            return Err(ErrorCode::LockedVault);
        }
        self.locked = true;
        Ok(())
    }

    /// Unlocks the vault. A vault that is not locked is not unlocked.
    pub fn unlock(&mut self) -> (result: Result<(), ErrorCode>)
        ensures
            !old(self).locked ==> result == Err::<(), ErrorCode>(ErrorCode::UnlockedVault)
                && *final(self) == *old(self),
            old(self).locked ==> result == Ok::<(), ErrorCode>(())
                && *final(self) == (Vault { locked: false, ..*old(self) }),
    {
        if !self.locked {
            return Err(ErrorCode::UnlockedVault);
        }
        self.locked = false;
        Ok(())
    }

    /// Admits a withdrawal of `amount` from a holding that has `balance`.
    pub fn check_withdrawal(&self, amount: u64, balance: u64) -> (result: Result<(), ErrorCode>)
        ensures
            match self.withdrawal_refusal(amount, balance) {
                Some(error) => result == Err::<(), ErrorCode>(error),
                None => result == Ok::<(), ErrorCode>(()),
            },
    {
        if self.locked {
            return Err(ErrorCode::LockedVault);
        }
        if amount == 0 {
            return Err(ErrorCode::InvalidAmount);
        }
        if amount > balance {
            return Err(ErrorCode::InsufficientFunds);
        }
        Ok(())
    }

    /// Records that `amount` was moved into the vault's holding, which had `balance`: the
    /// recorded amount becomes their sum. A sum that no holding can have is refused.
    pub fn record_deposit(&mut self, balance: u64, amount: u64, now: i64) -> (result: Result<
        (),
        ErrorCode,
    >)
        ensures
            balance + amount > u64::MAX ==> result == Err::<(), ErrorCode>(
                ErrorCode::TransferFailed,
            ) && *final(self) == *old(self),
            balance + amount <= u64::MAX ==> result == Ok::<(), ErrorCode>(()) && *final(self)
                == old(self).after_deposit(balance, amount, now),
    {
        match balance.checked_add(amount) {
            Some(sum) => {
                self.amount = sum;
                self.last_deposit = now;
                Ok(())
            },
            None => Err(ErrorCode::TransferFailed),
        }
    }

    /// Records that `amount` was moved out of the vault's holding, which had `balance`: the
    /// recorded amount becomes what is left. More than the balance cannot have left.
    pub fn record_withdrawal(&mut self, balance: u64, amount: u64, now: i64) -> (result: Result<
        (),
        ErrorCode,
    >)
        ensures
            amount > balance ==> result == Err::<(), ErrorCode>(ErrorCode::InsufficientFunds)
                && *final(self) == *old(self),
            amount <= balance ==> result == Ok::<(), ErrorCode>(()) && *final(self)
                == old(self).after_withdrawal(balance, amount, now),
    {
        if amount > balance {
            return Err(ErrorCode::InsufficientFunds);
        }
        self.amount = balance - amount;
        self.last_withdrawal = now;
        Ok(())
    }
}

} // verus!
