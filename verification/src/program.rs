//! The operations of the vault controller: create a vault, deposit into it, withdraw
//! from it, lock it and unlock it.
//!
//! Every operation first passes the authorization guard. A deposit or a withdrawal then
//! yields the order for the token program; the vault's books change only when the
//! transfer is settled.

use crate::accounts::{Account, Deposit, InitializeVault, Lock, TokenAccount, Unlock, Withdraw};
use crate::error::ErrorCode;
use crate::identity::{signer_seeds, vault_signer_seeds};
use crate::transfer::{
    unsigned_call, CpiContextView, Direction, PendingTransfer, PendingTransferView,
    TransferOrder, TransferOrderView,
};
use crate::vault::Vault;
use vstd::prelude::*;

verus! {

/// What creating a vault at time `now` comes to: refused where the guard does not pass,
/// refused where the vault or its holding is there already, and else the accounts with
/// the new vault and its empty holding.
pub open spec fn initialize_vault_result(ctx: InitializeVault, now: i64) -> Result<
    InitializeVault,
    ErrorCode,
> {
    if !ctx.authorized() {
        Err(ErrorCode::Unauthorized)
    } else if ctx.vault.data is Some || ctx.vault_token_account.data is Some {
        Err(ErrorCode::AlreadyExists)
    } else {
        Ok(
            InitializeVault {
                vault: Account {
                    key: ctx.vault.key,
                    data: Some(
                        Vault::created(ctx.vault_token_account.key, ctx.owner, ctx.mint, now),
                    ),
                },
                vault_token_account: Account {
                    key: ctx.vault_token_account.key,
                    data: Some(TokenAccount { mint: ctx.mint, owner: ctx.vault.key, amount: 0 }),
                },
                ..ctx
            },
        )
    }
}

/// What locking comes to: refused where the guard does not pass or the vault is locked,
/// and else the accounts with the vault locked.
pub open spec fn lock_result(ctx: Lock) -> Result<Lock, ErrorCode> {
    if !ctx.authorized() {
        Err(ErrorCode::Unauthorized)
    } else if ctx.vault.data.locked {
        Err(ErrorCode::LockedVault)
    } else {
        Ok(
            Lock {
                vault: Account {
                    key: ctx.vault.key,
                    data: Vault { locked: true, ..ctx.vault.data },
                },
                ..ctx
            },
        )
    }
}

/// What unlocking comes to: refused where the guard does not pass or the vault is not
/// locked, and else the accounts with the vault unlocked.
pub open spec fn unlock_result(ctx: Unlock) -> Result<Unlock, ErrorCode> {
    if !ctx.authorized() {
        Err(ErrorCode::Unauthorized)
    } else if !ctx.vault.data.locked {
        Err(ErrorCode::UnlockedVault)
    } else {
        Ok(
            Unlock {
                vault: Account {
                    key: ctx.vault.key,
                    data: Vault { locked: false, ..ctx.vault.data },
                },
                ..ctx
            },
        )
    }
}

/// What stands against a deposit of `amount`: the guard first, then a zero amount. The
/// lock does not.
pub open spec fn deposit_refusal(ctx: Deposit, amount: u64) -> Option<ErrorCode> {
    if !ctx.authorized() {
        Some(ErrorCode::Unauthorized)
    } else if amount == 0 {
        Some(ErrorCode::InvalidAmount)
    } else {
        None
    }
}

/// What stands against a withdrawal of `amount`: the guard first, then the lock, then a
/// zero amount, then the balance of the vault's holding.
pub open spec fn withdraw_refusal(ctx: Withdraw, amount: u64) -> Option<ErrorCode> {
    if !ctx.authorized() {
        Some(ErrorCode::Unauthorized)
    } else {
        ctx.vault.data.withdrawal_refusal(amount, ctx.vault_token_account.data.amount)
    }
}

/// The pending transfer of a deposit of `amount`: the depositor signs, and the vault's
/// holding is there to be credited.
pub open spec fn deposit_pending(ctx: Deposit, amount: u64) -> PendingTransferView {
    PendingTransferView {
        vault: ctx.vault,
        holding: ctx.vault_token_account,
        direction: Direction::Deposit,
        order: TransferOrderView {
            context: unsigned_call(ctx.transfer()),
            amount,
            create_destination: false,
        },
    }
}

/// The pending transfer of a withdrawal of `amount`: the vault signs by its seeds with
/// `vault_bump`, and the owner's holding is created where there is none yet.
pub open spec fn withdraw_pending(ctx: Withdraw, amount: u64, vault_bump: u8)
    -> PendingTransferView {
    PendingTransferView {
        vault: ctx.vault,
        holding: ctx.vault_token_account,
        direction: Direction::Withdraw,
        order: TransferOrderView {
            context: CpiContextView {
                signer_seeds: signer_seeds(ctx.owner.key, ctx.mint, vault_bump),
                ..unsigned_call(ctx.transfer())
            },
            amount,
            create_destination: ctx.owner_token_account.data is None,
        },
    }
}

/// Creates the vault of `ctx.owner` for `ctx.mint` at time `now`, with its holding. A
/// pair has one vault: where one is there already, none is created.
pub fn initialize_vault(ctx: &mut InitializeVault, now: i64) -> (result: Result<(), ErrorCode>)
    ensures
        match initialize_vault_result(*old(ctx), now) {
            Ok(after) => result is Ok && *final(ctx) == after,
            Err(error) => result == Err::<(), ErrorCode>(error) && *final(ctx) == *old(ctx),
        },
{
    if !ctx.is_authorized() {
        return Err(ErrorCode::Unauthorized);
    }
    if ctx.vault.data.is_some() || ctx.vault_token_account.data.is_some() {
        return Err(ErrorCode::AlreadyExists);
    }
    ctx.vault.data = Some(Vault::new(ctx.vault_token_account.key, ctx.owner, ctx.mint, now));
    ctx.vault_token_account.data = Some(
        TokenAccount { mint: ctx.mint, owner: ctx.vault.key, amount: 0 },
    );
    Ok(())
}

/// Admits a deposit of `amount` and yields the transfer to carry out. Nothing is
/// recorded, and no transfer is ordered, where the deposit is refused.
pub fn deposit(ctx: &Deposit, amount: u64) -> (result: Result<PendingTransfer, ErrorCode>)
    ensures
        match deposit_refusal(*ctx, amount) {
            Some(error) => result matches Err(refused) && refused == error,
            None => result matches Ok(pending) && pending@ == deposit_pending(*ctx, amount),
        },
{
    if !ctx.is_authorized() {
        return Err(ErrorCode::Unauthorized);
    }
    if amount == 0 {
        return Err(ErrorCode::InvalidAmount);
    }
    let order = TransferOrder { context: ctx.deposit_ctx(), amount, create_destination: false };
    Ok(PendingTransfer::begin(ctx.vault, ctx.vault_token_account, Direction::Deposit, order))
}

/// Admits a withdrawal of `amount` and yields the transfer to carry out, which the vault
/// signs by its seeds with `vault_bump`. Nothing is recorded, and no transfer is ordered,
/// where the withdrawal is refused.
pub fn withdraw(ctx: &Withdraw, amount: u64, vault_bump: u8) -> (result: Result<
    PendingTransfer,
    ErrorCode,
>)
    ensures
        match withdraw_refusal(*ctx, amount) {
            Some(error) => result matches Err(refused) && refused == error,
            None => result matches Ok(pending) && pending@ == withdraw_pending(
                *ctx,
                amount,
                vault_bump,
            ),
        },
{
    if !ctx.is_authorized() {
        return Err(ErrorCode::Unauthorized);
    }
    match ctx.vault.data.check_withdrawal(amount, ctx.vault_token_account.data.amount) {
        Err(error) => Err(error),
        Ok(()) => {
            let seeds = vault_signer_seeds(&ctx.owner.key, &ctx.mint, vault_bump);
            let order = TransferOrder {
                context: ctx.withdraw_ctx().with_signer(seeds),
                amount,
                create_destination: ctx.owner_token_account.data.is_none(),
            };
            Ok(
                PendingTransfer::begin(
                    ctx.vault,
                    ctx.vault_token_account,
                    Direction::Withdraw,
                    order,
                ),
            )
        },
    }
}

/// Locks the vault: withdrawals are refused until it is unlocked.
pub fn lock(ctx: &mut Lock) -> (result: Result<(), ErrorCode>)
    ensures
        match lock_result(*old(ctx)) {
            Ok(after) => result is Ok && *final(ctx) == after,
            Err(error) => result == Err::<(), ErrorCode>(error) && *final(ctx) == *old(ctx),
        },
{
    if !ctx.is_authorized() {
        return Err(ErrorCode::Unauthorized);
    }
    ctx.vault.data.lock()
}

/// Unlocks the vault: withdrawals are served again.
pub fn unlock(ctx: &mut Unlock) -> (result: Result<(), ErrorCode>)
    ensures
        match unlock_result(*old(ctx)) {
            Ok(after) => result is Ok && *final(ctx) == after,
            Err(error) => result == Err::<(), ErrorCode>(error) && *final(ctx) == *old(ctx),
        },
{
    if !ctx.is_authorized() {
        return Err(ErrorCode::Unauthorized);
    }
    ctx.vault.data.unlock()
}

} // verus!
