//! What holds of the vault controller over more than one operation.

use crate::accounts::{Account, Books, Deposit, InitializeVault, Lock, Unlock, Withdraw};
use crate::address::{derived_view, Address};
use crate::error::ErrorCode;
use crate::identity::{is_vault_address, vault_address};
use crate::program::{
    deposit_pending, deposit_refusal, initialize_vault_result, lock_result, unlock_result,
    withdraw_pending, withdraw_refusal,
};
use crate::transfer::{settlement, Direction, PendingTransferView, TransferOutcome};
use crate::vault::Vault;
use vstd::prelude::*;

verus! {

/// Whether two vault records differ in nothing but the lock.
pub open spec fn same_but_lock(one: Vault, other: Vault) -> bool {
    one == (Vault { locked: one.locked, ..other })
}

/// Whether two vault records are of the same vault: they name the same holding, owner
/// and asset, and were created at the same time.
pub open spec fn same_vault(one: Vault, other: Vault) -> bool {
    &&& one.token_account == other.token_account
    &&& one.owner == other.owner
    &&& one.mint == other.mint
    &&& one.created_at == other.created_at
}

/// The derivation is reproducible: whoever derives the address of the vault of an owner
/// and an asset finds the same address with the same bump seed.
pub proof fn vault_address_is_reproducible(
    one: Option<(Address, u8)>,
    other: Option<(Address, u8)>,
    owner: Address,
    mint: Address,
)
    requires
        derived_view(one) == vault_address(owner, mint),
        derived_view(other) == vault_address(owner, mint),
    ensures
        one == other,
{
    match (one, other) {
        (Some((address, _)), Some((same, _))) => {
            address.view_is_injective(same);
        },
        _ => {},
    }
}

/// An owner and an asset have one vault address: two accounts that both live at the
/// address derived for the pair are one account.
pub proof fn vault_address_is_unique(one: Address, other: Address, owner: Address, mint: Address)
    requires
        is_vault_address(one, owner, mint),
        is_vault_address(other, owner, mint),
    ensures
        one == other,
{
    one.view_is_injective(other);
}

/// A vault is created once. After a vault was created for an owner and an asset, every
/// further request to create one for the same pair fails, at whatever time and whoever
/// asks, as long as the vault is stored where it was created. A request that passes the
/// guard names that very address, and fails with `AlreadyExists`.
pub proof fn vault_is_created_once(
    first: InitializeVault,
    now: i64,
    second: InitializeVault,
    later: i64,
)
    requires
        initialize_vault_result(first, now) is Ok,
        second.owner == first.owner,
        second.mint == first.mint,
        second.vault.key == first.vault.key ==> second.vault.data is Some,
    ensures
        initialize_vault_result(second, later) is Err,
        second.authorized() ==> second.vault.key == first.vault.key && initialize_vault_result(
            second,
            later,
        ) == Err::<InitializeVault, ErrorCode>(ErrorCode::AlreadyExists),
{
    if second.authorized() {
        vault_address_is_unique(second.vault.key, first.vault.key, first.owner, first.mint);
    }
}

/// A vault is created empty and unlocked, for the owner and the asset of the request, and
/// with the holding of the request as its own; the holding is created empty, under the
/// say of the vault.
pub proof fn vault_is_created_empty(ctx: InitializeVault, now: i64)
    ensures
        initialize_vault_result(ctx, now) matches Ok(created) ==> {
            &&& created.vault.data matches Some(vault)
            &&& vault.amount == 0
            &&& !vault.locked
            &&& vault.owner == ctx.owner
            &&& vault.mint == ctx.mint
            &&& vault.token_account == ctx.vault_token_account.key
            &&& vault.created_at == now
            &&& created.vault_token_account.data matches Some(holding)
            &&& holding.amount == vault.amount
            &&& holding.owner == ctx.vault.key
        },
{
}

/// Balance conservation. Whatever the vault recorded before, after a settled deposit or
/// withdrawal it records exactly what its holding has: what the holding had and what
/// came in, or what it had less what went out.
pub proof fn settled_amount_is_holding_balance(
    pending: PendingTransferView,
    outcome: TransferOutcome,
    now: i64,
)
    ensures
        settlement(pending, outcome, now) matches Ok(settled) ==> {
            &&& outcome == TransferOutcome::Completed
            &&& settled.vault.data.amount == settled.vault_token_account.data.amount
            &&& pending.direction == Direction::Deposit ==> settled.vault.data.amount
                == pending.holding.data.amount + pending.order.amount
            &&& pending.direction == Direction::Withdraw ==> settled.vault.data.amount
                == pending.holding.data.amount - pending.order.amount
        },
{
}

/// A deposit that was admitted and completed is settled, unless the holding would have
/// more than a holding can have; a withdrawal that was admitted and completed is always
/// settled. A transfer that failed is never settled.
pub proof fn settlement_follows_the_transfer(
    deposit: Deposit,
    withdraw: Withdraw,
    amount: u64,
    vault_bump: u8,
    now: i64,
)
    ensures
        settlement(deposit_pending(deposit, amount), TransferOutcome::Completed, now) is Ok
            <==> deposit.vault_token_account.data.amount + amount <= u64::MAX,
        withdraw_refusal(withdraw, amount) is None ==> settlement(
            withdraw_pending(withdraw, amount, vault_bump),
            TransferOutcome::Completed,
            now,
        ) is Ok,
        settlement(deposit_pending(deposit, amount), TransferOutcome::Failed, now) == Err::<
            Books,
            ErrorCode,
        >(ErrorCode::TransferFailed),
        settlement(
            withdraw_pending(withdraw, amount, vault_bump),
            TransferOutcome::Failed,
            now,
        ) == Err::<Books, ErrorCode>(ErrorCode::TransferFailed),
{
}

/// Non-negativity. A withdrawal of more than the vault's holding has, from an unlocked
/// vault and by a request that passes the guard, fails with `InsufficientFunds`. One that
/// is admitted takes no more than the holding has, so what the vault records after it
/// is the balance less the amount, and not below zero.
pub proof fn withdrawal_never_overdraws(ctx: Withdraw, amount: u64, vault_bump: u8, now: i64)
    ensures
        ctx.authorized() && !ctx.vault.data.locked && amount
            > ctx.vault_token_account.data.amount ==> withdraw_refusal(ctx, amount) == Some(
            ErrorCode::InsufficientFunds,
        ),
        withdraw_refusal(ctx, amount) is None ==> {
            &&& 0 < amount <= ctx.vault_token_account.data.amount
            &&& settlement(
                withdraw_pending(ctx, amount, vault_bump),
                TransferOutcome::Completed,
                now,
            ) matches Ok(settled)
            &&& settled.vault.data.amount == ctx.vault_token_account.data.amount - amount
            &&& settled.vault.data.amount >= 0
        },
{
}

/// Lock exclusivity. After a lock, every withdrawal that finds the vault as the lock
/// left it and passes the guard fails with `LockedVault`, whatever the amount.
pub proof fn locked_vault_refuses_withdrawals(ctx: Lock, request: Withdraw, amount: u64)
    requires
        lock_result(ctx) matches Ok(locked) && request.vault == locked.vault,
        request.authorized(),
    ensures
        withdraw_refusal(request, amount) == Some(ErrorCode::LockedVault),
{
}

/// After an unlock, the lock stands against no withdrawal that finds the vault as the
/// unlock left it: the withdrawal is admitted or refused as the guard, the amount and
/// the balance say.
pub proof fn unlocked_vault_serves_withdrawals(ctx: Unlock, request: Withdraw, amount: u64)
    requires
        unlock_result(ctx) matches Ok(unlocked) && request.vault == unlocked.vault,
    ensures
        withdraw_refusal(request, amount) != Some(ErrorCode::LockedVault),
        request.authorized() && 0 < amount <= request.vault_token_account.data.amount
            ==> withdraw_refusal(request, amount) is None,
{
}

/// Only a lock and an unlock change the lock: a settled deposit or withdrawal leaves it
/// as it was, with the owner, the asset, the holding and the time of creation.
pub proof fn settlement_keeps_lock_and_identity(
    pending: PendingTransferView,
    outcome: TransferOutcome,
    now: i64,
)
    ensures
        settlement(pending, outcome, now) matches Ok(settled) ==> {
            &&& settled.vault.key == pending.vault.key
            &&& settled.vault.data.locked == pending.vault.data.locked
            &&& same_vault(settled.vault.data, pending.vault.data)
            &&& settled.vault_token_account.key == pending.holding.key
            &&& settled.vault_token_account.data.owner == pending.holding.data.owner
            &&& settled.vault_token_account.data.mint == pending.holding.data.mint
        },
{
}

/// A lock and an unlock change the lock and nothing else.
pub proof fn lock_changes_the_lock_alone(lock: Lock, unlock: Unlock)
    ensures
        lock_result(lock) matches Ok(locked) ==> locked.vault.data.locked && same_but_lock(
            locked.vault.data,
            lock.vault.data,
        ) && locked.vault.key == lock.vault.key,
        unlock_result(unlock) matches Ok(unlocked) ==> !unlocked.vault.data.locked
            && same_but_lock(unlocked.vault.data, unlock.vault.data) && unlocked.vault.key
            == unlock.vault.key,
{
}

/// A deposit does not look at the lock. Two requests that differ in nothing but the lock
/// of the vault are admitted or refused alike, order the same transfer, and are settled
/// alike, each leaving the lock that it found.
pub proof fn deposit_ignores_the_lock(
    ctx: Deposit,
    other: Deposit,
    amount: u64,
    outcome: TransferOutcome,
    now: i64,
)
    requires
        other == (Deposit {
            vault: Account {
                key: ctx.vault.key,
                data: Vault { locked: other.vault.data.locked, ..ctx.vault.data },
            },
            ..ctx
        }),
    ensures
        deposit_refusal(other, amount) == deposit_refusal(ctx, amount),
        deposit_pending(other, amount).order == deposit_pending(ctx, amount).order,
        match (
            settlement(deposit_pending(ctx, amount), outcome, now),
            settlement(deposit_pending(other, amount), outcome, now),
        ) {
            (Ok(one), Ok(two)) => one.vault_token_account == two.vault_token_account
                && same_but_lock(two.vault.data, one.vault.data) && two.vault.data.locked
                == other.vault.data.locked,
            (Err(one), Err(two)) => one == two,
            _ => false,
        },
{
}

/// Locking is not idempotent. After a lock, a second lock that finds the vault as the
/// first left it fails and changes nothing; one that passes the guard, as the first
/// request itself does, fails with `LockedVault`.
pub proof fn second_lock_fails(first: Lock, second: Lock)
    requires
        lock_result(first) matches Ok(locked) && second.vault == locked.vault,
    ensures
        lock_result(second) is Err,
        second.authorized() ==> lock_result(second) == Err::<Lock, ErrorCode>(
            ErrorCode::LockedVault,
        ),
        lock_result(first) matches Ok(locked) && lock_result(locked) == Err::<Lock, ErrorCode>(
            ErrorCode::LockedVault,
        ),
{
}

/// Unlocking is not idempotent. After an unlock, a second unlock that finds the vault as
/// the first left it fails and changes nothing; one that passes the guard, as the first
/// request itself does, fails with `UnlockedVault`.
pub proof fn second_unlock_fails(first: Unlock, second: Unlock)
    requires
        unlock_result(first) matches Ok(unlocked) && second.vault == unlocked.vault,
    ensures
        unlock_result(second) is Err,
        second.authorized() ==> unlock_result(second) == Err::<Unlock, ErrorCode>(
            ErrorCode::UnlockedVault,
        ),
        unlock_result(first) matches Ok(unlocked) && unlock_result(unlocked) == Err::<
            Unlock,
            ErrorCode,
        >(ErrorCode::UnlockedVault),
{
}

} // verus!
