//! The transfer adapter: the order that the token program is to carry out for a deposit
//! or a withdrawal, and the settlement of the vault's books once it has answered.

use crate::accounts::{Account, Books, Deposit, TokenAccount, Withdraw};
use crate::address::Address;
use crate::error::ErrorCode;
use crate::identity::{token_program, token_program_id};
use crate::vault::Vault;
use vstd::prelude::*;

verus! {

/// The accounts of a transfer: where the assets leave, where they arrive, and who has
/// the say over the holding that they leave.
#[derive(Clone, Copy, Debug, PartialEq, Eq)]
pub struct Transfer {
    /// The holding that is debited.
    pub from: Address,
    /// The holding that is credited.
    pub to: Address,
    /// Who authorizes the debit.
    pub authority: Address,
}

/// A call of another program: the program, the accounts it is to act on, and the seeds
/// of the derived address that signs the call, if one does.
#[derive(Clone, Debug, PartialEq, Eq)]
pub struct CpiContext {
    /// The program called.
    pub program: Address,
    /// The accounts of the call.
    pub accounts: Transfer,
    /// The seeds of the derived address that signs; empty where a principal signed.
    pub signer_seeds: Vec<Vec<u8>>,
}

/// The model of a `CpiContext`.
pub struct CpiContextView {
    pub program: Address,
    pub accounts: Transfer,
    pub signer_seeds: Seq<Seq<u8>>,
}

impl View for CpiContext {
    type V = CpiContextView;

    open spec fn view(&self) -> CpiContextView {
        CpiContextView {
            program: self.program,
            accounts: self.accounts,
            signer_seeds: self.signer_seeds.deep_view(),
        }
    }
}

impl CpiContext {
    /// A call of `program` on `accounts` that no derived address signs.
    pub fn new(program: Address, accounts: Transfer) -> (context: CpiContext)
        ensures
            context@ == (CpiContextView { program, accounts, signer_seeds: Seq::empty() }),
    {
        let context = CpiContext { program, accounts, signer_seeds: Vec::new() };
        assert(context.signer_seeds.deep_view() =~= Seq::<Seq<u8>>::empty());
        context
    }

    /// The same call, signed by the derived address of `signer_seeds`.
    pub fn with_signer(self, signer_seeds: Vec<Vec<u8>>) -> (context: CpiContext)
        ensures
            context@ == (CpiContextView { signer_seeds: signer_seeds.deep_view(), ..self@ }),
    {
        CpiContext { program: self.program, accounts: self.accounts, signer_seeds }
    }
}

/// The call of the token program on `accounts` that no derived address signs.
pub open spec fn unsigned_call(accounts: Transfer) -> CpiContextView {
    CpiContextView { program: token_program(), accounts, signer_seeds: Seq::empty() }
}

impl Deposit {
    /// The transfer of a deposit: out of the treasury, into the vault's holding, on the
    /// depositor's say.
    pub open spec fn transfer(self) -> Transfer {
        Transfer {
            from: self.treasury.key,
            to: self.vault_token_account.key,
            authority: self.authority.key,
        }
    }

    /// The call of the token program that carries out a deposit.
    pub fn deposit_ctx(&self) -> (context: CpiContext)
        ensures
            context@ == unsigned_call(self.transfer()),
    {
        CpiContext::new(
            token_program_id(),
            Transfer {
                from: self.treasury.key,
                to: self.vault_token_account.key,
                authority: self.authority.key,
            },
        )
    }
}

impl Withdraw {
    /// The transfer of a withdrawal: out of the vault's holding, into the owner's own
    /// holding, on the say of the vault itself.
    pub open spec fn transfer(self) -> Transfer {
        Transfer {
            from: self.vault_token_account.key,
            to: self.owner_token_account.key,
            authority: self.vault.key,
        }
    }

    /// The call of the token program that carries out a withdrawal, not yet signed.
    pub fn withdraw_ctx(&self) -> (context: CpiContext)
        ensures
            context@ == unsigned_call(self.transfer()),
    {
        CpiContext::new(
            token_program_id(),
            Transfer {
                from: self.vault_token_account.key,
                to: self.owner_token_account.key,
                authority: self.vault.key,
            },
        )
    }
}

/// Which way the assets move.
#[derive(Clone, Copy, Debug, PartialEq, Eq, Structural)]
pub enum Direction {
    /// Into the vault's holding.
    Deposit,
    /// Out of the vault's holding.
    Withdraw,
}

/// What the token program answered to an order.
#[derive(Clone, Copy, Debug, PartialEq, Eq, Structural)]
pub enum TransferOutcome {
    /// The assets were moved.
    Completed,
    /// The token program refused, and nothing was moved.
    Failed,
}

/// What the token program is asked to do.
#[derive(Clone, Debug, PartialEq, Eq)]
pub struct TransferOrder {
    /// The call to make.
    pub context: CpiContext,
    /// How much to move.
    pub amount: u64,
    /// Whether the holding that is credited has to be created first.
    pub create_destination: bool,
}

/// The model of a `TransferOrder`.
pub struct TransferOrderView {
    pub context: CpiContextView,
    pub amount: u64,
    pub create_destination: bool,
}

impl View for TransferOrder {
    type V = TransferOrderView;

    open spec fn view(&self) -> TransferOrderView {
        TransferOrderView {
            context: self.context@,
            amount: self.amount,
            create_destination: self.create_destination,
        }
    }
}

/// A deposit or withdrawal that has been admitted and waits for the token program. It
/// is made by `deposit` and `withdraw` alone, so an order exists only for a request that
/// passed every check.
#[derive(Debug)]
pub struct PendingTransfer {
    vault: Account<Vault>,
    holding: Account<TokenAccount>,
    direction: Direction,
    order: TransferOrder,
}

/// The model of a `PendingTransfer`.
pub struct PendingTransferView {
    /// The vault as it was when the request was admitted.
    pub vault: Account<Vault>,
    /// The holding of the vault as it was then.
    pub holding: Account<TokenAccount>,
    /// Which way the assets move.
    pub direction: Direction,
    /// What the token program is asked to do.
    pub order: TransferOrderView,
}

impl View for PendingTransfer {
    type V = PendingTransferView;

    closed spec fn view(&self) -> PendingTransferView {
        PendingTransferView {
            vault: self.vault,
            holding: self.holding,
            direction: self.direction,
            order: self.order@,
        }
    }
}

/// `holding` with the balance `amount`.
pub open spec fn with_balance(holding: Account<TokenAccount>, amount: u64) -> Account<
    TokenAccount,
> {
    Account { key: holding.key, data: TokenAccount { amount, ..holding.data } }
}

/// How a pending transfer is settled. Where the token program failed, nothing is
/// recorded. Where it completed a deposit, the holding has what it had and what came in,
/// and the vault records that sum; a sum that no holding can have counts as a failure.
/// Where it completed a withdrawal, the holding has what it had less what went out, and
/// the vault records the rest.
pub open spec fn settlement(pending: PendingTransferView, outcome: TransferOutcome, now: i64)
    -> Result<Books, ErrorCode> {
    let balance = pending.holding.data.amount;
    let amount = pending.order.amount;
    match (outcome, pending.direction) {
        (TransferOutcome::Failed, _) => Err(ErrorCode::TransferFailed),
        (TransferOutcome::Completed, Direction::Deposit) => if balance + amount > u64::MAX {
            Err(ErrorCode::TransferFailed)
        } else {
            Ok(
                Books {
                    vault: Account {
                        key: pending.vault.key,
                        data: pending.vault.data.after_deposit(balance, amount, now),
                    },
                    vault_token_account: with_balance(pending.holding, (balance + amount) as u64),
                },
            )
        },
        (TransferOutcome::Completed, Direction::Withdraw) => if amount > balance {
            Err(ErrorCode::InsufficientFunds)
        } else {
            Ok(
                Books {
                    vault: Account {
                        key: pending.vault.key,
                        data: pending.vault.data.after_withdrawal(balance, amount, now),
                    },
                    vault_token_account: with_balance(pending.holding, (balance - amount) as u64),
                },
            )
        },
    }
}

impl PendingTransfer {
    /// The pending transfer of `order` for `vault` and its `holding`.
    pub(crate) fn begin(
        vault: Account<Vault>,
        holding: Account<TokenAccount>,
        direction: Direction,
        order: TransferOrder,
    ) -> (pending: PendingTransfer)
        ensures
            pending@ == (PendingTransferView { vault, holding, direction, order: order@ }),
    {
        PendingTransfer { vault, holding, direction, order }
    }

    /// What the token program is to do before the transfer can be settled.
    pub fn order(&self) -> (order: &TransferOrder)
        ensures
            order@ == self@.order,
    {
        &self.order
    }

    /// Which way the assets move.
    pub fn direction(&self) -> (direction: Direction)
        ensures
            direction == self@.direction,
    {
        self.direction
    }

    /// Settles the transfer at time `now`, once the token program has answered `outcome`.
    /// After a settlement the vault records exactly what its holding has.
    pub fn settle(self, outcome: TransferOutcome, now: i64) -> (result: Result<
        Books,
        ErrorCode,
    >)
        ensures
            result == settlement(self@, outcome, now),
            result matches Ok(settled) ==> settled.vault.data.amount
                == settled.vault_token_account.data.amount,
    {
        let mut vault = self.vault;
        let mut holding = self.holding;
        let balance = holding.data.amount;
        let amount = self.order.amount;
        match outcome {
            TransferOutcome::Failed => Err(ErrorCode::TransferFailed),
            TransferOutcome::Completed => {
                let recorded = match self.direction {
                    Direction::Deposit => vault.data.record_deposit(balance, amount, now),
                    Direction::Withdraw => vault.data.record_withdrawal(balance, amount, now),
                };
                match recorded {
                    Ok(()) => {
                        holding.data.amount = vault.data.amount;
                        Ok(Books { vault, vault_token_account: holding })
                    },
                    Err(error) => Err(error),
                }
            },
        }
    }
}

} // verus!
