//! A vault controller: it keeps, for an owner and an asset, the record of what was
//! deposited on the owner's behalf, lets the owner alone withdraw, lock and unlock, and
//! leaves the movement of the assets to the token program.
//!
//! The controller decides and records; it moves nothing itself. [`deposit`] and
//! [`withdraw`] hold a request against the guard and the ledger and yield a
//! [`PendingTransfer`] with the order for the token program. Whoever runs the controller
//! carries the order out and settles the pending transfer with the token program's
//! answer:
//!
//! ```text
//! let pending = deposit(&accounts, 100)?;
//! let outcome = carry_out(pending.order());
//! let books = pending.settle(outcome, now)?;
//! ```
//!
//! - [`address`]: addresses, and the primitive that derives them from seeds;
//! - [`identity`]: where a vault and its holding live, and the seeds by which a vault signs;
//! - [`vault`]: the vault record, with the balance ledger and the lock;
//! - [`accounts`]: the accounts of each request, and the authorization guard;
//! - [`transfer`]: orders for the token program, and their settlement;
//! - [`program`]: the five operations;
//! - [`laws`] and [`history`]: what is proved of the operations, one by one and in
//!   sequence.

pub mod accounts;
pub mod address;
pub mod error;
pub mod history;
pub mod identity;
pub mod laws;
pub mod program;
pub mod transfer;
pub mod vault;

pub use accounts::{
    Account, Books, Deposit, InitializeVault, Lock, Signer, TokenAccount, Unlock, Withdraw,
};
pub use address::Address;
pub use error::ErrorCode;
pub use identity::{
    find_holding_address, find_vault_address, id, vault_signer_seeds, ASSOCIATED_TOKEN_PROGRAM_ID,
    ID, TOKEN_PROGRAM_ID, VAULT_KEY,
};
pub use program::{deposit, initialize_vault, lock, unlock, withdraw};
pub use transfer::{
    CpiContext, Direction, PendingTransfer, Transfer, TransferOrder, TransferOutcome,
};
pub use vault::Vault;
