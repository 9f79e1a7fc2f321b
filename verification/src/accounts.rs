//! The accounts that a request brings, and the authorization guard that holds them
//! against the vault they claim.

use crate::address::{is_derived, Address};
use crate::identity::{
    find_holding_address, find_vault_address, is_holding_address, is_vault_address,
};
use crate::vault::Vault;
use vstd::prelude::*;

verus! {

/// What is stored under an address.
#[derive(Clone, Copy, Debug, PartialEq, Eq)]
pub struct Account<T> {
    /// Where the account lives.
    pub key: Address,
    /// What it holds.
    pub data: T,
}

/// A principal, and whether it signed the request.
#[derive(Clone, Copy, Debug, PartialEq, Eq)]
pub struct Signer {
    /// Who the principal is.
    pub key: Address,
    /// Whether the request carries its signature.
    pub is_signer: bool,
}

/// A holding of the token program, as far as the vault reads it.
#[derive(Clone, Copy, Debug, PartialEq, Eq)]
pub struct TokenAccount {
    /// The asset held.
    pub mint: Address,
    /// Who may move the assets out.
    pub owner: Address,
    /// How much is held.
    pub amount: u64,
}

/// The books of a vault: its record and its holding.
#[derive(Clone, Copy, Debug, PartialEq, Eq)]
pub struct Books {
    /// The vault.
    pub vault: Account<Vault>,
    /// The holding of the vault.
    pub vault_token_account: Account<TokenAccount>,
}

/// The accounts of a request to create the vault of `owner` for `mint`.
#[derive(Clone, Copy, Debug, PartialEq, Eq)]
pub struct InitializeVault {
    /// Where the vault is to live, and what lives there now.
    pub vault: Account<Option<Vault>>,
    /// Where the vault's holding is to live, and what lives there now.
    pub vault_token_account: Account<Option<TokenAccount>>,
    /// The principal for whom the vault is kept.
    pub owner: Address,
    /// The asset that the vault is to keep.
    pub mint: Address,
    /// Who asks, and pays for, the creation.
    pub authority: Signer,
}

/// The accounts of a request to deposit into the vault of `owner` for `mint`.
#[derive(Clone, Copy, Debug, PartialEq, Eq)]
pub struct Deposit {
    /// The vault.
    pub vault: Account<Vault>,
    /// The holding that the assets come from.
    pub treasury: Account<TokenAccount>,
    /// The holding of the vault.
    pub vault_token_account: Account<TokenAccount>,
    /// The owner of the vault.
    pub owner: Address,
    /// The asset deposited.
    pub mint: Address,
    /// The depositor, who has the say over the treasury.
    pub authority: Signer,
}

/// The accounts of a request to withdraw from the vault of `owner` for `mint`.
#[derive(Clone, Copy, Debug, PartialEq, Eq)]
pub struct Withdraw {
    /// The vault.
    pub vault: Account<Vault>,
    /// The holding of the vault.
    pub vault_token_account: Account<TokenAccount>,
    /// The owner's own holding, which receives the assets; it may not exist yet.
    pub owner_token_account: Account<Option<TokenAccount>>,
    /// The asset withdrawn.
    pub mint: Address,
    /// The owner of the vault.
    pub owner: Signer,
}

/// The accounts of a request to lock the vault of `owner` for `mint`.
#[derive(Clone, Copy, Debug, PartialEq, Eq)]
pub struct Lock {
    /// The vault.
    pub vault: Account<Vault>,
    /// The owner of the vault.
    pub owner: Address,
    /// The asset that the vault keeps.
    pub mint: Address,
    /// Who asks for the lock.
    pub authority: Signer,
}

/// The accounts of a request to unlock the vault of `owner` for `mint`.
#[derive(Clone, Copy, Debug, PartialEq, Eq)]
pub struct Unlock {
    /// The vault.
    pub vault: Account<Vault>,
    /// The owner of the vault.
    pub owner: Address,
    /// The asset that the vault keeps.
    pub mint: Address,
    /// Who asks for the unlock.
    pub authority: Signer,
}

/// Whether `vault` is the vault of `owner` for `mint`: it lives at the address derived
/// for the two, and its record names `owner`.
pub open spec fn is_vault_of(vault: Account<Vault>, owner: Address, mint: Address) -> bool {
    &&& is_vault_address(vault.key, owner, mint)
    &&& vault.data.owner == owner
}

/// Whether `holding` is the holding that `authority` has for `mint`: it lives at the
/// address derived for the two, and `authority` has the say over it.
pub open spec fn is_holding_of(holding: Account<TokenAccount>, authority: Address, mint: Address)
    -> bool {
    &&& is_holding_address(holding.key, authority, mint)
    &&& holding.data.owner == authority
}

/// Whether `principal` signed the request and is `owner`.
pub open spec fn signed_by(principal: Signer, owner: Address) -> bool {
    principal.is_signer && principal.key == owner
}

/// Holds `vault` against the address derived for `owner` and `mint`, and against the
/// owner that it records.
pub fn check_vault(vault: &Account<Vault>, owner: &Address, mint: &Address) -> (ok: bool)
    ensures
        ok == is_vault_of(*vault, *owner, *mint),
{
    let found = find_vault_address(owner, mint);
    is_derived(&vault.key, &found) && vault.data.owner == *owner
}

/// Holds `holding` against the address derived for `authority` and `mint`, and against
/// the authority that it records.
pub fn check_holding(holding: &Account<TokenAccount>, authority: &Address, mint: &Address) -> (ok:
    bool)
    ensures
        ok == is_holding_of(*holding, *authority, *mint),
{
    let found = find_holding_address(authority, mint);
    is_derived(&holding.key, &found) && holding.data.owner == *authority
}

impl InitializeVault {
    /// The request names the addresses derived for the vault and its holding, and whoever
    /// asks has signed.
    pub open spec fn authorized(self) -> bool {
        &&& is_vault_address(self.vault.key, self.owner, self.mint)
        &&& is_holding_address(self.vault_token_account.key, self.vault.key, self.mint)
        &&& self.authority.is_signer
    }

    /// Whether the request passes the guard.
    pub fn is_authorized(&self) -> (ok: bool)
        ensures
            ok == self.authorized(),
    {
        let vault = find_vault_address(&self.owner, &self.mint);
        if !is_derived(&self.vault.key, &vault) {
            return false;
        }
        let holding = find_holding_address(&self.vault.key, &self.mint);
        is_derived(&self.vault_token_account.key, &holding) && self.authority.is_signer
    }
}

impl Deposit {
    /// The request names the vault of `owner` and its holding, and the depositor has
    /// signed and has the say over the treasury. The depositor need not be the owner.
    pub open spec fn authorized(self) -> bool {
        &&& is_vault_of(self.vault, self.owner, self.mint)
        &&& is_holding_of(self.vault_token_account, self.vault.key, self.mint)
        &&& signed_by(self.authority, self.treasury.data.owner)
    }

    /// Whether the request passes the guard.
    pub fn is_authorized(&self) -> (ok: bool)
        ensures
            ok == self.authorized(),
    {
        check_vault(&self.vault, &self.owner, &self.mint) && check_holding(
            &self.vault_token_account,
            &self.vault.key,
            &self.mint,
        ) && self.authority.is_signer && self.authority.key == self.treasury.data.owner
    }
}

impl Withdraw {
    /// The request names the vault of the owner and its holding, the owner has signed,
    /// and the assets go to the owner's own holding.
    pub open spec fn authorized(self) -> bool {
        &&& is_vault_of(self.vault, self.owner.key, self.mint)
        &&& is_holding_of(self.vault_token_account, self.vault.key, self.mint)
        &&& self.owner.is_signer
        &&& is_holding_address(self.owner_token_account.key, self.owner.key, self.mint)
        &&& self.owner_token_account.data matches Some(holding) ==> holding.owner
            == self.owner.key
    }

    /// Whether the request passes the guard.
    pub fn is_authorized(&self) -> (ok: bool)
        ensures
            ok == self.authorized(),
    {
        if !check_vault(&self.vault, &self.owner.key, &self.mint) {
            return false;
        }
        if !check_holding(&self.vault_token_account, &self.vault.key, &self.mint) {
            return false;
        }
        if !self.owner.is_signer {
            return false;
        }
        let found = find_holding_address(&self.owner.key, &self.mint);
        if !is_derived(&self.owner_token_account.key, &found) {
            return false;
        }
        match self.owner_token_account.data {
            Some(holding) => holding.owner == self.owner.key,
            None => true,
        }
    }
}

impl Lock {
    /// The request names the vault of `owner`, and the owner has signed.
    pub open spec fn authorized(self) -> bool {
        &&& is_vault_of(self.vault, self.owner, self.mint)
        &&& signed_by(self.authority, self.owner)
    }

    /// Whether the request passes the guard.
    pub fn is_authorized(&self) -> (ok: bool)
        ensures
            ok == self.authorized(),
    {
        check_vault(&self.vault, &self.owner, &self.mint) && self.authority.is_signer
            && self.authority.key == self.owner
    }
}

impl Unlock {
    /// The request names the vault of `owner`, and the owner has signed.
    pub open spec fn authorized(self) -> bool {
        &&& is_vault_of(self.vault, self.owner, self.mint)
        &&& signed_by(self.authority, self.owner)
    }

    /// Whether the request passes the guard.
    pub fn is_authorized(&self) -> (ok: bool)
        ensures
            ok == self.authorized(),
    {
        check_vault(&self.vault, &self.owner, &self.mint) && self.authority.is_signer
            && self.authority.key == self.owner
    }
}

} // verus!
