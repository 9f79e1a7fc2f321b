use simple_vault::accounts::{check_holding, check_vault};
use simple_vault::{
    deposit, find_holding_address, find_vault_address, initialize_vault, lock, unlock, withdraw,
    Account, Address, Deposit, ErrorCode, InitializeVault, Lock, Signer, TokenAccount, Unlock,
    Vault, Withdraw,
};

fn address(fill: u8) -> Address {
    Address::new([fill; 32])
}

fn owner() -> Address {
    address(1)
}

fn mint() -> Address {
    address(2)
}

fn depositor() -> Address {
    address(5)
}

fn stranger() -> Address {
    address(9)
}

fn signed(key: Address) -> Signer {
    Signer { key, is_signer: true }
}

fn unsigned(key: Address) -> Signer {
    Signer { key, is_signer: false }
}

fn vault_key() -> Address {
    find_vault_address(&owner(), &mint()).unwrap().0
}

fn holding_key(authority: Address) -> Address {
    find_holding_address(&authority, &mint()).unwrap().0
}

fn vault() -> Account<Vault> {
    Account {
        key: vault_key(),
        data: Vault {
            token_account: holding_key(vault_key()),
            owner: owner(),
            mint: mint(),
            amount: 100,
            locked: false,
            last_deposit: 3,
            last_withdrawal: 0,
            created_at: 2,
        },
    }
}

fn holding() -> Account<TokenAccount> {
    Account {
        key: holding_key(vault_key()),
        data: TokenAccount { mint: mint(), owner: vault_key(), amount: 100 },
    }
}

fn initialize_request() -> InitializeVault {
    InitializeVault {
        vault: Account { key: vault_key(), data: None },
        vault_token_account: Account { key: holding_key(vault_key()), data: None },
        owner: owner(),
        mint: mint(),
        authority: signed(stranger()),
    }
}

fn deposit_request() -> Deposit {
    Deposit {
        vault: vault(),
        treasury: Account {
            key: address(6),
            data: TokenAccount { mint: mint(), owner: depositor(), amount: 1_000 },
        },
        vault_token_account: holding(),
        owner: owner(),
        mint: mint(),
        authority: signed(depositor()),
    }
}

fn withdraw_request() -> Withdraw {
    Withdraw {
        vault: vault(),
        vault_token_account: holding(),
        owner_token_account: Account { key: holding_key(owner()), data: None },
        mint: mint(),
        owner: signed(owner()),
    }
}

fn lock_request() -> Lock {
    Lock { vault: vault(), owner: owner(), mint: mint(), authority: signed(owner()) }
}

fn unlock_request() -> Unlock {
    let mut vault = vault();
    vault.data.locked = true;
    Unlock { vault, owner: owner(), mint: mint(), authority: signed(owner()) }
}

fn assert_deposit_unauthorized(request: Deposit) {
    assert!(!request.is_authorized());
    assert!(matches!(deposit(&request, 10), Err(ErrorCode::Unauthorized)));
    assert!(matches!(deposit(&request, 0), Err(ErrorCode::Unauthorized)));
}

fn assert_withdraw_unauthorized(request: Withdraw) {
    assert!(!request.is_authorized());
    assert!(matches!(withdraw(&request, 10, 255), Err(ErrorCode::Unauthorized)));
    assert!(matches!(withdraw(&request, 0, 255), Err(ErrorCode::Unauthorized)));
    assert!(matches!(withdraw(&request, 1_000, 255), Err(ErrorCode::Unauthorized)));
}

fn assert_lock_unauthorized(mut request: Lock) {
    let before = request;
    assert!(!request.is_authorized());
    assert_eq!(lock(&mut request), Err(ErrorCode::Unauthorized));
    assert_eq!(request, before);
}

fn assert_unlock_unauthorized(mut request: Unlock) {
    let before = request;
    assert!(!request.is_authorized());
    assert_eq!(unlock(&mut request), Err(ErrorCode::Unauthorized));
    assert_eq!(request, before);
}

fn assert_initialize_unauthorized(mut request: InitializeVault) {
    let before = request;
    assert!(!request.is_authorized());
    assert_eq!(initialize_vault(&mut request, 7), Err(ErrorCode::Unauthorized));
    assert_eq!(request, before);
}

#[test]
fn well_formed_requests_pass_the_guard() {
    assert!(initialize_request().is_authorized());
    assert!(deposit_request().is_authorized());
    assert!(withdraw_request().is_authorized());
    assert!(lock_request().is_authorized());
    assert!(unlock_request().is_authorized());
}

#[test]
fn check_vault_wants_the_derived_address_and_the_recorded_owner() {
    assert!(check_vault(&vault(), &owner(), &mint()));
    assert!(!check_vault(&vault(), &stranger(), &mint()));
    assert!(!check_vault(&vault(), &owner(), &address(3)));
    let mut moved = vault();
    moved.key = address(7);
    assert!(!check_vault(&moved, &owner(), &mint()));
    let mut taken = vault();
    taken.data.owner = stranger();
    assert!(!check_vault(&taken, &owner(), &mint()));
    assert!(!check_vault(&taken, &stranger(), &mint()));
}

#[test]
fn check_holding_wants_the_derived_address_and_the_recorded_authority() {
    assert!(check_holding(&holding(), &vault_key(), &mint()));
    assert!(!check_holding(&holding(), &owner(), &mint()));
    assert!(!check_holding(&holding(), &vault_key(), &address(3)));
    let mut moved = holding();
    moved.key = address(7);
    assert!(!check_holding(&moved, &vault_key(), &mint()));
    let mut taken = holding();
    taken.data.owner = stranger();
    assert!(!check_holding(&taken, &vault_key(), &mint()));
}

#[test]
fn initialize_wants_the_derived_vault_address() {
    let mut request = initialize_request();
    request.vault.key = address(7);
    request.vault_token_account.key = holding_key(address(7));
    assert_initialize_unauthorized(request);
}

#[test]
fn initialize_wants_the_derived_holding_address() {
    let mut request = initialize_request();
    request.vault_token_account.key = holding_key(owner());
    assert_initialize_unauthorized(request);
}

#[test]
fn initialize_wants_a_signature() {
    let mut request = initialize_request();
    request.authority = unsigned(stranger());
    assert_initialize_unauthorized(request);
}

#[test]
fn initialize_guard_stands_before_the_existence_check() {
    let mut request = initialize_request();
    request.vault.data = Some(vault().data);
    request.authority = unsigned(stranger());
    assert_initialize_unauthorized(request);
    request.authority = signed(stranger());
    assert_eq!(initialize_vault(&mut request, 7), Err(ErrorCode::AlreadyExists));
}

#[test]
fn initialize_may_be_asked_by_anyone_who_signs() {
    let mut request = initialize_request();
    request.authority = signed(owner());
    assert_eq!(initialize_vault(&mut request, 7), Ok(()));
    let mut request = initialize_request();
    request.authority = signed(stranger());
    assert_eq!(initialize_vault(&mut request, 7), Ok(()));
}

#[test]
fn deposit_wants_the_vault_of_the_owner() {
    let mut request = deposit_request();
    request.owner = stranger();
    assert_deposit_unauthorized(request);

    let mut request = deposit_request();
    request.vault.data.owner = stranger();
    assert_deposit_unauthorized(request);

    let mut request = deposit_request();
    request.vault.key = address(7);
    assert_deposit_unauthorized(request);

    let mut request = deposit_request();
    request.mint = address(3);
    assert_deposit_unauthorized(request);
}

#[test]
fn deposit_wants_the_holding_of_the_vault() {
    let mut request = deposit_request();
    request.vault_token_account.key = holding_key(owner());
    assert_deposit_unauthorized(request);

    let mut request = deposit_request();
    request.vault_token_account.data.owner = owner();
    assert_deposit_unauthorized(request);
}

#[test]
fn deposit_wants_the_signature_of_the_authority_over_the_treasury() {
    let mut request = deposit_request();
    request.authority = unsigned(depositor());
    assert_deposit_unauthorized(request);

    let mut request = deposit_request();
    request.authority = signed(stranger());
    assert_deposit_unauthorized(request);

    let mut request = deposit_request();
    request.treasury.data.owner = owner();
    assert_deposit_unauthorized(request);
}

#[test]
fn deposit_may_come_from_the_owner_or_from_another() {
    assert!(deposit(&deposit_request(), 10).is_ok());
    let mut request = deposit_request();
    request.treasury.data.owner = owner();
    request.authority = signed(owner());
    assert!(deposit(&request, 10).is_ok());
}

#[test]
fn withdraw_wants_the_vault_of_the_owner() {
    let mut request = withdraw_request();
    request.owner = signed(stranger());
    request.owner_token_account.key = holding_key(stranger());
    assert_withdraw_unauthorized(request);

    let mut request = withdraw_request();
    request.vault.data.owner = stranger();
    assert_withdraw_unauthorized(request);

    let mut request = withdraw_request();
    request.vault.key = address(7);
    assert_withdraw_unauthorized(request);

    let mut request = withdraw_request();
    request.mint = address(3);
    assert_withdraw_unauthorized(request);
}

#[test]
fn withdraw_wants_the_signature_of_the_owner() {
    let mut request = withdraw_request();
    request.owner = unsigned(owner());
    assert_withdraw_unauthorized(request);
}

#[test]
fn withdraw_wants_the_holding_of_the_vault() {
    let mut request = withdraw_request();
    request.vault_token_account.key = holding_key(owner());
    assert_withdraw_unauthorized(request);

    let mut request = withdraw_request();
    request.vault_token_account.data.owner = owner();
    assert_withdraw_unauthorized(request);
}

#[test]
fn withdraw_wants_the_owners_own_holding_as_destination() {
    let mut request = withdraw_request();
    request.owner_token_account.key = holding_key(stranger());
    assert_withdraw_unauthorized(request);

    let mut request = withdraw_request();
    request.owner_token_account.data =
        Some(TokenAccount { mint: mint(), owner: stranger(), amount: 0 });
    assert_withdraw_unauthorized(request);

    let mut request = withdraw_request();
    request.owner_token_account.data =
        Some(TokenAccount { mint: mint(), owner: owner(), amount: 12 });
    assert!(request.is_authorized());
    assert!(withdraw(&request, 10, 255).is_ok());
}

#[test]
fn withdraw_guard_stands_before_the_lock() {
    let mut request = withdraw_request();
    request.vault.data.locked = true;
    assert!(matches!(withdraw(&request, 10, 255), Err(ErrorCode::LockedVault)));
    request.owner = unsigned(owner());
    assert!(matches!(withdraw(&request, 10, 255), Err(ErrorCode::Unauthorized)));
}

#[test]
fn lock_wants_the_signature_of_the_owner() {
    let mut request = lock_request();
    request.authority = unsigned(owner());
    assert_lock_unauthorized(request);

    let mut request = lock_request();
    request.authority = signed(stranger());
    assert_lock_unauthorized(request);

    let mut request = lock_request();
    request.owner = stranger();
    request.authority = signed(stranger());
    assert_lock_unauthorized(request);
}

#[test]
fn lock_wants_the_vault_of_the_owner() {
    let mut request = lock_request();
    request.vault.key = address(7);
    assert_lock_unauthorized(request);

    let mut request = lock_request();
    request.vault.data.owner = stranger();
    assert_lock_unauthorized(request);

    let mut request = lock_request();
    request.mint = address(3);
    assert_lock_unauthorized(request);
}

#[test]
fn lock_guard_stands_before_the_lock_state() {
    let mut request = lock_request();
    request.vault.data.locked = true;
    request.authority = signed(stranger());
    assert_lock_unauthorized(request);
    request.authority = signed(owner());
    assert_eq!(lock(&mut request), Err(ErrorCode::LockedVault));
}

#[test]
fn unlock_wants_the_signature_of_the_owner() {
    let mut request = unlock_request();
    request.authority = unsigned(owner());
    assert_unlock_unauthorized(request);

    let mut request = unlock_request();
    request.authority = signed(stranger());
    assert_unlock_unauthorized(request);
}

#[test]
fn unlock_wants_the_vault_of_the_owner() {
    let mut request = unlock_request();
    request.vault.key = address(7);
    assert_unlock_unauthorized(request);

    let mut request = unlock_request();
    request.vault.data.owner = stranger();
    assert_unlock_unauthorized(request);

    let mut request = unlock_request();
    request.mint = address(3);
    assert_unlock_unauthorized(request);
}
