use simple_vault::identity::token_program_id;
use simple_vault::{
    deposit, find_holding_address, find_vault_address, withdraw, Account, Address, CpiContext,
    Deposit, Direction, Signer, TokenAccount, Transfer, TransferOrder, Vault, Withdraw,
};

fn address(fill: u8) -> Address {
    Address::new([fill; 32])
}

fn owner() -> Address {
    address(1)
}

fn mint() -> Address {
    address(2)
}

fn depositor() -> Address {
    address(5)
}

fn treasury_key() -> Address {
    address(6)
}

fn vault_key() -> Address {
    find_vault_address(&owner(), &mint()).unwrap().0
}

fn holding_key(authority: Address) -> Address {
    find_holding_address(&authority, &mint()).unwrap().0
}

fn vault() -> Account<Vault> {
    Account {
        key: vault_key(),
        data: Vault::new(holding_key(vault_key()), owner(), mint(), 2),
    }
}

fn holding(amount: u64) -> Account<TokenAccount> {
    Account {
        key: holding_key(vault_key()),
        data: TokenAccount { mint: mint(), owner: vault_key(), amount },
    }
}

fn deposit_request() -> Deposit {
    Deposit {
        vault: vault(),
        treasury: Account {
            key: treasury_key(),
            data: TokenAccount { mint: mint(), owner: depositor(), amount: 1_000 },
        },
        vault_token_account: holding(0),
        owner: owner(),
        mint: mint(),
        authority: Signer { key: depositor(), is_signer: true },
    }
}

fn withdraw_request() -> Withdraw {
    Withdraw {
        vault: vault(),
        vault_token_account: holding(100),
        owner_token_account: Account { key: holding_key(owner()), data: None },
        mint: mint(),
        owner: Signer { key: owner(), is_signer: true },
    }
}

#[test]
fn cpi_context_new_has_no_signer_seeds() {
    let accounts = Transfer { from: address(1), to: address(2), authority: address(3) };
    let context = CpiContext::new(address(4), accounts);
    assert_eq!(
        context,
        CpiContext { program: address(4), accounts, signer_seeds: Vec::new() }
    );
}

#[test]
fn cpi_context_with_signer_sets_the_seeds_alone() {
    let accounts = Transfer { from: address(1), to: address(2), authority: address(3) };
    let seeds = vec![vec![1u8, 2], vec![3u8]];
    let context = CpiContext::new(address(4), accounts).with_signer(seeds.clone());
    assert_eq!(context, CpiContext { program: address(4), accounts, signer_seeds: seeds });
}

#[test]
fn deposit_ctx_moves_from_the_treasury_to_the_vault_on_the_depositors_say() {
    let context = deposit_request().deposit_ctx();
    assert_eq!(
        context,
        CpiContext {
            program: token_program_id(),
            accounts: Transfer {
                from: treasury_key(),
                to: holding_key(vault_key()),
                authority: depositor(),
            },
            signer_seeds: Vec::new(),
        }
    );
}

#[test]
fn withdraw_ctx_moves_from_the_vault_to_the_owner_on_the_vaults_say() {
    let context = withdraw_request().withdraw_ctx();
    assert_eq!(
        context,
        CpiContext {
            program: token_program_id(),
            accounts: Transfer {
                from: holding_key(vault_key()),
                to: holding_key(owner()),
                authority: vault_key(),
            },
            signer_seeds: Vec::new(),
        }
    );
}

#[test]
fn deposit_orders_the_transfer_of_the_amount() {
    let request = deposit_request();
    let pending = deposit(&request, 75).unwrap();
    assert_eq!(pending.direction(), Direction::Deposit);
    assert_eq!(
        pending.order(),
        &TransferOrder { context: request.deposit_ctx(), amount: 75, create_destination: false }
    );
}

#[test]
fn withdraw_orders_the_transfer_signed_by_the_vault() {
    let request = withdraw_request();
    let pending = withdraw(&request, 40, 253).unwrap();
    assert_eq!(pending.direction(), Direction::Withdraw);
    let order = pending.order();
    assert_eq!(order.amount, 40);
    assert_eq!(order.context.program, token_program_id());
    assert_eq!(order.context.accounts, request.withdraw_ctx().accounts);
    assert_eq!(
        order.context.signer_seeds,
        vec![b"vault".to_vec(), vec![1u8; 32], vec![2u8; 32], vec![253u8]]
    );
}

#[test]
fn withdraw_has_the_owners_holding_created_where_there_is_none() {
    let mut request = withdraw_request();
    assert!(withdraw(&request, 40, 255).unwrap().order().create_destination);
    request.owner_token_account.data =
        Some(TokenAccount { mint: mint(), owner: owner(), amount: 3 });
    assert!(!withdraw(&request, 40, 255).unwrap().order().create_destination);
}
