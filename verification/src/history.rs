//! What holds of a vault over every sequence of requests that were served, one after
//! the other, each finding the vault and its holding as the one before left them.

use crate::accounts::{Account, Books, Deposit, InitializeVault, Lock, Unlock, Withdraw};
use crate::error::ErrorCode;
use crate::laws::{same_vault, vault_is_created_once};
use crate::program::{
    deposit_pending, deposit_refusal, initialize_vault_result, lock_result, unlock_result,
    withdraw_pending, withdraw_refusal,
};
use crate::transfer::{settlement, TransferOutcome};
use vstd::prelude::*;

verus! {

/// A request to a vault, with all that decides what becomes of it.
pub enum Request {
    /// A deposit of `amount`, whose transfer the token program answered with `outcome`.
    Deposit { accounts: Deposit, amount: u64, outcome: TransferOutcome, now: i64 },
    /// A withdrawal of `amount`, whose transfer the token program answered with `outcome`.
    Withdraw {
        accounts: Withdraw,
        amount: u64,
        vault_bump: u8,
        outcome: TransferOutcome,
        now: i64,
    },
    /// A lock.
    Lock { accounts: Lock },
    /// An unlock.
    Unlock { accounts: Unlock },
}

/// The books that `request` leaves where it finds `books` and succeeds; `None` where it
/// names another vault or holding, or is refused, or its transfer is not settled.
pub open spec fn served(books: Books, request: Request) -> Option<Books> {
    match request {
        Request::Deposit { accounts, amount, outcome, now } => {
            if accounts.vault == books.vault && accounts.vault_token_account
                == books.vault_token_account && deposit_refusal(accounts, amount) is None {
                match settlement(deposit_pending(accounts, amount), outcome, now) {
                    Ok(after) => Some(after),
                    Err(_) => None,
                }
            } else {
                None
            }
        },
        Request::Withdraw { accounts, amount, vault_bump, outcome, now } => {
            if accounts.vault == books.vault && accounts.vault_token_account
                == books.vault_token_account && withdraw_refusal(accounts, amount) is None {
                match settlement(withdraw_pending(accounts, amount, vault_bump), outcome, now) {
                    Ok(after) => Some(after),
                    Err(_) => None,
                }
            } else {
                None
            }
        },
        Request::Lock { accounts } => {
            if accounts.vault == books.vault {
                match lock_result(accounts) {
                    Ok(after) => Some(Books { vault: after.vault, ..books }),
                    Err(_) => None,
                }
            } else {
                None
            }
        },
        Request::Unlock { accounts } => {
            if accounts.vault == books.vault {
                match unlock_result(accounts) {
                    Ok(after) => Some(Books { vault: after.vault, ..books }),
                    Err(_) => None,
                }
            } else {
                None
            }
        },
    }
}

/// The books after `requests` were served in turn, starting from `books`; `None` where
/// one of them was not served.
pub open spec fn replayed(books: Books, requests: Seq<Request>) -> Option<Books>
    decreases requests.len(),
{
    if requests.len() == 0 {
        Some(books)
    } else {
        match replayed(books, requests.drop_last()) {
            Some(before) => served(before, requests.last()),
            None => None,
        }
    }
}

/// Whether the vault records what its holding has.
pub open spec fn balanced(books: Books) -> bool {
    books.vault.data.amount == books.vault_token_account.data.amount
}

/// Whether the vault and the holding of `after` are those of `before`: at the same
/// addresses, for the same owner and asset, created at the same time.
pub open spec fn same_books(after: Books, before: Books) -> bool {
    &&& after.vault.key == before.vault.key
    &&& same_vault(after.vault.data, before.vault.data)
    &&& after.vault_token_account.key == before.vault_token_account.key
    &&& after.vault_token_account.data.owner == before.vault_token_account.data.owner
    &&& after.vault_token_account.data.mint == before.vault_token_account.data.mint
}

/// Where a sequence of requests was served, each of its beginnings was served.
pub proof fn beginning_was_served(books: Books, requests: Seq<Request>, n: int)
    requires
        replayed(books, requests) is Some,
        0 <= n <= requests.len(),
    ensures
        replayed(books, requests.take(n)) is Some,
        n > 0 ==> replayed(books, requests.take(n)) == served(
            replayed(books, requests.take(n - 1))->0,
            requests[n - 1],
        ) && replayed(books, requests.take(n - 1)) is Some,
    decreases requests.len(),
{
    if n == requests.len() {
        assert(requests.take(n) =~= requests);
    } else {
        assert(requests.drop_last().take(n) =~= requests.take(n));
        beginning_was_served(books, requests.drop_last(), n);
        if n > 0 {
            assert(requests.drop_last().take(n - 1) =~= requests.take(n - 1));
        }
    }
}

/// Balance conservation over a history. Immediately after every deposit and every
/// withdrawal in a sequence of served requests, the vault records what its holding has;
/// and a vault that did so at the start does so after every request.
pub proof fn history_keeps_the_balance(books: Books, requests: Seq<Request>, n: int)
    requires
        replayed(books, requests) is Some,
        0 <= n <= requests.len(),
    ensures
        replayed(books, requests.take(n)) matches Some(after) && {
            &&& n > 0 && (requests[n - 1] is Deposit || requests[n - 1] is Withdraw)
                ==> balanced(after)
            &&& balanced(books) ==> balanced(after)
        },
    decreases n,
{
    beginning_was_served(books, requests, n);
    if n > 0 {
        history_keeps_the_balance(books, requests, n - 1);
    }
}

/// A history keeps the vault. After every request in a sequence of served requests the
/// vault and its holding are at the addresses where they were, for the same owner and
/// asset, with the same time of creation: no request removes a vault or puts another
/// in its place.
pub proof fn history_keeps_the_vault(books: Books, requests: Seq<Request>, n: int)
    requires
        replayed(books, requests) is Some,
        0 <= n <= requests.len(),
    ensures
        replayed(books, requests.take(n)) matches Some(after) && same_books(after, books),
    decreases n,
{
    beginning_was_served(books, requests, n);
    if n > 0 {
        history_keeps_the_vault(books, requests, n - 1);
    }
}

/// Whether `requests` holds an unlock after position `i` and before position `j`.
pub open spec fn unlocked_between(requests: Seq<Request>, i: int, j: int) -> bool {
    exists|k: int| i < k < j && #[trigger] requests[k] is Unlock
}

/// Whether `requests` holds a lock after position `i` and before position `j`.
pub open spec fn locked_between(requests: Seq<Request>, i: int, j: int) -> bool {
    exists|k: int| i < k < j && #[trigger] requests[k] is Lock
}

/// After a lock the vault stays locked as long as no unlock is served.
pub proof fn lock_stays(books: Books, requests: Seq<Request>, i: int, n: int)
    requires
        replayed(books, requests) is Some,
        0 <= i < n <= requests.len(),
        requests[i] is Lock,
        !unlocked_between(requests, i, n),
    ensures
        replayed(books, requests.take(n)) matches Some(after) && after.vault.data.locked,
    decreases n,
{
    beginning_was_served(books, requests, n);
    if n > i + 1 {
        lock_stays(books, requests, i, n - 1);
    }
}

/// After an unlock the vault stays unlocked as long as no lock is served.
pub proof fn unlock_stays(books: Books, requests: Seq<Request>, i: int, n: int)
    requires
        replayed(books, requests) is Some,
        0 <= i < n <= requests.len(),
        requests[i] is Unlock,
        !locked_between(requests, i, n),
    ensures
        replayed(books, requests.take(n)) matches Some(after) && !after.vault.data.locked,
    decreases n,
{
    beginning_was_served(books, requests, n);
    if n > i + 1 {
        unlock_stays(books, requests, i, n - 1);
    }
}

/// Lock exclusivity over a history. In a sequence of served requests, no withdrawal
/// follows a lock unless an unlock was served between the two, however many deposits
/// were; and no lock follows a lock unless an unlock was served between the two.
pub proof fn no_withdrawal_while_locked(books: Books, requests: Seq<Request>, i: int, j: int)
    requires
        replayed(books, requests) is Some,
        0 <= i < j < requests.len(),
        requests[i] is Lock,
        requests[j] is Withdraw || requests[j] is Lock,
    ensures
        unlocked_between(requests, i, j),
{
    if !unlocked_between(requests, i, j) {
        // The vault is still locked when the later request comes, and yet it was served.
        lock_stays(books, requests, i, j);
        beginning_was_served(books, requests, j + 1);
        assert(false);
    }
}

/// In a sequence of served requests, no unlock follows an unlock unless a lock was
/// served between the two.
pub proof fn no_unlock_while_unlocked(books: Books, requests: Seq<Request>, i: int, j: int)
    requires
        replayed(books, requests) is Some,
        0 <= i < j < requests.len(),
        requests[i] is Unlock,
        requests[j] is Unlock,
    ensures
        locked_between(requests, i, j),
{
    if !locked_between(requests, i, j) {
        // The vault is still unlocked when the later unlock comes, and yet it was served.
        unlock_stays(books, requests, i, j);
        beginning_was_served(books, requests, j + 1);
        assert(false);
    }
}

/// A deposit is served whether the vault is locked or not: in a sequence of served
/// requests a deposit may follow a lock at once, and leaves the vault locked.
pub proof fn deposit_while_locked(books: Books, accounts: Deposit, amount: u64, now: i64)
    requires
        accounts.vault == books.vault,
        accounts.vault_token_account == books.vault_token_account,
        deposit_refusal(accounts, amount) is None,
        books.vault_token_account.data.amount + amount <= u64::MAX,
    ensures
        served(
            books,
            Request::Deposit { accounts, amount, outcome: TransferOutcome::Completed, now },
        ) matches Some(after) && after.vault.data.locked == books.vault.data.locked,
{
}

/// The books of a vault as its creation left them.
pub open spec fn books_of(created: InitializeVault) -> Books {
    Books {
        vault: Account { key: created.vault.key, data: created.vault.data->0 },
        vault_token_account: Account {
            key: created.vault_token_account.key,
            data: created.vault_token_account.data->0,
        },
    }
}

/// Uniqueness over a history. Once a vault was created for an owner and an asset, and
/// whatever requests were served since, every further request to create one for the same
/// pair fails as long as the vault is stored where it was created; one that passes the
/// guard names that very address and fails with `AlreadyExists`. A pair of owner and
/// asset never has a second vault.
pub proof fn vault_is_never_created_again(
    first: InitializeVault,
    now: i64,
    requests: Seq<Request>,
    second: InitializeVault,
    later: i64,
)
    requires
        initialize_vault_result(first, now) matches Ok(created) && replayed(
            books_of(created),
            requests,
        ) matches Some(after) && (second.vault.key == after.vault.key ==> second.vault.data
            == Some(after.vault.data)),
        second.owner == first.owner,
        second.mint == first.mint,
    ensures
        initialize_vault_result(second, later) is Err,
        second.authorized() ==> second.vault.key == first.vault.key && initialize_vault_result(
            second,
            later,
        ) == Err::<InitializeVault, ErrorCode>(ErrorCode::AlreadyExists),
{
    let created = initialize_vault_result(first, now)->Ok_0;
    assert(requests.take(requests.len() as int) =~= requests);
    history_keeps_the_vault(books_of(created), requests, requests.len() as int);
    vault_is_created_once(first, now, second, later);
}

} // verus!
