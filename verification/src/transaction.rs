//! Records, ledger entries and accounts, and the processor that applies one
//! record to the two tables.
//!
//! Every amount is a whole number of ten-thousandths of the currency.

use std::collections::HashMap;
use vstd::prelude::*;
use crate::error::Error;
use crate::model::{magnitude, AccountModel, Books, EntryModel};

verus! {

/// How many units of an amount make one whole of the currency.
pub const UNITS_PER_WHOLE: i64 = 10_000;

/// One record of the input.
#[derive(Debug, PartialEq, Eq, Clone, Copy)]
pub struct Tx {
    pub type_: TxType,
    pub client_id: u16,
    pub tx_id: u32,
    pub amount: Option<i64>,
}

/// What a record asks for.
#[derive(Debug, PartialEq, Eq, Clone, Copy, Structural)]
pub enum TxType {
    Deposit,
    Withdrawal,
    Dispute,
    Resolve,
    Chargeback,
}

/// The ledger's entry for one accepted deposit or withdrawal.
///
/// `amount` is what would have to leave `available` to undo the
/// transaction: what was credited for a deposit, the negated amount for a
/// withdrawal.
#[derive(Debug, PartialEq, Eq, Clone, Copy)]
pub struct TxState {
    pub amount: i128,
    pub type_: TxStateType,
    pub client_id: u16,
    pub disputed: bool,
    pub charged_back: bool,
}

/// The kind of transaction a ledger entry came from.
#[derive(Debug, PartialEq, Eq, Clone, Copy, Structural)]
pub enum TxStateType {
    Deposit,
    Withdrawal,
}

/// The balances of one client.
#[derive(Debug, PartialEq, Eq, Clone, Copy)]
pub struct ClientAccount {
    pub client: u16,
    pub available: i128,
    pub held: i128,
    pub total: i128,
    pub locked: bool,
}

impl View for TxState {
    type V = EntryModel;

    open spec fn view(&self) -> EntryModel {
        EntryModel {
            amount: self.amount as int,
            kind: self.type_,
            client_id: self.client_id,
            disputed: self.disputed,
            charged_back: self.charged_back,
        }
    }
}

impl TxState {
    /// The entry of a transaction that was just accepted: not disputed, not
    /// charged back.
    pub fn new(amount: i128, type_: TxStateType, client_id: u16) -> (state: TxState)
        ensures
            state@ == EntryModel::accepted(amount as int, type_, client_id),
    {
        TxState { amount, type_, client_id, disputed: false, charged_back: false }
    }
}

impl View for ClientAccount {
    type V = AccountModel;

    open spec fn view(&self) -> AccountModel {
        AccountModel {
            client: self.client,
            available: self.available as int,
            held: self.held as int,
            total: self.total as int,
            locked: self.locked,
        }
    }
}

impl ClientAccount {
    /// The account of a client that no record has touched yet: all
    /// balances zero, not locked.
    pub fn new(client_id: u16) -> (account: ClientAccount)
        ensures
            account@ == AccountModel::fresh(client_id),
            account@.balanced(),
    {
        ClientAccount { client: client_id, available: 0, held: 0, total: 0, locked: false }
    }
}

/// What an account table holds, client by client.
pub open spec fn account_models(accounts: Map<u16, ClientAccount>) -> Map<u16, AccountModel> {
    Map::new(|client: u16| accounts.contains_key(client), |client: u16| accounts[client]@)
}

/// What a ledger holds, transaction by transaction.
pub open spec fn entry_models(tx_states: Map<u32, TxState>) -> Map<u32, EntryModel> {
    Map::new(|tx_id: u32| tx_states.contains_key(tx_id), |tx_id: u32| tx_states[tx_id]@)
}

/// The books that the two tables stand for.
pub open spec fn books_of(
    accounts: Map<u16, ClientAccount>,
    tx_states: Map<u32, TxState>,
) -> Books {
    Books { accounts: account_models(accounts), ledger: entry_models(tx_states) }
}

/// What the error says of a record of kind `type_` that lacks its amount.
pub open spec fn missing_amount_text(type_: TxType) -> Seq<char> {
    if type_ == TxType::Withdrawal {
        "Withdrawal transaction expected to have an amount"@
    } else {
        "Deposit transaction expected to have an amount"@
    }
}

fn size_of(amount: i64) -> (size: i128)
    ensures
        size == magnitude(amount as int),
{
    if amount < 0 {
        -(amount as i128)
    } else {
        amount as i128
    }
}

fn raised(balance: i128, amount: i128) -> (sum: i128)
    requires
        balance + magnitude(amount as int) <= i128::MAX,
    ensures
        sum == balance + magnitude(amount as int),
{
    if amount < 0 {
        balance - amount
    } else {
        balance + amount
    }
}

fn lowered(balance: i128, amount: i128) -> (rest: i128)
    requires
        i128::MIN <= balance - magnitude(amount as int),
    ensures
        rest == balance - magnitude(amount as int),
{
    if amount < 0 {
        balance + amount
    } else {
        balance - amount
    }
}

/// Applies one record to the account table and the ledger.
///
/// The client of the record gets an account if it had none. A record for a
/// locked account changes nothing more, and neither does one that the rules
/// pass over: a deposit or withdrawal whose transaction is on the ledger
/// already, a withdrawal beyond the available funds, a dispute, resolve or
/// chargeback of an unknown transaction, of a withdrawal, or of an entry in
/// the wrong stage. The only error is a deposit or withdrawal that would be
/// taken up but names no amount.
///
/// An entry's amount counts by its size in a dispute, a resolve and a
/// chargeback, so that what a dispute held is what leaves again.
///
/// The balances are 128-bit integers, and the account that the record
/// leaves behind has to fit them. The amount of a record is a 64-bit
/// integer, so tables that only this function has written reach that limit
/// after some 2^64 records at the earliest; `process_all` proves that no
/// log it is given gets there.
pub fn process_tx(
    tx: Tx,
    accounts: &mut HashMap<u16, ClientAccount>,
    tx_states: &mut HashMap<u32, TxState>,
) -> (res: Result<(), Error>)
    requires
        books_of(old(accounts)@, old(tx_states)@).step(tx).accounts[tx.client_id].fits(),
    ensures
        books_of(final(accounts)@, final(tx_states)@)
            == books_of(old(accounts)@, old(tx_states)@).step(tx),
        res is Err <==> books_of(old(accounts)@, old(tx_states)@).rejects(tx),
        res matches Err(e) ==> e.message@ == missing_amount_text(tx.type_),
        final(accounts)@ == old(accounts)@.insert(tx.client_id, final(accounts)@[tx.client_id]),
        final(accounts)@[tx.client_id]@
            == books_of(old(accounts)@, old(tx_states)@).step(tx).accounts[tx.client_id],
        books_of(old(accounts)@, old(tx_states)@).applies(tx)
            ==> final(tx_states)@
                == old(tx_states)@.insert(tx.tx_id, final(tx_states)@[tx.tx_id])
            && final(tx_states)@[tx.tx_id]@
                == books_of(old(accounts)@, old(tx_states)@).next_entry(tx),
        !books_of(old(accounts)@, old(tx_states)@).applies(tx)
            ==> final(tx_states)@ == old(tx_states)@,
        books_of(old(accounts)@, old(tx_states)@).balanced()
            ==> books_of(final(accounts)@, final(tx_states)@).balanced(),
        forall|client: u16|
            #[trigger] old(accounts)@.contains_key(client) && old(accounts)@[client].locked
                ==> final(accounts)@.contains_key(client)
                && final(accounts)@[client] == old(accounts)@[client],
{
    broadcast use vstd::std_specs::hash::group_hash_axioms;

    let ghost before = books_of(accounts@, tx_states@);
    let client_id = tx.client_id;
    let tx_id = tx.tx_id;
    let mut account = match accounts.get(&client_id) {
        Some(found) => *found,
        None => {
            let fresh = ClientAccount::new(client_id);
            accounts.insert(client_id, fresh);
            fresh
        },
    };
    assert(account@ == before.account(client_id));
    assert(books_of(accounts@, tx_states@) =~= before.opened(client_id));

    if account.locked {
        return Ok(());
    }
    let entry = match tx_states.get(&tx_id) {
        Some(found) => Some(*found),
        None => None,
    };
    match entry {
        Some(mut tx_state) => {
            let amount = tx_state.amount;
            match tx.type_ {
                TxType::Deposit => {},
                TxType::Withdrawal => {},
                TxType::Dispute => {
                    if !tx_state.disputed && tx_state.type_ == TxStateType::Deposit {
                        tx_state.disputed = true;
                        tx_state.charged_back = false;
                        account.available = lowered(account.available, amount);
                        account.held = raised(account.held, amount);
                        accounts.insert(client_id, account);
                        tx_states.insert(tx_id, tx_state);
                    }
                },
                TxType::Resolve => {
                    if tx_state.disputed && tx_state.type_ == TxStateType::Deposit {
                        tx_state.disputed = false;
                        tx_state.charged_back = false;
                        account.available = raised(account.available, amount);
                        account.held = lowered(account.held, amount);
                        accounts.insert(client_id, account);
                        tx_states.insert(tx_id, tx_state);
                    }
                },
                TxType::Chargeback => {
                    if tx_state.disputed && tx_state.type_ == TxStateType::Deposit {
                        tx_state.disputed = false;
                        tx_state.charged_back = true;
                        account.total = lowered(account.total, amount);
                        account.held = lowered(account.held, amount);
                        account.locked = true;
                        accounts.insert(client_id, account);
                        tx_states.insert(tx_id, tx_state);
                    }
                },
            }
        },
        None => match tx.type_ {
            TxType::Deposit => {
                let amount = match tx.amount {
                    Some(amount) => size_of(amount),
                    None => {
                        return Err(Error::new("Deposit transaction expected to have an amount"));
                    },
                };
                tx_states.insert(tx_id, TxState::new(amount, TxStateType::Deposit, client_id));
                account.total = account.total + amount;
                account.available = account.available + amount;
                accounts.insert(client_id, account);
            },
            TxType::Withdrawal => {
                let amount = match tx.amount {
                    Some(amount) => amount as i128,
                    None => {
                        return Err(
                            Error::new("Withdrawal transaction expected to have an amount"),
                        );
                    },
                };
                if amount <= account.available {
                    tx_states.insert(tx_id, TxState::new(-amount, TxStateType::Withdrawal, client_id));
                    account.total = account.total - amount;
                    account.available = account.available - amount;
                    accounts.insert(client_id, account);
                }
            },
            TxType::Dispute => {},
            TxType::Resolve => {},
            TxType::Chargeback => {},
        },
    }
    assert(books_of(accounts@, tx_states@) =~= before.step(tx));
    assert(accounts@ =~= old(accounts)@.insert(client_id, accounts@[client_id]));
    assert(before.applies(tx) ==> tx_states@ =~= old(tx_states)@.insert(tx_id, tx_states@[tx_id]));
    Ok(())
}

} // verus!
