//! What holds of the rules whatever the records are.

use vstd::prelude::*;
use crate::model::Books;
use crate::transaction::{Tx, TxType};

verus! {

/// One record never unbalances the books: where every total was what is
/// available plus what is held, it still is after the record.
pub proof fn step_keeps_balance(books: Books, tx: Tx)
    requires
        books.balanced(),
    ensures
        books.step(tx).balanced(),
{
}

/// No run of records unbalances the books.
pub proof fn run_keeps_balance(books: Books, txs: Seq<Tx>)
    requires
        books.balanced(),
    ensures
        books.run(txs).balanced(),
    decreases txs.len(),
{
    if txs.len() > 0 {
        run_keeps_balance(books, txs.drop_last());
        step_keeps_balance(books.run(txs.drop_last()), txs.last());
    }
}

/// Whatever the records, the books that grow from nothing are balanced.
pub proof fn run_from_empty_is_balanced(txs: Seq<Tx>)
    ensures
        Books::empty().run(txs).balanced(),
{
    run_keeps_balance(Books::empty(), txs);
}

/// A locked account is out of reach of any record: it stays on the books,
/// locked, with the same three balances.
pub proof fn step_leaves_locked_account(books: Books, tx: Tx, client: u16)
    requires
        books.accounts.contains_key(client),
        books.accounts[client].locked,
    ensures
        books.step(tx).accounts.contains_key(client),
        books.step(tx).accounts[client] == books.accounts[client],
{
}

/// A locked account is out of reach of any run of records.
pub proof fn run_leaves_locked_account(books: Books, txs: Seq<Tx>, client: u16)
    requires
        books.accounts.contains_key(client),
        books.accounts[client].locked,
    ensures
        books.run(txs).accounts.contains_key(client),
        books.run(txs).accounts[client] == books.accounts[client],
    decreases txs.len(),
{
    if txs.len() > 0 {
        run_leaves_locked_account(books, txs.drop_last(), client);
        step_leaves_locked_account(books.run(txs.drop_last()), txs.last(), client);
    }
}

/// A record that the rules pass over, for a client that has an account,
/// leaves the books exactly as they were.
pub proof fn passed_over_record_changes_nothing(books: Books, tx: Tx)
    requires
        !books.applies(tx),
        books.accounts.contains_key(tx.client_id),
    ensures
        books.step(tx) == books,
{
    assert(books.step(tx) =~= books);
}

/// A dispute of a transaction that is unknown, or under dispute already,
/// leaves the books of a client that has an account exactly as they were.
pub proof fn dispute_passed_over(books: Books, tx: Tx)
    requires
        tx.type_ == TxType::Dispute,
        books.accounts.contains_key(tx.client_id),
        !books.ledger.contains_key(tx.tx_id) || books.ledger[tx.tx_id].disputed,
    ensures
        books.step(tx) == books,
{
    passed_over_record_changes_nothing(books, tx);
}

/// A dispute applied twice is a dispute applied once.
pub proof fn dispute_twice_is_dispute_once(books: Books, tx: Tx)
    requires
        tx.type_ == TxType::Dispute,
    ensures
        books.step(tx).step(tx) == books.step(tx),
{
    assert(books.step(tx).step(tx) =~= books.step(tx));
}

} // verus!
