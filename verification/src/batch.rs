//! Running a whole log of records, from empty tables to the final accounts.

use std::collections::HashMap;
use vstd::prelude::*;
use crate::error::Error;
use crate::laws::run_from_empty_is_balanced;
use crate::model::Books;
use crate::transaction::{
    account_models, books_of, missing_amount_text, process_tx, ClientAccount, Tx, TxState,
};

verus! {

/// What a run does after a malformed record.
#[derive(Debug, PartialEq, Eq, Clone, Copy, Structural)]
pub enum OnError {
    /// Drop the record and go on with the next.
    Skip,
    /// Give up the whole run.
    Stop,
}

/// Record `i` of `txs` is malformed when its turn comes, the records before
/// it having been applied to empty books.
pub open spec fn rejected_at(txs: Seq<Tx>, i: int) -> bool {
    Books::empty().run(txs.take(i)).rejects(txs[i])
}

/// Some record of `txs` is malformed when its turn comes.
pub open spec fn some_rejected(txs: Seq<Tx>) -> bool {
    exists|i: int| 0 <= i < txs.len() && rejected_at(txs, i)
}

/// Record `i` is the first of `txs` that is malformed when its turn comes.
pub open spec fn first_rejected(txs: Seq<Tx>, i: int) -> bool {
    &&& 0 <= i < txs.len()
    &&& rejected_at(txs, i)
    &&& forall|j: int| 0 <= j < i ==> !rejected_at(txs, j)
}

/// The largest size an amount of a record can have: 2^63.
spec fn amount_limit() -> int {
    0x8000_0000_0000_0000
}

spec fn in_range(entry: TxState) -> bool {
    -amount_limit() <= entry.amount <= amount_limit()
}

spec fn within(account: ClientAccount, bound: int) -> bool {
    &&& -bound <= account.available <= bound
    &&& -bound <= account.held <= bound
    &&& -bound <= account.total <= bound
}

/// Applies the records of `txs` in order, starting from no account and no
/// ledger entry, and returns the accounts.
///
/// With `OnError::Skip` a malformed record is dropped and the run goes on;
/// with `OnError::Stop` the first one ends the run with its error.
pub fn process_all(txs: &Vec<Tx>, on_error: OnError) -> (res: Result<
    HashMap<u16, ClientAccount>,
    Error,
>)
    ensures
        res is Err <==> on_error == OnError::Stop && some_rejected(txs@),
        res matches Ok(accounts) ==> account_models(accounts@) == Books::empty().run(
            txs@,
        ).accounts,
        res matches Ok(accounts) ==> forall|client: u16| #[trigger]
            accounts@.contains_key(client) ==> accounts@[client]@.balanced(),
        res matches Err(e) ==> exists|i: int| #[trigger]
            first_rejected(txs@, i) && e.message@ == missing_amount_text(txs@[i].type_),
{
    broadcast use vstd::std_specs::hash::group_hash_axioms;

    let mut accounts: HashMap<u16, ClientAccount> = HashMap::new();
    let mut tx_states: HashMap<u32, TxState> = HashMap::new();
    assert(books_of(accounts@, tx_states@) =~= Books::empty());
    assert(txs@.take(0) =~= Seq::<Tx>::empty());
    let mut i: usize = 0;
    while i < txs.len()
        invariant
            i <= txs.len(),
            books_of(accounts@, tx_states@) == Books::empty().run(txs@.take(i as int)),
            forall|client: u16| #[trigger]
                accounts@.contains_key(client) ==> within(
                    accounts@[client],
                    i * amount_limit(),
                ),
            forall|tx_id: u32| #[trigger]
                tx_states@.contains_key(tx_id) ==> in_range(tx_states@[tx_id]),
            on_error == OnError::Stop ==> forall|j: int| 0 <= j < i ==> !rejected_at(txs@, j),
        decreases txs.len() - i,
    {
        let tx = txs[i];
        let ghost before = books_of(accounts@, tx_states@);
        let ghost accounts_before = accounts@;
        let ghost tx_states_before = tx_states@;
        assert(txs@.take(i + 1).drop_last() =~= txs@.take(i as int));
        assert(txs@.take(i + 1).last() == tx);
        let res = process_tx(tx, &mut accounts, &mut tx_states);
        assert(rejected_at(txs@, i as int) == (res is Err));
        assert forall|client: u16| #[trigger] accounts@.contains_key(client) implies within(
            accounts@[client],
            (i + 1) * amount_limit(),
        ) by {
            if client != tx.client_id {
                assert(accounts_before.contains_key(client));
            } else if accounts_before.contains_key(client) {
                assert(within(accounts_before[client], i * amount_limit()));
            }
        }
        assert forall|tx_id: u32| #[trigger] tx_states@.contains_key(tx_id) implies in_range(
            tx_states@[tx_id],
        ) by {
            if tx_id != tx.tx_id {
                assert(tx_states_before.contains_key(tx_id));
            }
        }
        match res {
            Err(e) => {
                if on_error == OnError::Stop {
                    assert(first_rejected(txs@, i as int));
                    return Err(e);
                }
            },
            Ok(_) => {},
        }
        i = i + 1;
    }
    assert(txs@.take(i as int) =~= txs@);
    proof {
        run_from_empty_is_balanced(txs@);
        let books = Books::empty().run(txs@);
        assert forall|client: u16| #[trigger]
            accounts@.contains_key(client) implies accounts@[client]@.balanced() by {
            assert(account_models(accounts@).contains_key(client));
            assert(books.accounts.contains_key(client));
            assert(books.accounts[client] == accounts@[client]@);
        }
    }
    Ok(accounts)
}

} // verus!
