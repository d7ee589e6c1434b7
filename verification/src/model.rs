//! The rules of the engine as mathematics: balances are unbounded integers,
//! the two tables are maps, and one record takes one state to the next.

use vstd::prelude::*;
use crate::transaction::{Tx, TxType, TxStateType};

verus! {

/// The size of an amount, whatever its sign.
pub open spec fn magnitude(amount: int) -> int {
    if amount < 0 {
        -amount
    } else {
        amount
    }
}

/// What an account holds, in ten-thousandths of the currency.
pub struct AccountModel {
    pub client: u16,
    pub available: int,
    pub held: int,
    pub total: int,
    pub locked: bool,
}

impl AccountModel {
    /// The account of a client that no record has touched yet.
    pub open spec fn fresh(client: u16) -> AccountModel {
        AccountModel { client, available: 0, held: 0, total: 0, locked: false }
    }

    /// The total is what is available plus what is held.
    pub open spec fn balanced(self) -> bool {
        self.total == self.available + self.held
    }

    /// Each balance is small enough for a 128-bit integer.
    pub open spec fn fits(self) -> bool {
        &&& i128::MIN <= self.available <= i128::MAX
        &&& i128::MIN <= self.held <= i128::MAX
        &&& i128::MIN <= self.total <= i128::MAX
    }

    /// New funds arrive: the total and the available funds grow.
    pub open spec fn credited(self, amount: int) -> AccountModel {
        AccountModel {
            available: self.available + amount,
            total: self.total + amount,
            ..self
        }
    }

    /// Funds freeze: they pass from available to held, the total stays.
    pub open spec fn holding(self, amount: int) -> AccountModel {
        AccountModel { available: self.available - amount, held: self.held + amount, ..self }
    }

    /// Held funds leave for good, and the account locks.
    pub open spec fn charged_back(self, amount: int) -> AccountModel {
        AccountModel {
            held: self.held - amount,
            total: self.total - amount,
            locked: true,
            ..self
        }
    }
}

/// What the ledger remembers of one deposit or withdrawal.
pub struct EntryModel {
    pub amount: int,
    pub kind: TxStateType,
    pub client_id: u16,
    pub disputed: bool,
    pub charged_back: bool,
}

impl EntryModel {
    /// The entry of a transaction that was just accepted.
    pub open spec fn accepted(amount: int, kind: TxStateType, client_id: u16) -> EntryModel {
        EntryModel { amount, kind, client_id, disputed: false, charged_back: false }
    }

    /// A dispute can open: the entry is a deposit with no dispute running.
    pub open spec fn can_dispute(self) -> bool {
        !self.disputed && self.kind == TxStateType::Deposit
    }

    /// A running dispute can end: the entry is a deposit under dispute.
    pub open spec fn can_settle(self) -> bool {
        self.disputed && self.kind == TxStateType::Deposit
    }

    /// The same entry with its two flags set anew.
    pub open spec fn flagged(self, disputed: bool, charged_back: bool) -> EntryModel {
        EntryModel { disputed, charged_back, ..self }
    }
}

/// The whole state: every account by client, every ledger entry by
/// transaction.
#[verifier::ext_equal]
pub struct Books {
    pub accounts: Map<u16, AccountModel>,
    pub ledger: Map<u32, EntryModel>,
}

impl Books {
    /// No account and no entry.
    pub open spec fn empty() -> Books {
        Books { accounts: Map::empty(), ledger: Map::empty() }
    }

    /// The account of `client`: the one on record, or a fresh one.
    pub open spec fn account(self, client: u16) -> AccountModel {
        if self.accounts.contains_key(client) {
            self.accounts[client]
        } else {
            AccountModel::fresh(client)
        }
    }

    /// These books once `client` has been looked up: its account exists,
    /// nothing else differs.
    pub open spec fn opened(self, client: u16) -> Books {
        Books { accounts: self.accounts.insert(client, self.account(client)), ..self }
    }

    /// These books with the account of `client` and the entry of `tx_id`
    /// replaced.
    pub open spec fn written(
        self,
        client: u16,
        account: AccountModel,
        tx_id: u32,
        entry: EntryModel,
    ) -> Books {
        Books {
            accounts: self.accounts.insert(client, account),
            ledger: self.ledger.insert(tx_id, entry),
        }
    }

    /// The record is malformed: a deposit or withdrawal that would be taken
    /// up (account not locked, transaction not yet on the ledger) but names
    /// no amount.
    pub open spec fn rejects(self, tx: Tx) -> bool {
        &&& !self.account(tx.client_id).locked
        &&& !self.ledger.contains_key(tx.tx_id)
        &&& tx.type_ == TxType::Deposit || tx.type_ == TxType::Withdrawal
        &&& tx.amount is None
    }

    /// The record changes balances or the ledger; every other record only
    /// has its client looked up.
    pub open spec fn applies(self, tx: Tx) -> bool {
        let account = self.account(tx.client_id);
        &&& !account.locked
        &&& if self.ledger.contains_key(tx.tx_id) {
            let entry = self.ledger[tx.tx_id];
            match tx.type_ {
                TxType::Dispute => entry.can_dispute(),
                TxType::Resolve | TxType::Chargeback => entry.can_settle(),
                TxType::Deposit | TxType::Withdrawal => false,
            }
        } else {
            match (tx.type_, tx.amount) {
                (TxType::Deposit, Some(_)) => true,
                (TxType::Withdrawal, Some(amount)) => amount <= account.available,
                _ => false,
            }
        }
    }

    /// The account of the record's client after a record that applies.
    pub open spec fn next_account(self, tx: Tx) -> AccountModel
        recommends
            self.applies(tx),
    {
        let account = self.account(tx.client_id);
        match tx.type_ {
            TxType::Deposit => account.credited(magnitude(tx.amount.unwrap() as int)),
            TxType::Withdrawal => account.credited(-tx.amount.unwrap()),
            TxType::Dispute => account.holding(magnitude(self.ledger[tx.tx_id].amount)),
            TxType::Resolve => account.holding(-magnitude(self.ledger[tx.tx_id].amount)),
            TxType::Chargeback => account.charged_back(magnitude(self.ledger[tx.tx_id].amount)),
        }
    }

    /// The ledger entry of the record's transaction after a record that
    /// applies.
    pub open spec fn next_entry(self, tx: Tx) -> EntryModel
        recommends
            self.applies(tx),
    {
        match tx.type_ {
            TxType::Deposit => EntryModel::accepted(
                magnitude(tx.amount.unwrap() as int),
                TxStateType::Deposit,
                tx.client_id,
            ),
            TxType::Withdrawal => EntryModel::accepted(
                -tx.amount.unwrap(),
                TxStateType::Withdrawal,
                tx.client_id,
            ),
            TxType::Dispute => self.ledger[tx.tx_id].flagged(true, false),
            TxType::Resolve => self.ledger[tx.tx_id].flagged(false, false),
            TxType::Chargeback => self.ledger[tx.tx_id].flagged(false, true),
        }
    }

    /// The books after one record.
    pub open spec fn step(self, tx: Tx) -> Books {
        if self.applies(tx) {
            self.written(tx.client_id, self.next_account(tx), tx.tx_id, self.next_entry(tx))
        } else {
            self.opened(tx.client_id)
        }
    }

    /// The books after the records of `txs`, taken in order.
    pub open spec fn run(self, txs: Seq<Tx>) -> Books
        decreases txs.len(),
    {
        if txs.len() == 0 {
            self
        } else {
            self.run(txs.drop_last()).step(txs.last())
        }
    }

    /// Every account is balanced.
    pub open spec fn balanced(self) -> bool {
        forall|client: u16| #[trigger]
            self.accounts.contains_key(client) ==> self.accounts[client].balanced()
    }
}

} // verus!
