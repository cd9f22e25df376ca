//! An in-memory ledger: accounts with distinct identifiers and the record of
//! completed transactions. A transaction changes the balances and the record
//! together, or changes nothing.

use vstd::prelude::*;
use crate::ledger::{
    balances_after, involved, involved_lists_source_and_destination, validate_request,
    StorageStep, TxnError, TxnKind,
};
use crate::models::{
    Account, AccountBalance, CreateAccountRequest, CreateTransactionRequest, Transaction,
};

verus! {

/// No identifier occurs twice.
pub open spec fn ids_distinct(accounts: Seq<Account>) -> bool {
    forall|i: int, j: int| 0 <= i < j < accounts.len() ==> accounts[i].id != accounts[j].id
}

/// Some account has this identifier.
pub open spec fn holds(accounts: Seq<Account>, id: u128) -> bool {
    exists|i: int| 0 <= i < accounts.len() && accounts[i].id == id
}

/// The position of the account with this identifier.
pub open spec fn slot(accounts: Seq<Account>, id: u128) -> int {
    choose|i: int| 0 <= i < accounts.len() && accounts[i].id == id
}

/// The balance of each account, by identifier.
pub open spec fn balance_map(accounts: Seq<Account>) -> Map<u128, u64> {
    Map::new(|id: u128| holds(accounts, id), |id: u128| accounts[slot(accounts, id)].balance)
}

/// An account after a completed transaction: it has the balance that the
/// transaction leaves it, and where the transaction involves it, it was
/// updated at `now`. Nothing else of it changes.
pub open spec fn account_after(
    account: Account,
    balances: Map<u128, u64>,
    involved: Seq<u128>,
    now: i64,
) -> Account {
    Account {
        balance: balances[account.id],
        updated_at: if involved.contains(account.id) {
            now
        } else {
            account.updated_at
        },
        ..account
    }
}

/// Every account after a completed transaction, in the same order.
pub open spec fn accounts_after(
    accounts: Seq<Account>,
    balances: Map<u128, u64>,
    involved: Seq<u128>,
    now: i64,
) -> Seq<Account> {
    Seq::new(accounts.len(), |i: int| account_after(accounts[i], balances, involved, now))
}

/// The balance that a new account starts with.
pub open spec fn opening_balance(request: CreateAccountRequest) -> u64 {
    match request.initial_balance {
        Some(b) => b,
        None => 0,
    }
}

/// The record that a completed request leaves.
pub open spec fn records(t: Transaction, req: CreateTransactionRequest, id: u128, now: i64) -> bool {
    &&& t.id == id
    &&& t.from_account == req.from_account_id
    &&& t.to_account == req.to_account_id
    &&& t.amount == req.amount
    &&& t.txn_type@ == req.txn_type@
    &&& t.status@ == "completed"@
    &&& t.created_at == now
}

proof fn slot_is_unique(accounts: Seq<Account>, id: u128, k: int)
    requires
        ids_distinct(accounts),
        0 <= k < accounts.len(),
        accounts[k].id == id,
    ensures
        holds(accounts, id),
        slot(accounts, id) == k,
{
    let s = slot(accounts, id);
    if s < k {
        assert(accounts[s].id != accounts[k].id);
    } else if k < s {
        assert(accounts[k].id != accounts[s].id);
    }
}

/// Accounts and the transactions completed on them.
pub struct Ledger {
    accounts: Vec<Account>,
    transactions: Vec<Transaction>,
}

impl Ledger {
    /// The accounts in the order in which they were opened.
    pub closed spec fn accounts(&self) -> Seq<Account> {
        self.accounts@
    }

    /// The completed transactions, oldest first.
    pub closed spec fn history(&self) -> Seq<Transaction> {
        self.transactions@
    }

    /// The balance of each account.
    pub open spec fn balances(&self) -> Map<u128, u64> {
        balance_map(self.accounts())
    }

    pub open spec fn well_formed(&self) -> bool {
        ids_distinct(self.accounts())
    }

    /// A ledger without accounts.
    pub fn new() -> (r: Self)
        ensures
            r.well_formed(),
            r.accounts().len() == 0,
            r.history().len() == 0,
            r.balances() == Map::<u128, u64>::empty(),
    {
        let r = Ledger { accounts: Vec::new(), transactions: Vec::new() };
        assert(r.balances() =~= Map::<u128, u64>::empty());
        r
    }

    fn find(&self, id: u128) -> (r: Option<usize>)
        requires
            self.well_formed(),
        ensures
            r is Some <==> holds(self.accounts(), id),
            r matches Some(k) ==> k < self.accounts().len() && k == slot(self.accounts(), id)
                && self.accounts()[k as int].id == id,
    {
        let mut k: usize = 0;
        while k < self.accounts.len()
            invariant
                self.well_formed(),
                k <= self.accounts@.len(),
                forall|i: int| 0 <= i < k ==> self.accounts@[i].id != id,
            decreases self.accounts@.len() - k,
        {
            if self.accounts[k].id == id {
                proof {
                    slot_is_unique(self.accounts@, id, k as int);
                }
                return Some(k);
            }
            k += 1;
        }
        None
    }

    fn set_balance(&mut self, k: usize, balance: u64, now: i64)
        requires
            old(self).well_formed(),
            k < old(self).accounts().len(),
        ensures
            final(self).well_formed(),
            final(self).history() == old(self).history(),
            final(self).accounts().len() == old(self).accounts().len(),
            forall|i: int|
                0 <= i < old(self).accounts().len() ==> (#[trigger] final(self).accounts()[i]).id
                    == old(self).accounts()[i].id,
            final(self).balances() == old(self).balances().insert(
                old(self).accounts()[k as int].id,
                balance,
            ),
            final(self).accounts() == old(self).accounts().update(
                k as int,
                (Account { balance, updated_at: now, ..old(self).accounts()[k as int] }),
            ),
    {
        let current = &self.accounts[k];
        let updated = Account {
            id: current.id,
            business_name: current.business_name.clone(),
            balance,
            created_at: current.created_at,
            updated_at: now,
        };
        self.accounts.set(k, updated);
        proof {
            let before = old(self).accounts@;
            let after = self.accounts@;
            let target = before[k as int].id;
            assert(ids_distinct(after));
            assert forall|id: u128| holds(after, id) == holds(before, id) by {
                if holds(before, id) {
                    let s = slot(before, id);
                    assert(after[s].id == id);
                }
                if holds(after, id) {
                    let s = slot(after, id);
                    assert(before[s].id == id);
                }
            }
            assert forall|id: u128| holds(after, id) implies after[slot(after, id)].balance == (
            if id == target {
                balance
            } else {
                before[slot(before, id)].balance
            }) by {
                let s = slot(after, id);
                assert(before[s].id == id);
                slot_is_unique(before, id, s);
                if id == target {
                    slot_is_unique(before, id, k as int);
                }
            }
            slot_is_unique(before, target, k as int);
            assert(balance_map(after) =~= balance_map(before).insert(target, balance));
        }
    }

    /// Opens the requested account under the given identifier, with the
    /// initial balance asked for, or zero where none is. Returns `false`,
    /// and changes nothing, where the identifier is taken.
    pub fn create_account(&mut self, id: u128, request: CreateAccountRequest, now: i64) -> (opened:
        bool)
        requires
            old(self).well_formed(),
        ensures
            final(self).well_formed(),
            final(self).history() == old(self).history(),
            opened == !old(self).balances().dom().contains(id),
            !opened ==> final(self).accounts() == old(self).accounts(),
            opened ==> final(self).balances() == old(self).balances().insert(
                id,
                opening_balance(request),
            ),
            opened ==> final(self).accounts() == old(self).accounts().push(
                (Account {
                    id,
                    business_name: request.business_name,
                    balance: opening_balance(request),
                    created_at: now,
                    updated_at: now,
                }),
            ),
    {
        if self.find(id).is_some() {
            return false;
        }
        let balance: u64 = match request.initial_balance {
            Some(b) => b,
            None => 0,
        };
        self.accounts.push(
            Account {
                id,
                business_name: request.business_name,
                balance,
                created_at: now,
                updated_at: now,
            },
        );
        proof {
            let before = old(self).accounts@;
            let after = self.accounts@;
            let last = before.len() as int;
            assert(ids_distinct(after)) by {
                assert forall|i: int, j: int| 0 <= i < j < after.len() implies after[i].id
                    != after[j].id by {
                    if j == last {
                        assert(after[i] == before[i]);
                        assert(!holds(before, id));
                    } else {
                        assert(after[i] == before[i] && after[j] == before[j]);
                    }
                }
            }
            slot_is_unique(after, id, last);
            assert forall|other: u128| other != id implies holds(after, other) == holds(
                before,
                other,
            ) by {
                if holds(before, other) {
                    let s = slot(before, other);
                    assert(after[s].id == other);
                }
                if holds(after, other) {
                    let s = slot(after, other);
                    assert(before[s].id == other);
                }
            }
            assert forall|other: u128| other != id && holds(after, other) implies after[slot(
                after,
                other,
            )].balance == before[slot(before, other)].balance by {
                let s = slot(after, other);
                assert(before[s].id == other);
                slot_is_unique(before, other, s);
            }
            assert(balance_map(after) =~= balance_map(before).insert(id, balance));
        }
        true
    }

    /// The balance of an account, if the ledger holds it.
    pub fn get_account_balance(&self, id: u128) -> (r: Option<AccountBalance>)
        requires
            self.well_formed(),
        ensures
            r is Some <==> self.balances().dom().contains(id),
            r matches Some(b) ==> b.account_id == id && b.balance == self.balances()[id],
    {
        match self.find(id) {
            Some(k) => Some(AccountBalance { account_id: id, balance: self.accounts[k].balance }),
            None => None,
        }
    }

    /// How many transactions have been completed.
    pub fn transaction_count(&self) -> (n: usize)
        ensures
            n == self.history().len(),
    {
        self.transactions.len()
    }

    proof fn settled(&self, before: Ledger, from: Option<u128>, to: Option<u128>, now: i64)
        requires
            self.well_formed(),
            self.accounts().len() == before.accounts().len(),
            forall|i: int|
                0 <= i < self.accounts().len() ==> {
                    let a = #[trigger] self.accounts()[i];
                    let b = before.accounts()[i];
                    &&& a.id == b.id
                    &&& a.business_name == b.business_name
                    &&& a.created_at == b.created_at
                    &&& a.updated_at == if from == Some(b.id) || to == Some(b.id) {
                        now
                    } else {
                        b.updated_at
                    }
                },
        ensures
            self.accounts() == accounts_after(
                before.accounts(),
                self.balances(),
                involved(from, to),
                now,
            ),
    {
        let expected = accounts_after(before.accounts(), self.balances(), involved(from, to), now);
        assert forall|i: int| 0 <= i < self.accounts().len() implies self.accounts()[i]
            == expected[i] by {
            slot_is_unique(self.accounts(), self.accounts()[i].id, i);
            involved_lists_source_and_destination(from, to, before.accounts()[i].id);
        }
        assert(self.accounts() =~= expected);
    }

    fn record(&mut self, req: &CreateTransactionRequest, txn_id: u128, now: i64) -> (t: Transaction)
        ensures
            records(t, *req, txn_id, now),
            final(self).accounts() == old(self).accounts(),
            final(self).history().len() == old(self).history().len() + 1,
            final(self).history().drop_last() == old(self).history(),
            records(final(self).history().last(), *req, txn_id, now),
    {
        let kept = Transaction {
            id: txn_id,
            from_account: req.from_account_id,
            to_account: req.to_account_id,
            amount: req.amount,
            txn_type: req.txn_type.clone(),
            status: "completed".to_owned(),
            created_at: now,
        };
        self.transactions.push(kept);
        assert(self.transactions@.drop_last() =~= old(self).transactions@);
        Transaction {
            id: txn_id,
            from_account: req.from_account_id,
            to_account: req.to_account_id,
            amount: req.amount,
            txn_type: req.txn_type.clone(),
            status: "completed".to_owned(),
            created_at: now,
        }
    }

    /// Carries out a transaction request as one atomic unit. The request is
    /// validated first. A well-shaped request then changes the balances as
    /// [`balances_after`] says and appends one completed record, which is
    /// also returned. A refused request changes nothing at all.
    pub fn create_transaction(&mut self, req: &CreateTransactionRequest, txn_id: u128, now: i64) -> (r:
        Result<Transaction, TxnError>)
        requires
            old(self).well_formed(),
        ensures
            final(self).well_formed(),
            match balances_after(
                old(self).balances(),
                req.txn_type@,
                req.from_account_id,
                req.to_account_id,
                req.amount,
            ) {
                Ok(balances) => {
                    &&& r is Ok
                    &&& records(r.unwrap(), *req, txn_id, now)
                    &&& final(self).balances() == balances
                    &&& final(self).accounts() == accounts_after(
                        old(self).accounts(),
                        balances,
                        involved(req.from_account_id, req.to_account_id),
                        now,
                    )
                    &&& final(self).history().len() == old(self).history().len() + 1
                    &&& final(self).history().drop_last() == old(self).history()
                    &&& records(final(self).history().last(), *req, txn_id, now)
                },
                Err(e) => {
                    &&& r == Err::<Transaction, TxnError>(e)
                    &&& final(self).accounts() == old(self).accounts()
                    &&& final(self).history() == old(self).history()
                },
            },
    {
        let kind = match validate_request(req) {
            Ok(kind) => kind,
            Err(e) => {
                return Err(e);
            },
        };
        let amount = req.amount;
        match kind {
            TxnKind::Credit => {
                let to = match self.find(req.to_account_id.unwrap()) {
                    Some(k) => k,
                    None => {
                        return Err(TxnError::Storage(StorageStep::InsertRecord));
                    },
                };
                let raised = match self.accounts[to].balance.checked_add(amount) {
                    Some(b) => b,
                    None => {
                        return Err(TxnError::Storage(StorageStep::UpdateBalance));
                    },
                };
                self.set_balance(to, raised, now);
                proof {
                    self.settled(*old(self), req.from_account_id, req.to_account_id, now);
                }
            },
            TxnKind::Debit => {
                let from = match self.find(req.from_account_id.unwrap()) {
                    Some(k) => k,
                    None => {
                        return Err(TxnError::InsufficientFunds);
                    },
                };
                let held = self.accounts[from].balance;
                if held < amount {
                    return Err(TxnError::InsufficientFunds);
                }
                self.set_balance(from, held - amount, now);
                proof {
                    self.settled(*old(self), req.from_account_id, req.to_account_id, now);
                }
            },
            TxnKind::Transfer => {
                let from = match self.find(req.from_account_id.unwrap()) {
                    Some(k) => k,
                    None => {
                        return Err(TxnError::InsufficientFunds);
                    },
                };
                let held = self.accounts[from].balance;
                if held < amount {
                    return Err(TxnError::InsufficientFunds);
                }
                let to = match self.find(req.to_account_id.unwrap()) {
                    Some(k) => k,
                    None => {
                        return Err(TxnError::Storage(StorageStep::InsertRecord));
                    },
                };
                if to == from {
                    self.set_balance(from, held, now);
                    assert(self.balances() =~= old(self).balances().insert(
                        req.from_account_id.unwrap(),
                        (held - amount) as u64,
                    ).insert(req.to_account_id.unwrap(), held));
                } else {
                    let raised = match self.accounts[to].balance.checked_add(amount) {
                        Some(b) => b,
                        None => {
                            return Err(TxnError::Storage(StorageStep::UpdateBalance));
                        },
                    };
                    self.set_balance(from, held - amount, now);
                    self.set_balance(to, raised, now);
                }
                proof {
                    self.settled(*old(self), req.from_account_id, req.to_account_id, now);
                }
            },
        }
        Ok(self.record(req, txn_id, now))
    }
}

} // verus!
