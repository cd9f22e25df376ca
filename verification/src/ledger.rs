//! The balance engine: the shape rules of a transaction request, the balance
//! updates a request stands for, and a ledger that applies them all or not
//! at all.

use vstd::prelude::*;
use crate::models::{Account, CreateTransactionRequest, ErrorResponse, Transaction};

verus! {

/// The three kinds of transaction.
#[derive(Debug, Clone, Copy, PartialEq, Eq, Structural)]
pub enum TxnKind {
    Credit,
    Debit,
    Transfer,
}

/// The step of the atomic unit at which storage failed.
#[derive(Debug, Clone, Copy, PartialEq, Eq, Structural)]
pub enum StorageStep {
    Begin,
    UpdateBalance,
    InsertRecord,
    Commit,
}

/// Why a transaction request was not carried out.
#[derive(Debug, Clone, Copy, PartialEq, Eq, Structural)]
pub enum TxnError {
    /// The type is none of `credit`, `debit`, `transfer`.
    InvalidType,
    /// A credit names a source account.
    CreditWithSource,
    /// A credit names no destination account.
    CreditWithoutDestination,
    /// A debit names no source account.
    DebitWithoutSource,
    /// A debit names a destination account.
    DebitWithDestination,
    /// A transfer lacks its source or its destination.
    TransferIncomplete,
    /// The source account does not hold the amount.
    InsufficientFunds,
    /// Storage failed; nothing of the transaction was kept.
    Storage(StorageStep),
}

/// One balance update of the atomic unit.
#[derive(Debug, Clone, Copy, PartialEq, Eq, Structural)]
pub enum BalanceUpdate {
    /// Take `amount` from `account` if, and only if, it holds that much.
    ConditionalDebit { account: u128, amount: u64 },
    /// Add `amount` to `account`.
    Credit { account: u128, amount: u64 },
}

/// The accounts a transaction involves: its source, then its destination,
/// each once.
pub open spec fn involved(from: Option<u128>, to: Option<u128>) -> Seq<u128> {
    match (from, to) {
        (Some(f), Some(t)) => if f == t {
            seq![f]
        } else {
            seq![f, t]
        },
        (Some(f), None) => seq![f],
        (None, Some(t)) => seq![t],
        (None, None) => Seq::<u128>::empty(),
    }
}

/// The kind that a type string names.
pub open spec fn kind_of(txn_type: Seq<char>) -> Option<TxnKind> {
    if txn_type == "credit"@ {
        Some(TxnKind::Credit)
    } else if txn_type == "debit"@ {
        Some(TxnKind::Debit)
    } else if txn_type == "transfer"@ {
        Some(TxnKind::Transfer)
    } else {
        None
    }
}

/// The first shape rule that a request of this kind breaks, if any: a credit
/// has a destination only, a debit a source only, a transfer both.
pub open spec fn shape_fault(kind: TxnKind, from: Option<u128>, to: Option<u128>) -> Option<
    TxnError,
> {
    match kind {
        TxnKind::Credit => if from is Some {
            Some(TxnError::CreditWithSource)
        } else if to is None {
            Some(TxnError::CreditWithoutDestination)
        } else {
            None
        },
        TxnKind::Debit => if from is None {
            Some(TxnError::DebitWithoutSource)
        } else if to is Some {
            Some(TxnError::DebitWithDestination)
        } else {
            None
        },
        TxnKind::Transfer => if from is None || to is None {
            Some(TxnError::TransferIncomplete)
        } else {
            None
        },
    }
}

/// The outcome of validation: the kind of a well-shaped request, or the rule
/// that it breaks.
pub open spec fn validation(txn_type: Seq<char>, from: Option<u128>, to: Option<u128>) -> Result<
    TxnKind,
    TxnError,
> {
    match kind_of(txn_type) {
        None => Err(TxnError::InvalidType),
        Some(kind) => match shape_fault(kind, from, to) {
            Some(e) => Err(e),
            None => Ok(kind),
        },
    }
}

/// The balance updates of a well-shaped request, in the order in which they
/// are made.
pub open spec fn updates_of(kind: TxnKind, from: Option<u128>, to: Option<u128>, amount: u64) -> Seq<
    BalanceUpdate,
> {
    match kind {
        TxnKind::Credit => seq![BalanceUpdate::Credit { account: to.unwrap(), amount }],
        TxnKind::Debit => seq![BalanceUpdate::ConditionalDebit { account: from.unwrap(), amount }],
        TxnKind::Transfer => seq![
            BalanceUpdate::ConditionalDebit { account: from.unwrap(), amount },
            BalanceUpdate::Credit { account: to.unwrap(), amount },
        ],
    }
}

/// A conditional debit on one balance: the balance that is left, or nothing
/// where the balance does not cover the amount.
pub open spec fn conditional_debit(balance: u64, amount: u64) -> Option<u64> {
    if balance >= amount {
        Some((balance - amount) as u64)
    } else {
        None
    }
}

/// One update applied to a set of balances. A conditional debit on an
/// account that is unknown or holds too little fails with
/// `InsufficientFunds`. A credit fails at the balance update where the new
/// balance cannot be stored, and at the record's insertion where the account
/// is unknown.
pub open spec fn apply_update(balances: Map<u128, u64>, update: BalanceUpdate) -> Result<
    Map<u128, u64>,
    TxnError,
> {
    match update {
        BalanceUpdate::ConditionalDebit { account, amount } => {
            if balances.dom().contains(account) && conditional_debit(balances[account], amount)
                is Some {
                Ok(balances.insert(account, conditional_debit(balances[account], amount).unwrap()))
            } else {
                Err(TxnError::InsufficientFunds)
            }
        },
        BalanceUpdate::Credit { account, amount } => {
            if !balances.dom().contains(account) {
                Err(TxnError::Storage(StorageStep::InsertRecord))
            } else if balances[account] + amount > u64::MAX {
                Err(TxnError::Storage(StorageStep::UpdateBalance))
            } else {
                Ok(balances.insert(account, (balances[account] + amount) as u64))
            }
        },
    }
}

/// The updates applied in order; the first failure is the outcome.
pub open spec fn apply_updates(balances: Map<u128, u64>, updates: Seq<BalanceUpdate>) -> Result<
    Map<u128, u64>,
    TxnError,
>
    decreases updates.len(),
{
    if updates.len() == 0 {
        Ok(balances)
    } else {
        match apply_update(balances, updates[0]) {
            Err(e) => Err(e),
            Ok(next) => apply_updates(next, updates.subrange(1, updates.len() as int)),
        }
    }
}

/// The updates of a well-shaped request applied to a set of balances: a
/// credit adds to the destination; a debit takes from the source if it holds
/// the amount; a transfer does the same debit and then, if that passed, the
/// credit.
pub open spec fn execute(
    balances: Map<u128, u64>,
    kind: TxnKind,
    from: Option<u128>,
    to: Option<u128>,
    amount: u64,
) -> Result<Map<u128, u64>, TxnError> {
    match kind {
        TxnKind::Credit => apply_update(
            balances,
            BalanceUpdate::Credit { account: to.unwrap(), amount },
        ),
        TxnKind::Debit => apply_update(
            balances,
            BalanceUpdate::ConditionalDebit { account: from.unwrap(), amount },
        ),
        TxnKind::Transfer => match apply_update(
            balances,
            BalanceUpdate::ConditionalDebit { account: from.unwrap(), amount },
        ) {
            Err(e) => Err(e),
            Ok(next) => apply_update(next, BalanceUpdate::Credit { account: to.unwrap(), amount }),
        },
    }
}

/// The balances after a request, or why it is refused. A refused request
/// leaves no balance to speak of: the caller keeps the old ones.
pub open spec fn balances_after(
    balances: Map<u128, u64>,
    txn_type: Seq<char>,
    from: Option<u128>,
    to: Option<u128>,
    amount: u64,
) -> Result<Map<u128, u64>, TxnError> {
    match validation(txn_type, from, to) {
        Err(e) => Err(e),
        Ok(kind) => execute(balances, kind, from, to, amount),
    }
}

/// The HTTP status that goes with an error.
pub open spec fn status_of(e: TxnError) -> u16 {
    match e {
        TxnError::Storage(_) => 500,
        _ => 400,
    }
}

/// The machine-readable code of an error.
pub open spec fn code_of(e: TxnError) -> Seq<char> {
    match e {
        TxnError::InvalidType => "invalid_transaction_type"@,
        TxnError::CreditWithSource => "invalid_credit"@,
        TxnError::CreditWithoutDestination => "invalid_credit"@,
        TxnError::DebitWithoutSource => "invalid_debit"@,
        TxnError::DebitWithDestination => "invalid_debit"@,
        TxnError::TransferIncomplete => "invalid_transfer"@,
        TxnError::InsufficientFunds => "insufficient_funds"@,
        TxnError::Storage(_) => "database_error"@,
    }
}

/// The sentence that goes with an error.
pub open spec fn message_of(e: TxnError) -> Seq<char> {
    match e {
        TxnError::InvalidType => "Transaction type must be 'credit', 'debit', or 'transfer'"@,
        TxnError::CreditWithSource => "Credit transactions should not have a from_account_id"@,
        TxnError::CreditWithoutDestination => "Credit transactions must have a to_account_id"@,
        TxnError::DebitWithoutSource => "Debit transactions must have a from_account_id"@,
        TxnError::DebitWithDestination => "Debit transactions should not have a to_account_id"@,
        TxnError::TransferIncomplete => "Transfer transactions must have both from_account_id and to_account_id"@,
        TxnError::InsufficientFunds => "Insufficient funds"@,
        TxnError::Storage(StorageStep::Begin) => "Failed to begin transaction"@,
        TxnError::Storage(StorageStep::UpdateBalance) => "Failed to update balance"@,
        TxnError::Storage(StorageStep::InsertRecord) => "Failed to create transaction"@,
        TxnError::Storage(StorageStep::Commit) => "Failed to commit transaction"@,
    }
}

impl TxnError {
    /// The HTTP status of the response: 500 for a storage failure, 400 for
    /// every other error.
    pub fn status(&self) -> (r: u16)
        ensures
            r == status_of(*self),
    {
        match self {
            TxnError::Storage(_) => 500,
            _ => 400,
        }
    }

    pub fn code(&self) -> (r: &'static str)
        ensures
            r@ == code_of(*self),
    {
        match self {
            TxnError::InvalidType => "invalid_transaction_type",
            TxnError::CreditWithSource => "invalid_credit",
            TxnError::CreditWithoutDestination => "invalid_credit",
            TxnError::DebitWithoutSource => "invalid_debit",
            TxnError::DebitWithDestination => "invalid_debit",
            TxnError::TransferIncomplete => "invalid_transfer",
            TxnError::InsufficientFunds => "insufficient_funds",
            TxnError::Storage(_) => "database_error",
        }
    }

    pub fn message(&self) -> (r: &'static str)
        ensures
            r@ == message_of(*self),
    {
        match self {
            TxnError::InvalidType => "Transaction type must be 'credit', 'debit', or 'transfer'",
            TxnError::CreditWithSource => "Credit transactions should not have a from_account_id",
            TxnError::CreditWithoutDestination => "Credit transactions must have a to_account_id",
            TxnError::DebitWithoutSource => "Debit transactions must have a from_account_id",
            TxnError::DebitWithDestination => "Debit transactions should not have a to_account_id",
            TxnError::TransferIncomplete => "Transfer transactions must have both from_account_id and to_account_id",
            TxnError::InsufficientFunds => "Insufficient funds",
            TxnError::Storage(StorageStep::Begin) => "Failed to begin transaction",
            TxnError::Storage(StorageStep::UpdateBalance) => "Failed to update balance",
            TxnError::Storage(StorageStep::InsertRecord) => "Failed to create transaction",
            TxnError::Storage(StorageStep::Commit) => "Failed to commit transaction",
        }
    }

    /// The body of the error response.
    pub fn to_response(&self) -> (r: ErrorResponse)
        ensures
            r.code@ == code_of(*self),
            r.message@ == message_of(*self),
    {
        ErrorResponse::new(self.code(), self.message())
    }
}

fn same_text(a: &String, b: &str) -> (r: bool)
    ensures
        r == (a@ == b@),
{
    let owned = b.to_owned();
    *a == owned
}

/// Reads a type string.
pub fn parse_kind(txn_type: &String) -> (r: Option<TxnKind>)
    ensures
        r == kind_of(txn_type@),
{
    if same_text(txn_type, "credit") {
        Some(TxnKind::Credit)
    } else if same_text(txn_type, "debit") {
        Some(TxnKind::Debit)
    } else if same_text(txn_type, "transfer") {
        Some(TxnKind::Transfer)
    } else {
        None
    }
}

/// Checks a request against the shape rules, before storage is touched.
pub fn validate_request(req: &CreateTransactionRequest) -> (r: Result<TxnKind, TxnError>)
    ensures
        r == validation(req.txn_type@, req.from_account_id, req.to_account_id),
{
    let kind = match parse_kind(&req.txn_type) {
        Some(kind) => kind,
        None => {
            return Err(TxnError::InvalidType);
        },
    };
    match kind {
        TxnKind::Credit => {
            if req.from_account_id.is_some() {
                return Err(TxnError::CreditWithSource);
            }
            if req.to_account_id.is_none() {
                return Err(TxnError::CreditWithoutDestination);
            }
        },
        TxnKind::Debit => {
            if req.from_account_id.is_none() {
                return Err(TxnError::DebitWithoutSource);
            }
            if req.to_account_id.is_some() {
                return Err(TxnError::DebitWithDestination);
            }
        },
        TxnKind::Transfer => {
            if req.from_account_id.is_none() || req.to_account_id.is_none() {
                return Err(TxnError::TransferIncomplete);
            }
        },
    }
    Ok(kind)
}

/// The balance updates that a validated request stands for.
pub fn plan_updates(kind: TxnKind, from: Option<u128>, to: Option<u128>, amount: u64) -> (r: Vec<
    BalanceUpdate,
>)
    requires
        shape_fault(kind, from, to) is None,
    ensures
        r@ == updates_of(kind, from, to, amount),
{
    let mut plan: Vec<BalanceUpdate> = Vec::new();
    match kind {
        TxnKind::Credit => {
            plan.push(BalanceUpdate::Credit { account: to.unwrap(), amount });
        },
        TxnKind::Debit => {
            plan.push(BalanceUpdate::ConditionalDebit { account: from.unwrap(), amount });
        },
        TxnKind::Transfer => {
            plan.push(BalanceUpdate::ConditionalDebit { account: from.unwrap(), amount });
            plan.push(BalanceUpdate::Credit { account: to.unwrap(), amount });
        },
    }
    assert(plan@ =~= updates_of(kind, from, to, amount));
    plan
}

/// What follows from the number of rows that storage reports for an update:
/// a conditional debit that touched no row found too little money.
pub fn check_update(update: BalanceUpdate, rows_affected: u64) -> (r: Result<(), TxnError>)
    ensures
        r is Err <==> (update is ConditionalDebit && rows_affected == 0),
        r matches Err(e) ==> e == TxnError::InsufficientFunds,
{
    match update {
        BalanceUpdate::ConditionalDebit { .. } => {
            if rows_affected == 0 {
                Err(TxnError::InsufficientFunds)
            } else {
                Ok(())
            }
        },
        BalanceUpdate::Credit { .. } => Ok(()),
    }
}

/// The ordered list of updates and the direct rule say the same: applying
/// the planned updates one after the other gives what `execute` gives.
pub proof fn plan_agrees_with_execute(
    balances: Map<u128, u64>,
    kind: TxnKind,
    from: Option<u128>,
    to: Option<u128>,
    amount: u64,
)
    requires
        shape_fault(kind, from, to) is None,
    ensures
        apply_updates(balances, updates_of(kind, from, to, amount)) == execute(
            balances,
            kind,
            from,
            to,
            amount,
        ),
{
    let updates = updates_of(kind, from, to, amount);
    reveal_with_fuel(apply_updates, 3);
    match kind {
        TxnKind::Transfer => {
            let rest = updates.subrange(1, updates.len() as int);
            assert(rest.len() == 1);
            assert(rest[0] == updates[1]);
            assert(rest.subrange(1, rest.len() as int).len() == 0);
        },
        _ => {
            assert(updates.subrange(1, updates.len() as int).len() == 0);
        },
    }
}

/// A debit or transfer of more than the source account holds is refused
/// with `InsufficientFunds`, whatever else the request says.
pub proof fn overdraft_is_refused(
    balances: Map<u128, u64>,
    kind: TxnKind,
    from: Option<u128>,
    to: Option<u128>,
    amount: u64,
)
    requires
        kind is Debit || kind is Transfer,
        shape_fault(kind, from, to) is None,
        balances.dom().contains(from.unwrap()),
        amount > balances[from.unwrap()],
    ensures
        execute(balances, kind, from, to, amount) == Err::<Map<u128, u64>, TxnError>(
            TxnError::InsufficientFunds,
        ),
{
}

/// A request that breaks a shape rule is refused by validation alone: the
/// outcome is the same whatever the balances are. In particular a credit
/// that names both a source and a destination is refused as
/// `CreditWithSource`.
pub proof fn misshapen_request_never_reaches_storage(
    a: Map<u128, u64>,
    b: Map<u128, u64>,
    txn_type: Seq<char>,
    from: Option<u128>,
    to: Option<u128>,
    amount: u64,
)
    requires
        validation(txn_type, from, to) is Err,
    ensures
        balances_after(a, txn_type, from, to, amount) == balances_after(b, txn_type, from, to, amount),
        balances_after(a, txn_type, from, to, amount) is Err,
        kind_of(txn_type) == Some(TxnKind::Credit) && from is Some ==> balances_after(
            a,
            txn_type,
            from,
            to,
            amount,
        ) == Err::<Map<u128, u64>, TxnError>(TxnError::CreditWithSource),
{
}

/// An account is among the involved ones exactly if it is the source or the
/// destination, and none is listed twice.
pub proof fn involved_lists_source_and_destination(from: Option<u128>, to: Option<u128>, id: u128)
    ensures
        involved(from, to).contains(id) <==> (from == Some(id) || to == Some(id)),
        involved(from, to).no_duplicates(),
{
    let ids = involved(from, to);
    if ids.len() >= 1 {
        assert(ids.contains(ids[0]));
    }
    if ids.len() >= 2 {
        assert(ids.contains(ids[1]));
    }
}

/// One balance after a run of conditional debits, made one at a time in the
/// order given.
pub open spec fn after_debits(balance: u64, amounts: Seq<u64>) -> u64
    decreases amounts.len(),
{
    if amounts.len() == 0 {
        balance
    } else {
        let before = after_debits(balance, amounts.drop_last());
        match conditional_debit(before, amounts.last()) {
            Some(left) => left,
            None => before,
        }
    }
}

/// The sum of the debits of such a run that were granted.
pub open spec fn granted_total(balance: u64, amounts: Seq<u64>) -> nat
    decreases amounts.len(),
{
    if amounts.len() == 0 {
        0
    } else {
        let before = after_debits(balance, amounts.drop_last());
        let earlier = granted_total(balance, amounts.drop_last());
        if conditional_debit(before, amounts.last()) is Some {
            earlier + amounts.last() as nat
        } else {
            earlier
        }
    }
}

/// However many debits contend for one account, and in whatever order they
/// reach it, what is granted and what is left add up to what was there: the
/// granted debits never exceed the balance, and the balance never goes
/// below zero.
pub proof fn debits_never_overdraw(balance: u64, amounts: Seq<u64>)
    ensures
        after_debits(balance, amounts) + granted_total(balance, amounts) == balance,
        granted_total(balance, amounts) <= balance,
    decreases amounts.len(),
{
    if amounts.len() > 0 {
        debits_never_overdraw(balance, amounts.drop_last());
    }
}

/// The balances after a run of debit requests against one account, made one
/// at a time in the order given; a refused request changes nothing.
pub open spec fn after_debit_requests(
    balances: Map<u128, u64>,
    account: u128,
    amounts: Seq<u64>,
) -> Map<u128, u64>
    decreases amounts.len(),
{
    if amounts.len() == 0 {
        balances
    } else {
        let before = after_debit_requests(balances, account, amounts.drop_last());
        match execute(before, TxnKind::Debit, Some(account), None, amounts.last()) {
            Ok(next) => next,
            Err(_) => before,
        }
    }
}

/// Debit requests against an account of the ledger do to its balance what
/// conditional debits do to a single balance, and touch no other account:
/// so the debits that are granted never exceed what the account held.
pub proof fn debit_requests_never_overdraw(
    balances: Map<u128, u64>,
    account: u128,
    amounts: Seq<u64>,
)
    requires
        balances.dom().contains(account),
    ensures
        after_debit_requests(balances, account, amounts) == balances.insert(
            account,
            after_debits(balances[account], amounts),
        ),
        after_debits(balances[account], amounts) + granted_total(balances[account], amounts)
            == balances[account],
    decreases amounts.len(),
{
    debits_never_overdraw(balances[account], amounts);
    if amounts.len() == 0 {
        assert(balances =~= balances.insert(account, balances[account]));
    } else {
        debit_requests_never_overdraw(balances, account, amounts.drop_last());
        let before = after_debit_requests(balances, account, amounts.drop_last());
        let held = after_debits(balances[account], amounts.drop_last());
        assert(before[account] == held);
        assert(after_debit_requests(balances, account, amounts) =~= balances.insert(
            account,
            after_debits(balances[account], amounts),
        ));
    }
}

} // verus!
