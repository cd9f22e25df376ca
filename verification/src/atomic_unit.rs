//! The atomic unit of one transaction, as a step function: storage reports
//! how the last action went, and the unit says what to do next. The caller
//! performs the actions inside one storage transaction and abandons it as
//! soon as the unit aborts, so that either every change is kept or none is.

use vstd::prelude::*;
use crate::ledger::{
    check_update, execute, plan_updates, shape_fault, updates_of, validate_request, validation,
    BalanceUpdate, StorageStep, TxnError, TxnKind,
};
use crate::models::CreateTransactionRequest;

verus! {

/// Where the unit stands: what storage was last asked to do, or how the
/// unit ended.
#[derive(Debug, Clone, Copy, PartialEq, Eq)]
pub enum Phase {
    Beginning,
    Updating,
    Inserting,
    Committing,
    Done,
    Failed(TxnError),
}

/// What the caller does next.
#[derive(Debug, Clone, Copy, PartialEq, Eq)]
pub enum UnitAction {
    /// Begin a storage transaction.
    Begin,
    /// Make this balance update and report the rows it touched.
    Update(BalanceUpdate),
    /// Insert the transaction record, with status `completed`.
    InsertRecord,
    /// Commit the storage transaction.
    Commit,
    /// Everything is committed: answer with the record and hand it to
    /// webhook delivery.
    Complete,
    /// Abandon the storage transaction and answer with this error.
    Abort(TxnError),
}

/// How storage fared with the last action.
#[derive(Debug, Clone, Copy, PartialEq, Eq)]
pub enum StorageReply {
    Failed,
    Succeeded { rows_affected: u64 },
}

/// The state of one unit: its phase, the update that is being made or is
/// the next to make, and the one after it.
#[derive(Debug, Clone, Copy, PartialEq, Eq)]
pub struct TxnUnit {
    pub phase: Phase,
    pub current: Option<BalanceUpdate>,
    pub later: Option<BalanceUpdate>,
}

/// The storage step that a phase waits on.
pub open spec fn step_of(phase: Phase) -> StorageStep {
    match phase {
        Phase::Beginning => StorageStep::Begin,
        Phase::Updating => StorageStep::UpdateBalance,
        Phase::Inserting => StorageStep::InsertRecord,
        _ => StorageStep::Commit,
    }
}

/// The unit at its start: storage is asked to begin, and the planned
/// updates are still to make.
pub open spec fn unit_for(plan: Seq<BalanceUpdate>) -> TxnUnit {
    TxnUnit {
        phase: Phase::Beginning,
        current: if plan.len() >= 1 {
            Some(plan[0])
        } else {
            None
        },
        later: if plan.len() >= 2 {
            Some(plan[1])
        } else {
            None
        },
    }
}

/// The unit once it turns to `current`: that update is made next, or, where
/// none is left, the record is inserted.
pub open spec fn turn_to(current: Option<BalanceUpdate>, later: Option<BalanceUpdate>) -> (
    TxnUnit,
    UnitAction,
) {
    match current {
        Some(update) => (
            TxnUnit { phase: Phase::Updating, current, later },
            UnitAction::Update(update),
        ),
        None => (
            TxnUnit { phase: Phase::Inserting, current: None, later: None },
            UnitAction::InsertRecord,
        ),
    }
}

/// The unit after a failure, and the action that reports it.
pub open spec fn failed_with(unit: TxnUnit, e: TxnError) -> (TxnUnit, UnitAction) {
    (TxnUnit { phase: Phase::Failed(e), ..unit }, UnitAction::Abort(e))
}

/// One step of the unit. A storage failure aborts with the step that
/// failed. A conditional debit that touched no row aborts with
/// `InsufficientFunds`. Otherwise the unit moves on: from the begin to the
/// updates in their order, then to the record, then to the commit, and
/// after the commit it is complete. A unit that has ended stays as it is
/// and repeats its last word.
pub open spec fn unit_step(unit: TxnUnit, reply: StorageReply) -> (TxnUnit, UnitAction) {
    match unit.phase {
        Phase::Done => (unit, UnitAction::Complete),
        Phase::Failed(e) => (unit, UnitAction::Abort(e)),
        _ => match reply {
            StorageReply::Failed => failed_with(unit, TxnError::Storage(step_of(unit.phase))),
            StorageReply::Succeeded { rows_affected } => match unit.phase {
                Phase::Beginning => turn_to(unit.current, unit.later),
                Phase::Updating => if unit.current matches Some(update) && update
                    is ConditionalDebit && rows_affected == 0 {
                    failed_with(unit, TxnError::InsufficientFunds)
                } else {
                    turn_to(unit.later, None)
                },
                Phase::Inserting => (
                    TxnUnit { phase: Phase::Committing, ..unit },
                    UnitAction::Commit,
                ),
                _ => (TxnUnit { phase: Phase::Done, ..unit }, UnitAction::Complete),
            },
        },
    }
}

/// Opens the unit for a request. A request that breaks a shape rule is
/// refused here, before storage is asked for anything; for any other the
/// first action is to begin.
pub fn begin_unit(req: &CreateTransactionRequest) -> (r: Result<(TxnUnit, UnitAction), TxnError>)
    ensures
        match validation(req.txn_type@, req.from_account_id, req.to_account_id) {
            Err(e) => r == Err::<(TxnUnit, UnitAction), TxnError>(e),
            Ok(kind) => r == Ok::<(TxnUnit, UnitAction), TxnError>(
                (
                    unit_for(updates_of(kind, req.from_account_id, req.to_account_id, req.amount)),
                    UnitAction::Begin,
                ),
            ),
        },
{
    let kind = match validate_request(req) {
        Ok(kind) => kind,
        Err(e) => {
            return Err(e);
        },
    };
    let plan = plan_updates(kind, req.from_account_id, req.to_account_id, req.amount);
    let current = if plan.len() >= 1 {
        Some(plan[0])
    } else {
        None
    };
    let later = if plan.len() >= 2 {
        Some(plan[1])
    } else {
        None
    };
    Ok((TxnUnit { phase: Phase::Beginning, current, later }, UnitAction::Begin))
}

fn turn(current: Option<BalanceUpdate>, later: Option<BalanceUpdate>) -> (r: (TxnUnit, UnitAction))
    ensures
        r == turn_to(current, later),
{
    match current {
        Some(update) => (
            TxnUnit { phase: Phase::Updating, current, later },
            UnitAction::Update(update),
        ),
        None => (
            TxnUnit { phase: Phase::Inserting, current: None, later: None },
            UnitAction::InsertRecord,
        ),
    }
}

fn fail(unit: TxnUnit, e: TxnError) -> (r: (TxnUnit, UnitAction))
    ensures
        r == failed_with(unit, e),
{
    (
        TxnUnit { phase: Phase::Failed(e), current: unit.current, later: unit.later },
        UnitAction::Abort(e),
    )
}

/// Takes the unit one step on, from storage's reply to the last action.
pub fn step(unit: TxnUnit, reply: StorageReply) -> (r: (TxnUnit, UnitAction))
    ensures
        r == unit_step(unit, reply),
{
    match unit.phase {
        Phase::Done => (unit, UnitAction::Complete),
        Phase::Failed(e) => (unit, UnitAction::Abort(e)),
        Phase::Beginning => match reply {
            StorageReply::Failed => fail(unit, TxnError::Storage(StorageStep::Begin)),
            StorageReply::Succeeded { .. } => turn(unit.current, unit.later),
        },
        Phase::Updating => match reply {
            StorageReply::Failed => fail(unit, TxnError::Storage(StorageStep::UpdateBalance)),
            StorageReply::Succeeded { rows_affected } => {
                let refused = match unit.current {
                    Some(update) => check_update(update, rows_affected).is_err(),
                    None => false,
                };
                if refused {
                    fail(unit, TxnError::InsufficientFunds)
                } else {
                    turn(unit.later, None)
                }
            },
        },
        Phase::Inserting => match reply {
            StorageReply::Failed => fail(unit, TxnError::Storage(StorageStep::InsertRecord)),
            StorageReply::Succeeded { .. } => (
                TxnUnit { phase: Phase::Committing, current: unit.current, later: unit.later },
                UnitAction::Commit,
            ),
        },
        Phase::Committing => match reply {
            StorageReply::Failed => fail(unit, TxnError::Storage(StorageStep::Commit)),
            StorageReply::Succeeded { .. } => (
                TxnUnit { phase: Phase::Done, current: unit.current, later: unit.later },
                UnitAction::Complete,
            ),
        },
    }
}

/// The actions that a unit asks for, one per reply, when it is stepped
/// through a run of replies.
pub open spec fn actions_over(unit: TxnUnit, replies: Seq<StorageReply>) -> Seq<UnitAction>
    decreases replies.len(),
{
    if replies.len() == 0 {
        Seq::<UnitAction>::empty()
    } else {
        let (next, action) = unit_step(unit, replies[0]);
        seq![action] + actions_over(next, replies.subrange(1, replies.len() as int))
    }
}

/// A storage reply that reports success on at least one row.
pub open spec fn applied(reply: StorageReply) -> bool {
    reply matches StorageReply::Succeeded { rows_affected } && rows_affected >= 1
}

/// The unit is complete only when the commit has succeeded: no step leads
/// to `Complete` from a unit that is not committing or already done, and
/// none does on a failure.
pub proof fn completes_only_through_commit(unit: TxnUnit, reply: StorageReply)
    requires
        unit_step(unit, reply).1 is Complete,
    ensures
        unit.phase is Done || (unit.phase is Committing && reply is Succeeded),
        unit_step(unit, reply).0.phase is Done,
{
}

/// A storage failure at any step of a running unit aborts it with that
/// step, and an aborted unit never asks for anything again.
pub proof fn failure_aborts_for_good(unit: TxnUnit, later_reply: StorageReply)
    requires
        !(unit.phase is Done),
        !(unit.phase is Failed),
    ensures
        unit_step(unit, StorageReply::Failed).1 == UnitAction::Abort(
            TxnError::Storage(step_of(unit.phase)),
        ),
        unit_step(unit_step(unit, StorageReply::Failed).0, later_reply).1 == unit_step(
            unit,
            StorageReply::Failed,
        ).1,
{
}

/// Where storage succeeds throughout and every update touches a row, the
/// unit asks for the planned updates in their order, then for the record,
/// then for the commit, and is then complete.
pub proof fn smooth_run_follows_the_plan(plan: Seq<BalanceUpdate>, replies: Seq<StorageReply>)
    requires
        1 <= plan.len() <= 2,
        replies.len() == plan.len() + 3,
        forall|i: int| 0 <= i < replies.len() ==> applied(#[trigger] replies[i]),
    ensures
        actions_over(unit_for(plan), replies) == plan.map_values(
            |u: BalanceUpdate| UnitAction::Update(u),
        ) + seq![UnitAction::InsertRecord, UnitAction::Commit, UnitAction::Complete],
{
    reveal_with_fuel(actions_over, 6);
    let expected = plan.map_values(|u: BalanceUpdate| UnitAction::Update(u)) + seq![
        UnitAction::InsertRecord,
        UnitAction::Commit,
        UnitAction::Complete,
    ];
    let r1 = replies.subrange(1, replies.len() as int);
    let r2 = r1.subrange(1, r1.len() as int);
    let r3 = r2.subrange(1, r2.len() as int);
    let r4 = r3.subrange(1, r3.len() as int);
    let r5 = r4.subrange(1, r4.len() as int);
    assert(applied(replies[0]) && applied(replies[1]) && applied(replies[2]) && applied(replies[3]));
    assert(r1[0] == replies[1] && r2[0] == replies[2] && r3[0] == replies[3]);
    if plan.len() == 2 {
        assert(applied(replies[4]));
        assert(r4[0] == replies[4]);
        assert(r5.len() == 0);
    } else {
        assert(r4.len() == 0);
    }
    assert(actions_over(unit_for(plan), replies) =~= expected);
}

/// How a row store answers an action of the unit, and the balances it then
/// holds inside its open transaction. A conditional debit touches its row
/// only where the balance covers the amount; a credit touches its row where
/// the account exists, and fails where the new balance cannot be stored; the
/// record is accepted where every account it names exists.
pub open spec fn storage_answer(
    working: Map<u128, u64>,
    from: Option<u128>,
    to: Option<u128>,
    action: UnitAction,
) -> (Map<u128, u64>, StorageReply) {
    match action {
        UnitAction::Update(BalanceUpdate::ConditionalDebit { account, amount }) => {
            if working.dom().contains(account) && working[account] >= amount {
                (
                    working.insert(account, (working[account] - amount) as u64),
                    StorageReply::Succeeded { rows_affected: 1 },
                )
            } else {
                (working, StorageReply::Succeeded { rows_affected: 0 })
            }
        },
        UnitAction::Update(BalanceUpdate::Credit { account, amount }) => {
            if !working.dom().contains(account) {
                (working, StorageReply::Succeeded { rows_affected: 0 })
            } else if working[account] + amount > u64::MAX {
                (working, StorageReply::Failed)
            } else {
                (
                    working.insert(account, (working[account] + amount) as u64),
                    StorageReply::Succeeded { rows_affected: 1 },
                )
            }
        },
        UnitAction::InsertRecord => {
            if (from matches Some(f) ==> working.dom().contains(f)) && (to matches Some(t)
                ==> working.dom().contains(t)) {
                (working, StorageReply::Succeeded { rows_affected: 1 })
            } else {
                (working, StorageReply::Failed)
            }
        },
        _ => (working, StorageReply::Succeeded { rows_affected: 0 }),
    }
}

/// The unit driven against such a store for at most `steps` actions: the
/// action it ends on, and the balances inside the store's transaction.
pub open spec fn driven(
    unit: TxnUnit,
    action: UnitAction,
    working: Map<u128, u64>,
    from: Option<u128>,
    to: Option<u128>,
    steps: nat,
) -> (UnitAction, Map<u128, u64>)
    decreases steps,
{
    if steps == 0 || action is Complete || action is Abort {
        (action, working)
    } else {
        let (next_working, reply) = storage_answer(working, from, to, action);
        let (next_unit, next_action) = unit_step(unit, reply);
        driven(next_unit, next_action, next_working, from, to, (steps - 1) as nat)
    }
}

/// Driven against a row store, the unit of a well-shaped request does what
/// [`execute`] says: it completes exactly where `execute` succeeds, with
/// those balances in the committed transaction, and otherwise aborts with
/// the error that `execute` gives, so that the store's transaction is
/// abandoned and no balance changes.
pub proof fn unit_realises_execute(
    balances: Map<u128, u64>,
    kind: TxnKind,
    from: Option<u128>,
    to: Option<u128>,
    amount: u64,
)
    requires
        shape_fault(kind, from, to) is None,
    ensures
        match execute(balances, kind, from, to, amount) {
            Ok(after) => driven(
                unit_for(updates_of(kind, from, to, amount)),
                UnitAction::Begin,
                balances,
                from,
                to,
                6,
            ) == (UnitAction::Complete, after),
            Err(e) => driven(
                unit_for(updates_of(kind, from, to, amount)),
                UnitAction::Begin,
                balances,
                from,
                to,
                6,
            ).0 == UnitAction::Abort(e),
        },
{
    reveal_with_fuel(driven, 7);
}

} // verus!
