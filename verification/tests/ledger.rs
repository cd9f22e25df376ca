use transaction_service::ledger::{
    check_update, parse_kind, plan_updates, validate_request, BalanceUpdate, StorageStep, TxnError,
    TxnKind,
};
use transaction_service::models::{CreateAccountRequest, CreateTransactionRequest, ErrorResponse};
use transaction_service::store::Ledger;

fn request(kind: &str, from: Option<u128>, to: Option<u128>, amount: u64) -> CreateTransactionRequest {
    CreateTransactionRequest {
        from_account_id: from,
        to_account_id: to,
        amount,
        txn_type: kind.to_string(),
    }
}

fn account(name: &str, initial_balance: Option<u64>) -> CreateAccountRequest {
    CreateAccountRequest { business_name: name.to_string(), initial_balance }
}

#[test]
fn kinds_are_parsed() {
    assert_eq!(parse_kind(&"credit".to_string()), Some(TxnKind::Credit));
    assert_eq!(parse_kind(&"debit".to_string()), Some(TxnKind::Debit));
    assert_eq!(parse_kind(&"transfer".to_string()), Some(TxnKind::Transfer));
    assert_eq!(parse_kind(&"Credit".to_string()), None);
    assert_eq!(parse_kind(&"".to_string()), None);
}

#[test]
fn shape_rules() {
    assert_eq!(validate_request(&request("refund", None, Some(1), 5)), Err(TxnError::InvalidType));
    assert_eq!(validate_request(&request("credit", None, Some(1), 5)), Ok(TxnKind::Credit));
    assert_eq!(
        validate_request(&request("credit", Some(2), Some(1), 5)),
        Err(TxnError::CreditWithSource)
    );
    assert_eq!(
        validate_request(&request("credit", Some(2), None, 5)),
        Err(TxnError::CreditWithSource)
    );
    assert_eq!(
        validate_request(&request("credit", None, None, 5)),
        Err(TxnError::CreditWithoutDestination)
    );
    assert_eq!(validate_request(&request("debit", Some(1), None, 5)), Ok(TxnKind::Debit));
    assert_eq!(
        validate_request(&request("debit", None, None, 5)),
        Err(TxnError::DebitWithoutSource)
    );
    assert_eq!(
        validate_request(&request("debit", Some(1), Some(2), 5)),
        Err(TxnError::DebitWithDestination)
    );
    assert_eq!(validate_request(&request("transfer", Some(1), Some(2), 5)), Ok(TxnKind::Transfer));
    assert_eq!(
        validate_request(&request("transfer", Some(1), None, 5)),
        Err(TxnError::TransferIncomplete)
    );
    assert_eq!(
        validate_request(&request("transfer", None, Some(2), 5)),
        Err(TxnError::TransferIncomplete)
    );
}

#[test]
fn plans_list_the_updates_in_order() {
    assert_eq!(
        plan_updates(TxnKind::Credit, None, Some(9), 5),
        vec![BalanceUpdate::Credit { account: 9, amount: 5 }]
    );
    assert_eq!(
        plan_updates(TxnKind::Debit, Some(4), None, 5),
        vec![BalanceUpdate::ConditionalDebit { account: 4, amount: 5 }]
    );
    assert_eq!(
        plan_updates(TxnKind::Transfer, Some(4), Some(9), 5),
        vec![
            BalanceUpdate::ConditionalDebit { account: 4, amount: 5 },
            BalanceUpdate::Credit { account: 9, amount: 5 },
        ]
    );
}

#[test]
fn untouched_row_means_insufficient_funds() {
    let debit = BalanceUpdate::ConditionalDebit { account: 1, amount: 5 };
    let credit = BalanceUpdate::Credit { account: 1, amount: 5 };
    assert_eq!(check_update(debit, 0), Err(TxnError::InsufficientFunds));
    assert_eq!(check_update(debit, 1), Ok(()));
    assert_eq!(check_update(credit, 0), Ok(()));
    assert_eq!(check_update(credit, 1), Ok(()));
}

#[test]
fn error_responses() {
    let cases: Vec<(TxnError, u16, &str, &str)> = vec![
        (
            TxnError::InvalidType,
            400,
            "invalid_transaction_type",
            "Transaction type must be 'credit', 'debit', or 'transfer'",
        ),
        (
            TxnError::CreditWithSource,
            400,
            "invalid_credit",
            "Credit transactions should not have a from_account_id",
        ),
        (
            TxnError::CreditWithoutDestination,
            400,
            "invalid_credit",
            "Credit transactions must have a to_account_id",
        ),
        (
            TxnError::DebitWithoutSource,
            400,
            "invalid_debit",
            "Debit transactions must have a from_account_id",
        ),
        (
            TxnError::DebitWithDestination,
            400,
            "invalid_debit",
            "Debit transactions should not have a to_account_id",
        ),
        (
            TxnError::TransferIncomplete,
            400,
            "invalid_transfer",
            "Transfer transactions must have both from_account_id and to_account_id",
        ),
        (TxnError::InsufficientFunds, 400, "insufficient_funds", "Insufficient funds"),
        (TxnError::Storage(StorageStep::Begin), 500, "database_error", "Failed to begin transaction"),
        (
            TxnError::Storage(StorageStep::UpdateBalance),
            500,
            "database_error",
            "Failed to update balance",
        ),
        (
            TxnError::Storage(StorageStep::InsertRecord),
            500,
            "database_error",
            "Failed to create transaction",
        ),
        (
            TxnError::Storage(StorageStep::Commit),
            500,
            "database_error",
            "Failed to commit transaction",
        ),
    ];
    for (error, status, code, message) in cases {
        assert_eq!(error.status(), status);
        assert_eq!(error.code(), code);
        assert_eq!(error.message(), message);
        let body = error.to_response();
        assert_eq!(body.code, code);
        assert_eq!(body.message, message);
    }
}

#[test]
fn error_response_keeps_the_older_field() {
    let body = ErrorResponse::new("not_found", "Account not found");
    assert_eq!(body.code, "not_found");
    assert_eq!(body.message, "Account not found");
    let fields = body.wire_fields();
    assert_eq!(
        fields,
        vec![
            ("code".to_string(), "not_found".to_string()),
            ("message".to_string(), "Account not found".to_string()),
            ("error".to_string(), "not_found".to_string()),
        ]
    );
}

#[test]
fn debit_then_overdraft() {
    let mut ledger = Ledger::new();
    assert!(ledger.create_account(1, account("TestCo", Some(10_000)), 0));
    let done = ledger
        .create_transaction(&request("debit", Some(1), None, 4_000), 77, 5)
        .expect("debit is covered");
    assert_eq!(done.id, 77);
    assert_eq!(done.txn_type, "debit");
    assert_eq!(done.status, "completed");
    assert_eq!(done.amount, 4_000);
    assert_eq!(done.from_account, Some(1));
    assert_eq!(done.to_account, None);
    assert_eq!(done.created_at, 5);
    assert_eq!(ledger.get_account_balance(1).map(|b| b.balance), Some(6_000));
    assert_eq!(ledger.transaction_count(), 1);

    let refused = ledger.create_transaction(&request("debit", Some(1), None, 7_000), 78, 6);
    assert_eq!(refused.err(), Some(TxnError::InsufficientFunds));
    assert_eq!(ledger.get_account_balance(1).map(|b| b.balance), Some(6_000));
    assert_eq!(ledger.transaction_count(), 1);
}

#[test]
fn credit_with_both_accounts_changes_nothing() {
    let mut ledger = Ledger::new();
    assert!(ledger.create_account(1, account("A", Some(50)), 0));
    assert!(ledger.create_account(2, account("B", None), 0));
    let refused = ledger.create_transaction(&request("credit", Some(1), Some(2), 10), 1, 1);
    assert_eq!(refused.err(), Some(TxnError::CreditWithSource));
    assert_eq!(ledger.get_account_balance(1).map(|b| b.balance), Some(50));
    assert_eq!(ledger.get_account_balance(2).map(|b| b.balance), Some(0));
    assert_eq!(ledger.transaction_count(), 0);
}

#[test]
fn transfer_moves_money_or_nothing() {
    let mut ledger = Ledger::new();
    assert!(ledger.create_account(1, account("A", Some(50)), 0));
    assert!(ledger.create_account(2, account("B", Some(5)), 0));
    assert!(ledger.create_transaction(&request("transfer", Some(1), Some(2), 20), 1, 1).is_ok());
    assert_eq!(ledger.get_account_balance(1).map(|b| b.balance), Some(30));
    assert_eq!(ledger.get_account_balance(2).map(|b| b.balance), Some(25));

    let refused = ledger.create_transaction(&request("transfer", Some(1), Some(2), 31), 2, 2);
    assert_eq!(refused.err(), Some(TxnError::InsufficientFunds));
    let unknown = ledger.create_transaction(&request("transfer", Some(1), Some(3), 10), 3, 3);
    assert_eq!(unknown.err(), Some(TxnError::Storage(StorageStep::InsertRecord)));
    assert_eq!(ledger.get_account_balance(1).map(|b| b.balance), Some(30));
    assert_eq!(ledger.get_account_balance(2).map(|b| b.balance), Some(25));
    assert_eq!(ledger.transaction_count(), 1);

    assert!(ledger.create_transaction(&request("transfer", Some(1), Some(1), 30), 4, 4).is_ok());
    assert_eq!(ledger.get_account_balance(1).map(|b| b.balance), Some(30));
}

#[test]
fn credit_edges() {
    let mut ledger = Ledger::new();
    assert!(ledger.create_account(1, account("A", Some(u64::MAX - 1)), 0));
    assert!(!ledger.create_account(1, account("again", Some(3)), 0));
    assert!(ledger.create_transaction(&request("credit", None, Some(1), 1), 1, 1).is_ok());
    assert_eq!(ledger.get_account_balance(1).map(|b| b.balance), Some(u64::MAX));
    let full = ledger.create_transaction(&request("credit", None, Some(1), 1), 2, 2);
    assert_eq!(full.err(), Some(TxnError::Storage(StorageStep::UpdateBalance)));
    let unknown = ledger.create_transaction(&request("credit", None, Some(9), 1), 3, 3);
    assert_eq!(unknown.err(), Some(TxnError::Storage(StorageStep::InsertRecord)));
    assert_eq!(ledger.get_account_balance(9), None);
    let missing = ledger.create_transaction(&request("debit", Some(9), None, 1), 4, 4);
    assert_eq!(missing.err(), Some(TxnError::InsufficientFunds));
    assert_eq!(ledger.transaction_count(), 1);
}

#[test]
fn contending_debits_never_overdraw() {
    let mut ledger = Ledger::new();
    assert!(ledger.create_account(1, account("A", Some(100)), 0));
    let amounts: Vec<u64> = vec![60, 50, 30, 20, 10];
    let mut granted: u64 = 0;
    for (i, amount) in amounts.iter().enumerate() {
        let outcome = ledger.create_transaction(&request("debit", Some(1), None, *amount), i as u128, 0);
        if outcome.is_ok() {
            granted += *amount;
        }
    }
    assert_eq!(granted, 100);
    assert_eq!(ledger.get_account_balance(1).map(|b| b.balance), Some(0));
}
