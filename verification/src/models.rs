//! The records of the service, held as plain values: identifiers are 128-bit
//! integers, timestamps are milliseconds since the Unix epoch, and money is a
//! whole number of minor units.

use vstd::prelude::*;

verus! {

/// An account and its balance in minor units.
#[derive(Debug, Clone)]
pub struct Account {
    pub id: u128,
    pub business_name: String,
    pub balance: u64,
    pub created_at: i64,
    pub updated_at: i64,
}

#[derive(Debug, Clone)]
pub struct CreateAccountRequest {
    pub business_name: String,
    pub initial_balance: Option<u64>,
}

#[derive(Debug, Clone, Copy, PartialEq, Eq)]
pub struct AccountBalance {
    pub account_id: u128,
    pub balance: u64,
}

/// A completed movement of money. `txn_type` is one of `credit`, `debit`
/// and `transfer`; `status` is always `completed`.
#[derive(Debug, Clone)]
pub struct Transaction {
    pub id: u128,
    pub from_account: Option<u128>,
    pub to_account: Option<u128>,
    pub amount: u64,
    pub txn_type: String,
    pub status: String,
    pub created_at: i64,
}

#[derive(Debug, Clone)]
pub struct CreateTransactionRequest {
    pub from_account_id: Option<u128>,
    pub to_account_id: Option<u128>,
    pub amount: u64,
    pub txn_type: String,
}

/// A stored API key: the fingerprint is the lookup index, the hash the
/// verification secret. The raw key is never part of the record.
#[derive(Debug, Clone)]
pub struct ApiKey {
    pub id: u128,
    pub account_id: u128,
    pub key_fingerprint: String,
    pub key_hash: String,
    pub created_at: i64,
    pub last_used: Option<i64>,
}

#[derive(Debug, Clone, Copy, PartialEq, Eq)]
pub struct CreateApiKeyRequest {
    pub account_id: u128,
}

#[derive(Debug, Clone)]
pub struct Webhook {
    pub id: u128,
    pub account_id: u128,
    pub url: String,
    pub secret: String,
    pub created_at: i64,
}

#[derive(Debug, Clone)]
pub struct CreateWebhookRequest {
    pub account_id: u128,
    pub url: String,
}

/// The audit record of one (webhook, transaction) pair.
#[derive(Debug, Clone, Copy, PartialEq, Eq)]
pub struct WebhookEvent {
    pub id: u128,
    pub webhook_id: u128,
    pub txn_id: u128,
    pub delivered: bool,
    pub retry_count: i32,
    pub last_attempt: Option<i64>,
    pub created_at: i64,
}

#[derive(Debug, Clone)]
pub struct WebhookPayload {
    pub event_type: String,
    pub transaction: Transaction,
    pub timestamp: i64,
}

/// What a caller is told when a request fails: a stable machine-readable
/// code and a sentence for people.
#[derive(Debug, Clone)]
pub struct ErrorResponse {
    pub code: String,
    pub message: String,
}

impl ErrorResponse {
    pub fn new(code: &str, message: &str) -> (r: Self)
        ensures
            r.code@ == code@,
            r.message@ == message@,
    {
        ErrorResponse { code: code.to_owned(), message: message.to_owned() }
    }

    /// The fields of the response in the order in which they are written
    /// out: `code`, `message`, and the code once more under the older name
    /// `error`.
    pub fn wire_fields(&self) -> (r: Vec<(String, String)>)
        ensures
            r@.len() == 3,
            r@[0].0@ == "code"@ && r@[0].1@ == self.code@,
            r@[1].0@ == "message"@ && r@[1].1@ == self.message@,
            r@[2].0@ == "error"@ && r@[2].1@ == self.code@,
    {
        let mut out: Vec<(String, String)> = Vec::new();
        out.push(("code".to_owned(), self.code.clone()));
        out.push(("message".to_owned(), self.message.clone()));
        out.push(("error".to_owned(), self.code.clone()));
        out
    }
}

} // verus!
