use transaction_service::models::{CreateWebhookRequest, Transaction, Webhook, WebhookEvent};
use transaction_service::webhook::{
    after_attempt, backoff_seconds, build_payload, build_request, involved_accounts, new_event,
    outcome_delivered, recipients, create_webhook, run_delivery, webhooks_of, sign_payload, status_is_success, AttemptOutcome, NextStep,
    MAX_RETRIES,
};

fn transaction(from: Option<u128>, to: Option<u128>) -> Transaction {
    Transaction {
        id: 1,
        from_account: from,
        to_account: to,
        amount: 10,
        txn_type: "transfer".to_string(),
        status: "completed".to_string(),
        created_at: 0,
    }
}

const FAIL: AttemptOutcome = AttemptOutcome::Response { status: 500 };
const OK: AttemptOutcome = AttemptOutcome::Response { status: 200 };

#[test]
fn involved_accounts_are_distinct() {
    assert_eq!(involved_accounts(&transaction(Some(1), Some(2))), vec![1, 2]);
    assert_eq!(involved_accounts(&transaction(Some(1), Some(1))), vec![1]);
    assert_eq!(involved_accounts(&transaction(Some(1), None)), vec![1]);
    assert_eq!(involved_accounts(&transaction(None, Some(2))), vec![2]);
    assert_eq!(involved_accounts(&transaction(None, None)), Vec::<u128>::new());
}

#[test]
fn new_events_are_undelivered() {
    let event = new_event(5, 6, 7, 8);
    assert_eq!(
        event,
        WebhookEvent {
            id: 5,
            webhook_id: 6,
            txn_id: 7,
            delivered: false,
            retry_count: 0,
            last_attempt: None,
            created_at: 8,
        }
    );
}

#[test]
fn payload_names_the_event() {
    let payload = build_payload(transaction(Some(1), None), 99);
    assert_eq!(payload.event_type, "transaction.created");
    assert_eq!(payload.transaction.id, 1);
    assert_eq!(payload.timestamp, 99);
}

#[test]
fn signature_is_hex_hmac() {
    assert_eq!(
        sign_payload("key", b"The quick brown fox jumps over the lazy dog"),
        "sha256=f7bc83f430538424b13298e6aa6fb143ef4d59a14946175997479dbc2d1a3cd8"
    );
    assert_eq!(
        sign_payload("s3cret", b"{\"a\":1}"),
        "sha256=5910e62016ef5034272c926c27071992a465c2335cecf41851bda071577f4f6d"
    );
}

#[test]
fn request_carries_the_signed_body() {
    let webhook = Webhook {
        id: 1,
        account_id: 2,
        url: "http://example.test/hook".to_string(),
        secret: "s3cret".to_string(),
        created_at: 0,
    };
    let request = build_request(&webhook, b"{\"a\":1}".to_vec());
    assert_eq!(request.url, "http://example.test/hook");
    assert_eq!(request.content_type, "application/json");
    assert_eq!(
        request.signature,
        "sha256=5910e62016ef5034272c926c27071992a465c2335cecf41851bda071577f4f6d"
    );
    assert_eq!(request.body, b"{\"a\":1}".to_vec());
}

#[test]
fn success_is_any_2xx() {
    assert!(!status_is_success(199));
    assert!(status_is_success(200));
    assert!(status_is_success(204));
    assert!(status_is_success(299));
    assert!(!status_is_success(300));
    assert!(!status_is_success(404));
    assert!(outcome_delivered(OK));
    assert!(!outcome_delivered(FAIL));
    assert!(!outcome_delivered(AttemptOutcome::TransportError));
    assert!(!outcome_delivered(AttemptOutcome::SerializationFailed));
}

#[test]
fn backoff_doubles() {
    assert_eq!(MAX_RETRIES, 3);
    assert_eq!(backoff_seconds(0), 1);
    assert_eq!(backoff_seconds(1), 2);
    assert_eq!(backoff_seconds(2), 4);
}

#[test]
fn every_attempt_is_recorded() {
    let event = new_event(5, 6, 7, 8);
    let (failed, next) = after_attempt(event, 0, AttemptOutcome::TransportError, 100);
    assert!(!failed.delivered);
    assert_eq!(failed.retry_count, 0);
    assert_eq!(failed.last_attempt, Some(100));
    assert_eq!(next, NextStep::RetryAfter { seconds: 1 });

    let (again, next) = after_attempt(failed, 1, FAIL, 1_100);
    assert_eq!(again.retry_count, 1);
    assert_eq!(next, NextStep::RetryAfter { seconds: 2 });

    let (last, next) = after_attempt(again, 3, FAIL, 7_100);
    assert!(!last.delivered);
    assert_eq!(last.retry_count, 3);
    assert_eq!(next, NextStep::Stop);

    let (done, next) = after_attempt(again, 2, OK, 3_100);
    assert!(done.delivered);
    assert_eq!(done.retry_count, 2);
    assert_eq!(done.last_attempt, Some(3_100));
    assert_eq!(done.id, 5);
    assert_eq!(done.webhook_id, 6);
    assert_eq!(done.txn_id, 7);
    assert_eq!(done.created_at, 8);
    assert_eq!(next, NextStep::Stop);
}

#[test]
fn serialization_failure_is_not_retried() {
    let event = new_event(5, 6, 7, 8);
    let (marked, next) = after_attempt(event, 0, AttemptOutcome::SerializationFailed, 100);
    assert!(!marked.delivered);
    assert_eq!(marked.retry_count, 0);
    assert_eq!(next, NextStep::Stop);
    let report = run_delivery(event, &vec![AttemptOutcome::SerializationFailed, OK], 0);
    assert_eq!(report.attempts, 1);
    assert!(!report.event.delivered);
}

#[test]
fn third_attempt_succeeds() {
    let event = new_event(5, 6, 7, 8);
    let report = run_delivery(event, &vec![FAIL, AttemptOutcome::TransportError, OK, OK], 10_000);
    assert!(report.event.delivered);
    assert_eq!(report.event.retry_count, 2);
    assert_eq!(report.attempts, 3);
    assert_eq!(report.delays, vec![1, 2]);
    assert_eq!(report.event.last_attempt, Some(13_000));
}

#[test]
fn endpoint_always_fails() {
    let event = new_event(5, 6, 7, 8);
    let report = run_delivery(event, &vec![FAIL, FAIL, FAIL, FAIL, FAIL, OK], 0);
    assert!(!report.event.delivered);
    assert_eq!(report.event.retry_count, 3);
    assert_eq!(report.attempts, 4);
    assert_eq!(report.delays, vec![1, 2, 4]);
    assert_eq!(report.event.last_attempt, Some(7_000));
}

#[test]
fn first_attempt_succeeds() {
    let event = new_event(5, 6, 7, 8);
    let report = run_delivery(event, &vec![OK], 42);
    assert!(report.event.delivered);
    assert_eq!(report.event.retry_count, 0);
    assert_eq!(report.attempts, 1);
    assert_eq!(report.delays, Vec::<u64>::new());
    assert_eq!(report.event.last_attempt, Some(42));
    let idle = run_delivery(event, &Vec::new(), 42);
    assert_eq!(idle.attempts, 0);
    assert_eq!(idle.event, event);
}

#[test]
fn registered_webhook_gets_a_secret() {
    let request = CreateWebhookRequest { account_id: 3, url: "http://example.test/h".to_string() };
    let webhook = create_webhook(9, request, 77);
    assert_eq!(webhook.id, 9);
    assert_eq!(webhook.account_id, 3);
    assert_eq!(webhook.url, "http://example.test/h");
    assert_eq!(webhook.created_at, 77);
    assert_eq!(webhook.secret.len(), 32);
    assert!(webhook.secret.chars().all(|c| c.is_ascii_alphanumeric()));
}

fn hook(id: u128, account_id: u128) -> Webhook {
    Webhook {
        id,
        account_id,
        url: "http://example.test/hook".to_string(),
        secret: "s".to_string(),
        created_at: 0,
    }
}

#[test]
fn fan_out_reaches_each_webhook_once() {
    let hooks = vec![hook(10, 1), hook(11, 2), hook(12, 1), hook(13, 3)];
    assert_eq!(webhooks_of(&hooks, 1), vec![0, 2]);
    assert_eq!(webhooks_of(&hooks, 9), Vec::<usize>::new());
    assert_eq!(recipients(&hooks, &transaction(Some(1), Some(2))), vec![0, 2, 1]);
    assert_eq!(recipients(&hooks, &transaction(Some(2), Some(1))), vec![1, 0, 2]);
    assert_eq!(recipients(&hooks, &transaction(Some(1), Some(1))), vec![0, 2]);
    assert_eq!(recipients(&hooks, &transaction(None, Some(3))), vec![3]);
    assert_eq!(recipients(&hooks, &transaction(None, None)), Vec::<usize>::new());
    assert_eq!(recipients(&Vec::new(), &transaction(Some(1), Some(2))), Vec::<usize>::new());
}
