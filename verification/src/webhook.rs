//! Webhook delivery: who is notified of a transaction, how a notification is
//! signed, and the retry policy of one delivery, as a step from the outcome
//! of an attempt to what is recorded and what happens next.

use vstd::prelude::*;
use vstd::utf8::encode_utf8;
use crate::digest::{hex_encode, hex_string, hmac_sha256, hmac_sha256_tag};
use crate::auth::{generate_webhook_secret, is_alphanumeric, GENERATED_LEN};
use crate::ledger::involved;
use crate::models::{CreateWebhookRequest, Transaction, Webhook, WebhookEvent, WebhookPayload};

verus! {

/// Retries after the first attempt: attempts are numbered `0..=MAX_RETRIES`.
pub const MAX_RETRIES: i32 = 3;

/// The header that carries the signature of a notification.
pub const SIGNATURE_HEADER: &'static str = "X-Signature";

/// How one delivery attempt ended.
#[derive(Debug, Clone, Copy, PartialEq, Eq, Structural)]
pub enum AttemptOutcome {
    /// The payload could not be turned into bytes; nothing was sent.
    SerializationFailed,
    /// The endpoint answered with this HTTP status.
    Response { status: u16 },
    /// The request failed before any answer: network error or timeout.
    TransportError,
}

/// What the delivery does after an attempt has been recorded.
#[derive(Debug, Clone, Copy, PartialEq, Eq, Structural)]
pub enum NextStep {
    Stop,
    RetryAfter { seconds: u64 },
}

/// A notification ready to be posted.
#[derive(Debug, Clone)]
pub struct OutboundRequest {
    pub url: String,
    pub content_type: String,
    pub signature: String,
    pub body: Vec<u8>,
}

/// What a run of attempts left behind.
#[derive(Debug, Clone)]
pub struct DeliveryReport {
    pub event: WebhookEvent,
    pub attempts: usize,
    pub delays: Vec<u64>,
}

/// The positions, in order, of the webhooks registered against `account`.
pub open spec fn registered_for(registered: Seq<Webhook>, account: u128) -> Seq<int>
    decreases registered.len(),
{
    if registered.len() == 0 {
        Seq::<int>::empty()
    } else {
        let earlier = registered_for(registered.drop_last(), account);
        if registered.last().account_id == account {
            earlier.push(registered.len() - 1)
        } else {
            earlier
        }
    }
}

/// A list of positions as integers.
pub open spec fn positions(found: Seq<usize>) -> Seq<int> {
    Seq::new(found.len(), |k: int| found[k] as int)
}

/// The positions of the webhooks that are notified of a transaction: those
/// of its source account, then those of its destination, where that is
/// another account.
pub open spec fn recipients_of(registered: Seq<Webhook>, from: Option<u128>, to: Option<u128>) -> Seq<
    int,
> {
    let ids = involved(from, to);
    if ids.len() == 0 {
        Seq::<int>::empty()
    } else if ids.len() == 1 {
        registered_for(registered, ids[0])
    } else {
        registered_for(registered, ids[0]) + registered_for(registered, ids[1])
    }
}

/// The value of the signature header for `body` under `secret`.
pub open spec fn signature_of(secret: Seq<char>, body: Seq<u8>) -> Seq<char> {
    "sha256="@ + hex_string(hmac_sha256(encode_utf8(secret), body))
}

/// Any status of the 2xx class.
pub open spec fn is_success(status: u16) -> bool {
    200 <= status < 300
}

/// Whether the attempt delivered the notification.
pub open spec fn delivered_by(outcome: AttemptOutcome) -> bool {
    outcome matches AttemptOutcome::Response { status } && is_success(status)
}

/// Seconds to wait after failed attempt number `attempt`: two to its power.
pub open spec fn backoff(attempt: nat) -> nat
    decreases attempt,
{
    if attempt == 0 {
        1
    } else {
        2 * backoff((attempt - 1) as nat)
    }
}

/// What follows attempt number `attempt`: nothing more after a delivery, a
/// payload that does not serialise, or the last attempt; otherwise another
/// attempt after the backoff delay.
pub open spec fn next_step(attempt: int, outcome: AttemptOutcome) -> NextStep {
    if delivered_by(outcome) || outcome is SerializationFailed || attempt >= MAX_RETRIES {
        NextStep::Stop
    } else {
        NextStep::RetryAfter { seconds: backoff(attempt as nat) as u64 }
    }
}

/// The event as stored after attempt number `attempt` at time `now`.
pub open spec fn event_after(event: WebhookEvent, attempt: i32, outcome: AttemptOutcome, now: i64) -> WebhookEvent {
    WebhookEvent {
        delivered: delivered_by(outcome),
        retry_count: attempt,
        last_attempt: Some(now),
        ..event
    }
}

/// Milliseconds from the first attempt to attempt number `attempt` when all
/// attempts before it failed: the backoff delays added up.
pub open spec fn elapsed_before(attempt: nat) -> nat
    decreases attempt,
{
    if attempt == 0 {
        0
    } else {
        elapsed_before((attempt - 1) as nat) + 1000 * backoff((attempt - 1) as nat)
    }
}

/// The distinct accounts that a transaction involves.
pub fn involved_accounts(transaction: &Transaction) -> (ids: Vec<u128>)
    ensures
        ids@ == involved(transaction.from_account, transaction.to_account),
{
    let mut ids: Vec<u128> = Vec::new();
    if let Some(from) = transaction.from_account {
        ids.push(from);
    }
    if let Some(to) = transaction.to_account {
        let repeated = match transaction.from_account {
            Some(from) => from == to,
            None => false,
        };
        if !repeated {
            ids.push(to);
        }
    }
    assert(ids@ =~= involved(transaction.from_account, transaction.to_account));
    ids
}

/// The webhooks registered against one account, by position.
pub fn webhooks_of(registered: &Vec<Webhook>, account: u128) -> (found: Vec<usize>)
    ensures
        positions(found@) == registered_for(registered@, account),
{
    let mut found: Vec<usize> = Vec::new();
    let mut i: usize = 0;
    assert(positions(found@) =~= registered_for(registered@.take(0), account));
    while i < registered.len()
        invariant
            i <= registered@.len(),
            positions(found@) == registered_for(registered@.take(i as int), account),
        decreases registered@.len() - i,
    {
        let ghost before = found@;
        proof {
            assert(registered@.take(i + 1).drop_last() =~= registered@.take(i as int));
        }
        if registered[i].account_id == account {
            found.push(i);
            assert(positions(found@) =~= positions(before).push(i as int));
        }
        i += 1;
    }
    proof {
        assert(registered@.take(i as int) =~= registered@);
    }
    found
}

/// The webhooks that are notified of a transaction, by position: one entry,
/// and so one event, for each webhook of each involved account.
pub fn recipients(registered: &Vec<Webhook>, transaction: &Transaction) -> (found: Vec<usize>)
    ensures
        positions(found@) == recipients_of(
            registered@,
            transaction.from_account,
            transaction.to_account,
        ),
{
    let ids = involved_accounts(transaction);
    let mut found: Vec<usize> = Vec::new();
    if ids.len() >= 1 {
        found = webhooks_of(registered, ids[0]);
    }
    if ids.len() >= 2 {
        let ghost first = found@;
        let mut more = webhooks_of(registered, ids[1]);
        let ghost second = more@;
        found.append(&mut more);
        assert(positions(found@) =~= positions(first) + positions(second));
    }
    assert(ids@.len() == 0 ==> positions(found@) =~= Seq::<int>::empty());
    found
}

/// Registers a webhook for the account and address asked for, under a fresh
/// random secret of thirty-two letters and digits.
pub fn create_webhook(id: u128, request: CreateWebhookRequest, now: i64) -> (webhook: Webhook)
    ensures
        webhook.id == id,
        webhook.account_id == request.account_id,
        webhook.url == request.url,
        webhook.created_at == now,
        webhook.secret@.len() == GENERATED_LEN,
        forall|i: int|
            0 <= i < webhook.secret@.len() ==> is_alphanumeric(#[trigger] webhook.secret@[i]),
{
    Webhook {
        id,
        account_id: request.account_id,
        url: request.url,
        secret: generate_webhook_secret(),
        created_at: now,
    }
}

/// The event created for a (webhook, transaction) pair before any attempt:
/// not delivered, no retries, never attempted.
pub fn new_event(id: u128, webhook_id: u128, txn_id: u128, now: i64) -> (event: WebhookEvent)
    ensures
        event == (WebhookEvent {
            id,
            webhook_id,
            txn_id,
            delivered: false,
            retry_count: 0,
            last_attempt: None,
            created_at: now,
        }),
{
    WebhookEvent {
        id,
        webhook_id,
        txn_id,
        delivered: false,
        retry_count: 0,
        last_attempt: None,
        created_at: now,
    }
}

/// The payload that announces a transaction.
pub fn build_payload(transaction: Transaction, now: i64) -> (payload: WebhookPayload)
    ensures
        payload.event_type@ == "transaction.created"@,
        payload.transaction == transaction,
        payload.timestamp == now,
{
    WebhookPayload { event_type: "transaction.created".to_owned(), transaction, timestamp: now }
}

/// The signature header of a body: `sha256=` and the HMAC-SHA-256 of the
/// exact bytes under the webhook's secret, in hexadecimal.
pub fn sign_payload(secret: &str, body: &[u8]) -> (header: String)
    ensures
        header@ == signature_of(secret@, body@),
{
    let tag = hmac_sha256_tag(secret.as_bytes(), body);
    let hex = hex_encode(tag.as_slice());
    let mut header = "sha256=".to_owned();
    header.append(hex.as_str());
    header
}

/// The request that carries `body` to a webhook: JSON content type, and the
/// signature over exactly the bytes that are sent.
pub fn build_request(webhook: &Webhook, body: Vec<u8>) -> (request: OutboundRequest)
    ensures
        request.url@ == webhook.url@,
        request.content_type@ == "application/json"@,
        request.signature@ == signature_of(webhook.secret@, body@),
        request.body@ == body@,
{
    let signature = sign_payload(webhook.secret.as_str(), body.as_slice());
    OutboundRequest {
        url: webhook.url.clone(),
        content_type: "application/json".to_owned(),
        signature,
        body,
    }
}

/// Whether a status is of the 2xx class.
pub fn status_is_success(status: u16) -> (r: bool)
    ensures
        r == is_success(status),
{
    200 <= status && status < 300
}

/// Whether an attempt delivered the notification.
pub fn outcome_delivered(outcome: AttemptOutcome) -> (r: bool)
    ensures
        r == delivered_by(outcome),
{
    match outcome {
        AttemptOutcome::Response { status } => status_is_success(status),
        _ => false,
    }
}

/// Seconds to wait after failed attempt number `attempt`.
pub fn backoff_seconds(attempt: i32) -> (seconds: u64)
    requires
        0 <= attempt < MAX_RETRIES,
    ensures
        seconds == backoff(attempt as nat),
{
    reveal_with_fuel(backoff, 4);
    if attempt == 0 {
        1
    } else if attempt == 1 {
        2
    } else {
        4
    }
}

/// Records attempt number `attempt` on the event and decides what follows.
/// Every attempt is recorded, failed ones too.
pub fn after_attempt(event: WebhookEvent, attempt: i32, outcome: AttemptOutcome, now: i64) -> (r: (
    WebhookEvent,
    NextStep,
))
    requires
        0 <= attempt <= MAX_RETRIES,
    ensures
        r.0 == event_after(event, attempt, outcome, now),
        r.1 == next_step(attempt as int, outcome),
{
    let delivered = outcome_delivered(outcome);
    let updated = WebhookEvent {
        id: event.id,
        webhook_id: event.webhook_id,
        txn_id: event.txn_id,
        delivered,
        retry_count: attempt,
        last_attempt: Some(now),
        created_at: event.created_at,
    };
    let terminal = match outcome {
        AttemptOutcome::SerializationFailed => true,
        _ => delivered,
    };
    let next = if terminal || attempt >= MAX_RETRIES {
        NextStep::Stop
    } else {
        NextStep::RetryAfter { seconds: backoff_seconds(attempt) }
    };
    (updated, next)
}

/// An attempt that failed in a way that may be retried: an answer outside
/// the 2xx class, or none at all.
pub open spec fn failed(outcome: AttemptOutcome) -> bool {
    !delivered_by(outcome) && !(outcome is SerializationFailed)
}

/// How many attempts a delivery makes in all when attempt number `attempt`
/// is the next one and `outcomes[i]` is how attempt `i` ends. It stops with
/// the first attempt after which [`next_step`] says so, or where the
/// outcomes end.
pub open spec fn attempts_from(outcomes: Seq<AttemptOutcome>, attempt: nat) -> nat
    decreases outcomes.len() - attempt,
{
    if attempt >= outcomes.len() {
        attempt
    } else if next_step(attempt as int, outcomes[attempt as int]) is Stop {
        attempt + 1
    } else {
        attempts_from(outcomes, attempt + 1)
    }
}

/// How many attempts a delivery makes from its start.
pub open spec fn attempts_made(outcomes: Seq<AttemptOutcome>) -> nat {
    attempts_from(outcomes, 0)
}

/// The event as stored when the delivery has run: untouched where no
/// attempt was made, else as the last attempt left it. The first attempt is
/// made at `start_ms`, each later one after the backoff delays before it.
pub open spec fn event_after_delivery(
    event: WebhookEvent,
    outcomes: Seq<AttemptOutcome>,
    start_ms: i64,
) -> WebhookEvent {
    let n = attempts_made(outcomes);
    if n == 0 {
        event
    } else {
        event_after(
            event,
            (n - 1) as i32,
            outcomes[n - 1],
            (start_ms + elapsed_before((n - 1) as nat)) as i64,
        )
    }
}

/// The pauses between the attempts of a delivery, in seconds.
pub open spec fn delays_of(outcomes: Seq<AttemptOutcome>) -> Seq<u64> {
    let n = attempts_made(outcomes);
    Seq::new(
        if n == 0 {
            0
        } else {
            (n - 1) as nat
        },
        |i: int| backoff(i as nat) as u64,
    )
}

proof fn attempts_from_bounds(outcomes: Seq<AttemptOutcome>, attempt: nat)
    requires
        attempt <= outcomes.len(),
    ensures
        attempt <= attempts_from(outcomes, attempt) <= outcomes.len(),
        attempt <= MAX_RETRIES ==> attempts_from(outcomes, attempt) <= MAX_RETRIES + 1,
    decreases outcomes.len() - attempt,
{
    if attempt < outcomes.len() && !(next_step(attempt as int, outcomes[attempt as int]) is Stop) {
        attempts_from_bounds(outcomes, attempt + 1);
    }
}

proof fn attempts_from_skips_failures(outcomes: Seq<AttemptOutcome>, attempt: nat, upto: nat)
    requires
        attempt <= upto <= outcomes.len(),
        upto <= MAX_RETRIES,
        forall|i: int| attempt <= i < upto ==> failed(#[trigger] outcomes[i]),
    ensures
        attempts_from(outcomes, attempt) == attempts_from(outcomes, upto),
    decreases upto - attempt,
{
    if attempt < upto {
        assert(failed(outcomes[attempt as int]));
        attempts_from_skips_failures(outcomes, attempt + 1, upto);
    }
}

/// Runs one delivery against a script of outcomes: `outcomes[i]` is how
/// attempt `i` ends. Each attempt is recorded on the event; the delivery
/// stops as [`next_step`] says, or where the script ends.
pub fn run_delivery(event: WebhookEvent, outcomes: &Vec<AttemptOutcome>, start_ms: i64) -> (report:
    DeliveryReport)
    requires
        start_ms <= i64::MAX - 7000,
    ensures
        report.attempts == attempts_made(outcomes@),
        report.event == event_after_delivery(event, outcomes@, start_ms),
        report.delays@ == delays_of(outcomes@),
{
    let mut current = event;
    let mut made: usize = 0;
    let mut attempt: i32 = 0;
    let mut now: i64 = start_ms;
    let mut delays: Vec<u64> = Vec::new();
    let mut stopped = false;
    proof {
        reveal_with_fuel(elapsed_before, 5);
        reveal_with_fuel(backoff, 5);
    }
    while !stopped && made < outcomes.len()
        invariant
            start_ms <= i64::MAX - 7000,
            made <= outcomes@.len(),
            !stopped ==> made == attempt && 0 <= attempt <= MAX_RETRIES,
            !stopped ==> attempts_from(outcomes@, made as nat) == attempts_made(outcomes@),
            !stopped ==> now == start_ms + elapsed_before(made as nat),
            stopped ==> made == attempts_made(outcomes@) && made > 0,
            made == 0 ==> current == event,
            made > 0 ==> current == event_after(
                event,
                (made - 1) as i32,
                outcomes@[made - 1],
                (start_ms + elapsed_before((made - 1) as nat)) as i64,
            ),
            made <= MAX_RETRIES + 1,
            delays@.len() == (if made == 0 {
                0
            } else {
                (made - 1) as nat
            }),
            forall|i: int| 0 <= i < delays@.len() ==> delays@[i] == backoff(i as nat),
        decreases outcomes@.len() - made + (if stopped { 0int } else { 1int }),
    {
        proof {
            reveal_with_fuel(elapsed_before, 5);
            reveal_with_fuel(backoff, 5);
        }
        if made > 0 {
            delays.push(backoff_seconds(attempt - 1));
        }
        let (updated, next) = after_attempt(current, attempt, outcomes[made], now);
        current = updated;
        made = made + 1;
        match next {
            NextStep::Stop => {
                stopped = true;
            },
            NextStep::RetryAfter { seconds } => {
                now = now + 1000 * (seconds as i64);
                attempt = attempt + 1;
            },
        }
    }
    proof {
        assert(made == attempts_made(outcomes@));
        assert(delays@ =~= delays_of(outcomes@));
    }
    DeliveryReport { event: current, attempts: made, delays }
}

/// A delivery never makes more than four attempts, nor more than there are
/// outcomes.
pub proof fn at_most_four_attempts(outcomes: Seq<AttemptOutcome>)
    ensures
        attempts_made(outcomes) <= MAX_RETRIES + 1,
        attempts_made(outcomes) <= outcomes.len(),
{
    attempts_from_bounds(outcomes, 0);
}

/// Where the first `k` attempts fail and attempt `k` is answered with a 2xx
/// status, the delivery makes exactly `k + 1` attempts, and the event ends
/// delivered with a retry count of `k`, last attempted after the backoff
/// delays of the `k` failures.
pub proof fn stops_at_first_success(
    event: WebhookEvent,
    outcomes: Seq<AttemptOutcome>,
    start_ms: i64,
    k: nat,
)
    requires
        k < outcomes.len(),
        k <= MAX_RETRIES,
        forall|i: int| 0 <= i < k ==> failed(#[trigger] outcomes[i]),
        delivered_by(outcomes[k as int]),
    ensures
        attempts_made(outcomes) == k + 1,
        event_after_delivery(event, outcomes, start_ms).delivered,
        event_after_delivery(event, outcomes, start_ms).retry_count == k,
        event_after_delivery(event, outcomes, start_ms).last_attempt == Some(
            (start_ms + elapsed_before(k)) as i64,
        ),
        delays_of(outcomes).len() == k,
{
    attempts_from_skips_failures(outcomes, 0, k);
}

/// Where the first four attempts all fail, the delivery makes exactly four
/// attempts whatever outcomes might follow, and the event ends undelivered
/// with a retry count of three.
pub proof fn gives_up_after_four_failures(
    event: WebhookEvent,
    outcomes: Seq<AttemptOutcome>,
    start_ms: i64,
)
    requires
        outcomes.len() >= 4,
        forall|i: int| 0 <= i < 4 ==> failed(#[trigger] outcomes[i]),
    ensures
        attempts_made(outcomes) == 4,
        !event_after_delivery(event, outcomes, start_ms).delivered,
        event_after_delivery(event, outcomes, start_ms).retry_count == 3,
        delays_of(outcomes) =~= seq![1u64, 2u64, 4u64],
{
    attempts_from_skips_failures(outcomes, 0, 3);
    assert(failed(outcomes[3]));
    reveal_with_fuel(backoff, 4);
}

/// A position is among the webhooks of an account exactly if the webhook
/// there is registered against it, and no position is listed twice.
pub proof fn registered_for_lists_each_once(registered: Seq<Webhook>, account: u128)
    ensures
        forall|i: int|
            0 <= i < registered.len() ==> (registered_for(registered, account).contains(
                i,
            ) <==> registered[i].account_id == account),
        forall|k: int|
            0 <= k < registered_for(registered, account).len() ==> 0 <= (
            #[trigger] registered_for(registered, account)[k]) < registered.len(),
        registered_for(registered, account).no_duplicates(),
    decreases registered.len(),
{
    if registered.len() > 0 {
        let shorter = registered.drop_last();
        let earlier = registered_for(shorter, account);
        let all = registered_for(registered, account);
        let last = registered.len() - 1;
        registered_for_lists_each_once(shorter, account);
        if registered.last().account_id == account {
            assert(all == earlier.push(last));
            assert(all[all.len() - 1] == last);
            assert forall|i: int| 0 <= i < registered.len() implies (all.contains(i)
                <==> registered[i].account_id == account) by {
                if i < shorter.len() {
                    assert(registered[i] == shorter[i]);
                    if earlier.contains(i) {
                        let k = choose|k: int| 0 <= k < earlier.len() && earlier[k] == i;
                        assert(all[k] == i);
                    }
                    if all.contains(i) {
                        let k = choose|k: int| 0 <= k < all.len() && all[k] == i;
                        assert(k < earlier.len());
                        assert(earlier[k] == i);
                    }
                }
            }
        } else {
            assert forall|i: int| 0 <= i < registered.len() implies (all.contains(i)
                <==> registered[i].account_id == account) by {
                if i < shorter.len() {
                    assert(registered[i] == shorter[i]);
                } else {
                    if all.contains(i) {
                        let k = choose|k: int| 0 <= k < all.len() && all[k] == i;
                        assert(all[k] < shorter.len());
                    }
                }
            }
        }
    }
}

/// Every webhook of an involved account is notified exactly once, and no
/// other webhook is: even where source and destination are one account.
pub proof fn each_recipient_is_notified_once(
    registered: Seq<Webhook>,
    from: Option<u128>,
    to: Option<u128>,
)
    ensures
        recipients_of(registered, from, to).no_duplicates(),
        forall|i: int|
            0 <= i < registered.len() ==> (recipients_of(registered, from, to).contains(
                i,
            ) <==> (from == Some(registered[i].account_id) || to == Some(
                registered[i].account_id,
            ))),
{
    let ids = involved(from, to);
    let all = recipients_of(registered, from, to);
    if ids.len() == 1 {
        registered_for_lists_each_once(registered, ids[0]);
    } else if ids.len() == 2 {
        let first = registered_for(registered, ids[0]);
        let second = registered_for(registered, ids[1]);
        registered_for_lists_each_once(registered, ids[0]);
        registered_for_lists_each_once(registered, ids[1]);
        assert(ids[0] != ids[1]);
        assert forall|j: int, k: int| 0 <= j < k < all.len() implies all[j] != all[k] by {
            if j < first.len() && k >= first.len() {
                assert(all[j] == first[j]);
                assert(all[k] == second[k - first.len()]);
                assert(first.contains(first[j]));
                assert(second.contains(second[k - first.len()]));
            } else if k < first.len() {
                assert(all[j] == first[j] && all[k] == first[k]);
            } else {
                assert(all[j] == second[j - first.len()] && all[k] == second[k - first.len()]);
            }
        }
        assert forall|i: int| 0 <= i < registered.len() implies (all.contains(i) <==> (
        from == Some(registered[i].account_id) || to == Some(registered[i].account_id))) by {
            if first.contains(i) {
                let k = choose|k: int| 0 <= k < first.len() && first[k] == i;
                assert(all[k] == i);
            }
            if second.contains(i) {
                let k = choose|k: int| 0 <= k < second.len() && second[k] == i;
                assert(all[first.len() + k] == i);
            }
            if all.contains(i) {
                let k = choose|k: int| 0 <= k < all.len() && all[k] == i;
                if k < first.len() {
                    assert(first[k] == i);
                } else {
                    assert(second[k - first.len()] == i);
                }
            }
        }
    }
}

/// A payload that does not serialise ends the delivery at once: no attempt
/// follows it.
pub proof fn serialization_failure_is_terminal(attempt: int)
    ensures
        next_step(attempt, AttemptOutcome::SerializationFailed) is Stop,
{
}

} // verus!
