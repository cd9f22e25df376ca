//! A fixed-window request counter per key fingerprint, kept in a `DashMap`
//! that the service constructs at start-up and hands to request authentication.

use vstd::prelude::*;

verus! {

/// Length of a counting window, in milliseconds.
pub const WINDOW_MS: u64 = 60_000;

/// Requests allowed per window where the service is given no other limit.
pub const DEFAULT_LIMIT_PER_MIN: u64 = 60;

/// `dashmap::DashMap`; what it holds is spoken of through
/// [`window_entries`].
#[verifier::external_type_specification]
#[verifier::external_body]
#[verifier::reject_recursive_types(K)]
#[verifier::reject_recursive_types(V)]
#[verifier::reject_recursive_types(S)]
pub struct ExDashMap<K, V, S>(dashmap::DashMap<K, V, S>);

/// A stored window: its start, then its count.
pub type Slot = (u64, u64);

/// What the map holds: for each fingerprint the start of its window and the
/// requests counted in it.
pub uninterp spec fn window_entries(entries: dashmap::DashMap<String, Slot>) -> Map<Seq<char>, Slot>;

/// One fingerprint's window: when it began and how many requests it has
/// counted.
#[derive(Debug, Clone, Copy, PartialEq, Eq, Structural)]
pub struct Window {
    pub start: u64,
    pub count: u64,
}

/// The counter store.
pub struct RateStore {
    windows: dashmap::DashMap<String, Slot>,
}

/// Time passed since `start`, none if `start` lies ahead of `now`.
pub open spec fn elapsed_ms(now: u64, start: u64) -> int {
    if now >= start {
        now - start
    } else {
        0
    }
}

/// The window after one more request at `now`, and whether the request is
/// allowed. A fingerprint without a window gets an empty one that starts
/// now. A window older than [`WINDOW_MS`] is replaced by a new one that
/// counts this request; otherwise the request is counted if the window holds
/// fewer than `limit`, and denied without a change if not.
pub open spec fn window_after(prev: Option<Window>, limit: u64, now: u64) -> (Window, bool) {
    let w = match prev {
        Some(w) => w,
        None => Window { start: now, count: 0 },
    };
    if elapsed_ms(now, w.start) > WINDOW_MS {
        (Window { start: now, count: 1 }, true)
    } else if w.count < limit {
        (Window { start: w.start, count: (w.count + 1) as u64 }, true)
    } else {
        (w, false)
    }
}

/// The window of `key` in `m`, if it has one.
pub open spec fn window_of(m: Map<Seq<char>, Window>, key: Seq<char>) -> Option<Window> {
    if m.dom().contains(key) {
        Some(m[key])
    } else {
        None
    }
}

/// `DashMap::new`: an empty map.
#[verifier::external_body]
fn entries_new() -> (fresh: dashmap::DashMap<String, Slot>)
    ensures
        window_entries(fresh).dom() =~= Set::<Seq<char>>::empty(),
{
    dashmap::DashMap::new()
}

/// `DashMap::get`: a copy of the value stored under `key`, if there is one.
#[verifier::external_body]
fn entries_get(entries: &dashmap::DashMap<String, Slot>, key: &str) -> (r: Option<Slot>)
    ensures
        r is Some <==> window_entries(*entries).dom().contains(key@),
        r matches Some(v) ==> v == window_entries(*entries)[key@],
{
    entries.get(key).map(|entry| *entry.value())
}

/// `DashMap::insert`: afterwards `key` maps to `value` and every other key
/// is as before.
#[verifier::external_body]
fn entries_insert(entries: &mut dashmap::DashMap<String, Slot>, key: &str, value: Slot)
    ensures
        window_entries(*final(entries)) == window_entries(*old(entries)).insert(key@, value),
{
    entries.insert(key.to_string(), value);
}

impl RateStore {
    /// The windows by fingerprint.
    pub closed spec fn view(&self) -> Map<Seq<char>, Window> {
        Map::new(
            |k: Seq<char>| window_entries(self.windows).dom().contains(k),
            |k: Seq<char>|
                Window {
                    start: window_entries(self.windows)[k].0,
                    count: window_entries(self.windows)[k].1,
                },
        )
    }

    /// A store without windows.
    pub fn new() -> (store: Self)
        ensures
            store@ == Map::<Seq<char>, Window>::empty(),
    {
        let store = RateStore { windows: entries_new() };
        assert(store@ =~= Map::<Seq<char>, Window>::empty());
        store
    }

    /// The window of a fingerprint, if it has one.
    pub fn window(&self, fingerprint: &str) -> (r: Option<Window>)
        ensures
            r == window_of(self@, fingerprint@),
    {
        match entries_get(&self.windows, fingerprint) {
            Some(v) => Some(Window { start: v.0, count: v.1 }),
            None => None,
        }
    }
}

/// Computes [`window_after`].
pub fn next_window(prev: Option<Window>, limit: u64, now: u64) -> (r: (Window, bool))
    ensures
        r == window_after(prev, limit, now),
{
    let w = match prev {
        Some(w) => w,
        None => Window { start: now, count: 0 },
    };
    let elapsed: u64 = if now >= w.start {
        now - w.start
    } else {
        0
    };
    if elapsed > WINDOW_MS {
        (Window { start: now, count: 1 }, true)
    } else if w.count < limit {
        (Window { start: w.start, count: w.count + 1 }, true)
    } else {
        (w, false)
    }
}

/// Counts a request for `api_key_fingerprint` at `now_ms` and tells whether
/// it is allowed under `limit_per_min`. The fingerprint's window becomes the
/// one that [`window_after`] gives; no other fingerprint is touched.
pub fn allow(store: &mut RateStore, api_key_fingerprint: &str, limit_per_min: u64, now_ms: u64) -> (allowed: bool)
    ensures
        allowed == window_after(
            window_of(old(store)@, api_key_fingerprint@),
            limit_per_min,
            now_ms,
        ).1,
        final(store)@ == old(store)@.insert(
            api_key_fingerprint@,
            window_after(window_of(old(store)@, api_key_fingerprint@), limit_per_min, now_ms).0,
        ),
{
    let prev = store.window(api_key_fingerprint);
    let (next, allowed) = next_window(prev, limit_per_min, now_ms);
    entries_insert(&mut store.windows, api_key_fingerprint, (next.start, next.count));
    assert(store@ =~= old(store)@.insert(api_key_fingerprint@, next));
    allowed
}

/// Within one window a fingerprint is never counted beyond the limit: a
/// window that holds at most `limit` requests still does after any request,
/// allowed or denied, as long as the limit admits one request at all.
pub proof fn count_stays_within_limit(prev: Option<Window>, limit: u64, now: u64)
    requires
        limit >= 1,
        prev matches Some(w) ==> w.count <= limit,
    ensures
        window_after(prev, limit, now).0.count <= limit,
        window_after(prev, limit, now).1 ==> window_after(prev, limit, now).0.count >= 1,
{
}

/// The window of one fingerprint after a run of requests at the given
/// times, starting from `prev`.
pub open spec fn window_after_run(prev: Option<Window>, limit: u64, times: Seq<u64>) -> Option<
    Window,
>
    decreases times.len(),
{
    if times.len() == 0 {
        prev
    } else {
        Some(
            window_after(window_after_run(prev, limit, times.drop_last()), limit, times.last()).0,
        )
    }
}

/// How many requests of such a run are allowed.
pub open spec fn allowed_in_run(prev: Option<Window>, limit: u64, times: Seq<u64>) -> nat
    decreases times.len(),
{
    if times.len() == 0 {
        0
    } else {
        let earlier = allowed_in_run(prev, limit, times.drop_last());
        if window_after(window_after_run(prev, limit, times.drop_last()), limit, times.last()).1 {
            earlier + 1
        } else {
            earlier
        }
    }
}

/// A fingerprint seen for the first time is allowed exactly `limit` requests
/// in the window that its first request opens: of requests that all fall
/// within [`WINDOW_MS`] of the first, the first `limit` pass and the rest
/// are denied.
pub proof fn window_admits_up_to_limit(limit: u64, times: Seq<u64>)
    requires
        times.len() > 0,
        forall|i: int| 0 <= i < times.len() ==> elapsed_ms(#[trigger] times[i], times[0]) <= WINDOW_MS,
    ensures
        allowed_in_run(None, limit, times) == if times.len() <= limit {
            times.len()
        } else {
            limit as nat
        },
        window_after_run(None, limit, times) == Some(
            Window { start: times[0], count: allowed_in_run(None, limit, times) as u64 },
        ),
    decreases times.len(),
{
    let shorter = times.drop_last();
    if times.len() == 1 {
        assert(shorter.len() == 0);
        assert(window_after_run(None, limit, shorter) == None::<Window>);
        assert(allowed_in_run(None, limit, shorter) == 0);
    } else {
        assert(shorter[0] == times[0]);
        assert forall|i: int| 0 <= i < shorter.len() implies elapsed_ms(
            #[trigger] shorter[i],
            shorter[0],
        ) <= WINDOW_MS by {
            assert(shorter[i] == times[i]);
        }
        window_admits_up_to_limit(limit, shorter);
        assert(elapsed_ms(times[times.len() - 1], times[0]) <= WINDOW_MS);
    }
}

} // verus!
