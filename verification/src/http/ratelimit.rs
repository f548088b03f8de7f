//! The rate limiter. Buckets are not declared: what is known of a bucket
//! is learned from the responses to its requests. One request at a time is
//! in flight on a bucket, requests on a bucket go in the order in which
//! they came, and a global pause holds every bucket.
//!
//! The limiter keeps no clock and does not sleep. Its caller tells it the
//! time, and is told whether to go ahead or how long to wait.

use crate::http::routing::route_key;
use crate::http::routing::Route;
use crate::text::parse_i64;
use crate::text::parse_i64_spec;
use dashmap::DashMap;
use std::collections::hash_map::RandomState;
use vstd::prelude::*;

verus! {

/// What is known of the window of a bucket.
#[derive(Debug, Clone, Copy, PartialEq, Eq, Structural)]
pub struct BucketState {
    /// The requests left in the window, once learned.
    pub remaining: Option<i64>,
    /// The size of the window, once learned.
    pub limit: Option<i64>,
    /// When the window refills, once learned.
    pub reset_at: Option<u64>,
}

/// A bucket: what is known of its window, whether a request is in flight,
/// and the tickets of the requests that wait, oldest first.
#[derive(Debug, Clone)]
pub struct Bucket {
    pub state: BucketState,
    pub busy: bool,
    pub waiters: Vec<u64>,
}

/// A bucket as contracts see it.
pub struct BucketView {
    pub state: BucketState,
    pub busy: bool,
    pub waiters: Seq<u64>,
}

impl View for Bucket {
    type V = BucketView;

    open spec fn view(&self) -> BucketView {
        BucketView { state: self.state, busy: self.busy, waiters: self.waiters@ }
    }
}

impl BucketView {
    /// A bucket of which nothing is known and on which nothing waits.
    pub open spec fn fresh() -> BucketView {
        BucketView {
            state: BucketState { remaining: None, limit: None, reset_at: None },
            busy: false,
            waiters: Seq::empty(),
        }
    }

    /// Whether the window is used up at time `now`: no request is left and
    /// the window has not refilled yet.
    pub open spec fn exhausted(self, now: u64) -> bool {
        &&& self.state.remaining matches Some(left)
        &&& left <= 0
        &&& self.state.reset_at matches Some(at)
        &&& now < at
    }

    /// The number of requests in flight: one or none.
    pub open spec fn in_flight(self) -> nat {
        if self.busy {
            1
        } else {
            0
        }
    }

    /// The bucket once its first waiter has been let through: the request
    /// is in flight, and one request less is left in the window.
    pub open spec fn granted(self) -> BucketView {
        BucketView {
            state: BucketState {
                remaining: match self.state.remaining {
                    Some(left) if left > 0 => Some((left - 1) as i64),
                    other => other,
                },
                ..self.state
            },
            busy: true,
            waiters: self.waiters.drop_first(),
        }
    }

    /// The bucket once the response to its request has been seen.
    pub open spec fn observed(self, headers: HeadersView, now: u64) -> BucketView {
        BucketView {
            state: match parse_i64_spec(headers.remaining_text()) {
                Some(left) if headers.remaining is Some => BucketState {
                    remaining: Some(left),
                    limit: headers.limit_value(),
                    reset_at: match headers.reset_after_ms {
                        Some(ms) => Some(later(now, ms)),
                        None => self.state.reset_at,
                    },
                },
                _ => self.state,
            },
            busy: false,
            ..self
        }
    }
}

/// The first place at which `ticket` waits, or the length of the queue
/// where it does not wait.
pub open spec fn first_place(waiters: Seq<u64>, ticket: u64) -> int
    decreases waiters.len(),
{
    if waiters.len() == 0 || waiters[0] == ticket {
        0
    } else {
        1 + first_place(waiters.drop_first(), ticket)
    }
}

/// The queue without `ticket`, where it waits; the others keep their
/// order.
pub open spec fn without(waiters: Seq<u64>, ticket: u64) -> Seq<u64> {
    if waiters.contains(ticket) {
        waiters.remove(first_place(waiters, ticket))
    } else {
        waiters
    }
}

/// The first place of a ticket is the place before which it does not
/// wait and at which it does.
proof fn lemma_first_place(waiters: Seq<u64>, ticket: u64, i: int)
    requires
        0 <= i < waiters.len(),
        waiters[i] == ticket,
        forall|j: int| 0 <= j < i ==> waiters[j] != ticket,
    ensures
        first_place(waiters, ticket) == i,
    decreases i,
{
    if i > 0 {
        let rest = waiters.drop_first();
        assert(rest[i - 1] == waiters[i]);
        assert forall|j: int| 0 <= j < i - 1 implies rest[j] != ticket by {
            assert(rest[j] == waiters[j + 1]);
        }
        lemma_first_place(rest, ticket, i - 1);
    }
}

/// The first place of a ticket that waits lies in the queue, and the
/// ticket waits there.
proof fn lemma_first_place_waits(waiters: Seq<u64>, ticket: u64)
    requires
        waiters.contains(ticket),
    ensures
        0 <= first_place(waiters, ticket) < waiters.len(),
        waiters[first_place(waiters, ticket)] == ticket,
    decreases waiters.len(),
{
    if waiters[0] != ticket {
        let rest = waiters.drop_first();
        let k = choose|k: int| 0 <= k < waiters.len() && waiters[k] == ticket;
        assert(rest[k - 1] == ticket);
        lemma_first_place_waits(rest, ticket);
        assert(rest[first_place(rest, ticket)] == waiters[first_place(rest, ticket) + 1]);
    }
}

/// The time `ms` milliseconds after `now`, or the end of time.
pub open spec fn later(now: u64, ms: u64) -> u64 {
    if now + ms < u64::MAX {
        (now + ms) as u64
    } else {
        u64::MAX
    }
}

/// The headers of a response that tell of its bucket. The counts are the
/// texts of the headers; the time until the window refills is in
/// milliseconds.
#[derive(Debug)]
pub struct RateLimitHeaders {
    pub remaining: Option<String>,
    pub limit: Option<String>,
    pub reset_after_ms: Option<u64>,
}

/// The headers as contracts see them.
pub struct HeadersView {
    pub remaining: Option<Seq<char>>,
    pub limit: Option<Seq<char>>,
    pub reset_after_ms: Option<u64>,
}

impl View for RateLimitHeaders {
    type V = HeadersView;

    open spec fn view(&self) -> HeadersView {
        HeadersView {
            remaining: match self.remaining {
                Some(s) => Some(s@),
                None => None,
            },
            limit: match self.limit {
                Some(s) => Some(s@),
                None => None,
            },
            reset_after_ms: self.reset_after_ms,
        }
    }
}

impl HeadersView {
    /// The text of the count of requests left, or the empty text.
    pub open spec fn remaining_text(self) -> Seq<char> {
        match self.remaining {
            Some(s) => s,
            None => Seq::empty(),
        }
    }

    /// The size of the window, where the header is there and is a number.
    pub open spec fn limit_value(self) -> Option<i64> {
        match self.limit {
            Some(s) => parse_i64_spec(s),
            None => None,
        }
    }
}

/// The answer to a request that asks to go ahead.
#[derive(Debug, Clone, Copy, PartialEq, Eq, Structural)]
pub enum Admission {
    /// Go ahead. The bucket is held until the response is observed.
    Granted,
    /// Ask again in so many milliseconds.
    Wait(u64),
    /// Another request of the bucket is in flight or came earlier: ask
    /// again when the bucket is released.
    Queued,
    /// The ticket does not wait on this bucket.
    Unknown,
}

/// The limiter as contracts see it.
pub struct LimiterView {
    /// The buckets, by their keys.
    pub buckets: Map<Seq<char>, BucketView>,
    /// Until when every bucket is held; a time that has passed holds none.
    pub global_until: u64,
    /// The next ticket to hand out.
    pub next_ticket: u64,
}

impl LimiterView {
    /// Whether the global gate is held at time `now`.
    pub open spec fn global_held(self, now: u64) -> bool {
        now < self.global_until
    }

    /// The bucket under `key`, or a fresh one.
    pub open spec fn bucket(self, key: Seq<char>) -> BucketView {
        if self.buckets.contains_key(key) {
            self.buckets[key]
        } else {
            BucketView::fresh()
        }
    }

    /// Every ticket that waits was handed out before, and none waits
    /// twice.
    pub open spec fn wf(self) -> bool {
        forall|key: Seq<char>| #[trigger]
            self.buckets.contains_key(key) ==> {
                &&& self.buckets[key].waiters.no_duplicates()
                &&& forall|i: int|
                    0 <= i < self.buckets[key].waiters.len() ==> self.buckets[key].waiters[i]
                        < self.next_ticket
            }
    }

    /// The limiter once a request has joined the queue of the bucket
    /// `key`, with the next ticket.
    pub open spec fn enqueued(self, key: Seq<char>) -> LimiterView {
        let b = self.bucket(key);
        LimiterView {
            buckets: self.buckets.insert(
                key,
                BucketView { waiters: b.waiters.push(self.next_ticket), ..b },
            ),
            next_ticket: (self.next_ticket + 1) as u64,
            ..self
        }
    }

    /// What the request with the given ticket is told at time `now`.
    pub open spec fn admission(self, key: Seq<char>, ticket: u64, now: u64) -> Admission {
        let b = self.bucket(key);
        if self.global_held(now) {
            Admission::Wait((self.global_until - now) as u64)
        } else if !b.waiters.contains(ticket) {
            Admission::Unknown
        } else if b.busy || b.waiters[0] != ticket {
            Admission::Queued
        } else if b.exhausted(now) {
            Admission::Wait((b.state.reset_at->0 - now) as u64)
        } else {
            Admission::Granted
        }
    }

    /// The limiter once that request has been answered: only a grant
    /// changes anything.
    pub open spec fn polled(self, key: Seq<char>, ticket: u64, now: u64) -> LimiterView {
        if self.admission(key, ticket, now) == Admission::Granted {
            LimiterView { buckets: self.buckets.insert(key, self.bucket(key).granted()), ..self }
        } else {
            self
        }
    }

    /// The limiter once the response to the request in flight on `key`
    /// has been seen at time `now`. An unknown bucket stays unknown.
    pub open spec fn observed(self, key: Seq<char>, headers: HeadersView, now: u64) -> LimiterView {
        if self.buckets.contains_key(key) {
            LimiterView {
                buckets: self.buckets.insert(key, self.buckets[key].observed(headers, now)),
                ..self
            }
        } else {
            self
        }
    }

    /// The limiter once the request with the given ticket has given up
    /// waiting on `key`: the ticket waits no longer, and those behind it
    /// move up. A ticket that does not wait there changes nothing.
    pub open spec fn withdrawn(self, key: Seq<char>, ticket: u64) -> LimiterView {
        if self.buckets.contains_key(key) && self.buckets[key].waiters.contains(ticket) {
            LimiterView {
                buckets: self.buckets.insert(
                    key,
                    BucketView {
                        waiters: without(self.buckets[key].waiters, ticket),
                        ..self.buckets[key]
                    },
                ),
                ..self
            }
        } else {
            self
        }
    }

    /// The limiter once a global limit was hit at time `now`: every bucket
    /// is held for `retry_after_ms` milliseconds, or longer where it was
    /// held for longer already.
    pub open spec fn tripped(self, retry_after_ms: u64, now: u64) -> LimiterView {
        LimiterView {
            global_until: if later(now, retry_after_ms) > self.global_until {
                later(now, retry_after_ms)
            } else {
                self.global_until
            },
            ..self
        }
    }
}

// ---------------------------------------------------------------------------
// The map of buckets
// ---------------------------------------------------------------------------

/// `dashmap::DashMap`: a concurrent hash map.
#[verifier::external_type_specification]
#[verifier::external_body]
#[verifier::reject_recursive_types(K)]
#[verifier::reject_recursive_types(V)]
#[verifier::reject_recursive_types(S)]
pub struct ExDashMap<K, V, S>(DashMap<K, V, S>);

/// The buckets that a map holds, by their keys.
pub uninterp spec fn bucket_map(buckets: DashMap<String, Bucket, RandomState>) -> Map<
    Seq<char>,
    BucketView,
>;

/// No bucket at all.
pub open spec fn empty_buckets() -> Map<Seq<char>, BucketView> {
    Map::empty()
}

/// `DashMap::new` of the crate `dashmap`: a map that holds nothing.
#[verifier::external_body]
fn new_bucket_map() -> (made: DashMap<String, Bucket, RandomState>)
    ensures
        bucket_map(made) == empty_buckets(),
{
    DashMap::new()
}

/// `DashMap::get` of the crate `dashmap`: a copy of the bucket under
/// `key`, if the map holds one.
#[verifier::external_body]
fn get_bucket(buckets: &DashMap<String, Bucket, RandomState>, key: &str) -> (r: Option<Bucket>)
    ensures
        match r {
            Some(b) => bucket_map(*buckets).contains_key(key@) && bucket_map(*buckets)[key@]
                == b@,
            None => !bucket_map(*buckets).contains_key(key@),
        },
{
    buckets.get(key).map(|entry| entry.value().clone())
}

/// `DashMap::insert` of the crate `dashmap`: the map then holds `bucket`
/// under `key`, in place of what it held there, and the rest as before.
#[verifier::external_body]
fn put_bucket(buckets: &mut DashMap<String, Bucket, RandomState>, key: String, bucket: Bucket)
    ensures
        bucket_map(*final(buckets)) == bucket_map(*old(buckets)).insert(key@, bucket@),
{
    buckets.insert(key, bucket);
}

// ---------------------------------------------------------------------------
// The limiter
// ---------------------------------------------------------------------------

/// The rate limiter of one REST client.
pub struct RateLimiter {
    buckets: DashMap<String, Bucket, RandomState>,
    global_until: u64,
    next_ticket: u64,
}

impl View for RateLimiter {
    type V = LimiterView;

    closed spec fn view(&self) -> LimiterView {
        LimiterView {
            buckets: bucket_map(self.buckets),
            global_until: self.global_until,
            next_ticket: self.next_ticket,
        }
    }
}

fn fresh_bucket() -> (b: Bucket)
    ensures
        b@ == BucketView::fresh(),
{
    Bucket {
        state: BucketState { remaining: None, limit: None, reset_at: None },
        busy: false,
        waiters: Vec::new(),
    }
}

fn later_than(now: u64, ms: u64) -> (t: u64)
    ensures
        t == later(now, ms),
{
    match now.checked_add(ms) {
        Some(t) => t,
        None => u64::MAX,
    }
}

fn position_of(waiters: &Vec<u64>, ticket: u64) -> (r: Option<usize>)
    ensures
        match r {
            Some(i) => i < waiters.len() && waiters@[i as int] == ticket && forall|j: int|
                0 <= j < i ==> waiters@[j] != ticket,
            None => !waiters@.contains(ticket),
        },
{
    let mut i: usize = 0;
    while i < waiters.len()
        invariant
            i <= waiters.len(),
            forall|j: int| 0 <= j < i ==> waiters@[j] != ticket,
        decreases waiters.len() - i,
    {
        if waiters[i] == ticket {
            return Some(i);
        }
        i += 1;
    }
    None
}

impl RateLimiter {
    /// A limiter that knows no bucket and holds no gate.
    pub fn new() -> (l: Self)
        ensures
            l@ == (LimiterView { buckets: Map::empty(), global_until: 0, next_ticket: 0 }),
    {
        RateLimiter { buckets: new_bucket_map(), global_until: 0, next_ticket: 0 }
    }

    /// A request for `route` has come: it joins the queue of its bucket
    /// and gets a ticket, with which it asks to go ahead. There is no
    /// ticket left once as many were handed out as 64 bits can count.
    pub fn enqueue(&mut self, route: &Route) -> (ticket: Option<u64>)
        ensures
            match ticket {
                Some(t) => t == old(self)@.next_ticket && final(self)@ == old(self)@.enqueued(
                    route_key(route.method, route.path@),
                ),
                None => old(self)@.next_ticket == u64::MAX && final(self)@ == old(self)@,
            },
    {
        if self.next_ticket == u64::MAX {
            return None;
        }
        let key = route.bucket_key();
        let mut bucket = match get_bucket(&self.buckets, key.as_str()) {
            Some(b) => b,
            None => fresh_bucket(),
        };
        let ticket = self.next_ticket;
        let ghost before = bucket@.waiters;
        bucket.waiters.push(ticket);
        self.next_ticket = ticket + 1;
        put_bucket(&mut self.buckets, key, bucket);
        assert(self@.buckets =~= old(self)@.enqueued(key@).buckets);
        Some(ticket)
    }

    /// The request with the given ticket asks to go ahead on `route` at
    /// time `now`. While the global gate is held it is told to wait, on
    /// whatever bucket. Else it is let through when it is the oldest of
    /// its bucket, no other request of the bucket is in flight, and the
    /// window is not used up; with a window used up it is told to wait
    /// until the window refills.
    pub fn await_bucket(&mut self, route: &Route, ticket: u64, now: u64) -> (a: Admission)
        ensures
            a == old(self)@.admission(route_key(route.method, route.path@), ticket, now),
            final(self)@ == old(self)@.polled(route_key(route.method, route.path@), ticket, now),
    {
        if now < self.global_until {
            return Admission::Wait(self.global_until - now);
        }
        let key = route.bucket_key();
        let mut bucket = match get_bucket(&self.buckets, key.as_str()) {
            Some(b) => b,
            None => {
                assert(!BucketView::fresh().waiters.contains(ticket));
                return Admission::Unknown;
            },
        };
        let place = match position_of(&bucket.waiters, ticket) {
            Some(i) => i,
            None => {
                return Admission::Unknown;
            },
        };
        if bucket.busy || place != 0 {
            return Admission::Queued;
        }
        match (bucket.state.remaining, bucket.state.reset_at) {
            (Some(left), Some(at)) => {
                if left <= 0 && now < at {
                    return Admission::Wait(at - now);
                }
            },
            _ => {},
        }
        let ghost before = bucket@;
        bucket.waiters.remove(0);
        bucket.busy = true;
        match bucket.state.remaining {
            Some(left) => {
                if left > 0 {
                    bucket.state.remaining = Some(left - 1);
                }
            },
            None => {},
        }
        assert(bucket@.waiters =~= before.waiters.drop_first());
        assert(bucket@ == before.granted());
        put_bucket(&mut self.buckets, key, bucket);
        Admission::Granted
    }

    /// The request with the given ticket gives up waiting on `route`: its
    /// ticket is taken out of the queue, so that those behind it are not
    /// held up. A ticket that does not wait there, among them one that
    /// was let through already, changes nothing.
    pub fn withdraw(&mut self, route: &Route, ticket: u64)
        ensures
            final(self)@ == old(self)@.withdrawn(route_key(route.method, route.path@), ticket),
    {
        let key = route.bucket_key();
        let mut bucket = match get_bucket(&self.buckets, key.as_str()) {
            Some(b) => b,
            None => {
                return ;
            },
        };
        let place = match position_of(&bucket.waiters, ticket) {
            Some(i) => i,
            None => {
                return ;
            },
        };
        let ghost before = bucket@;
        proof {
            lemma_first_place(before.waiters, ticket, place as int);
        }
        bucket.waiters.remove(place);
        assert(bucket@.waiters == without(before.waiters, ticket));
        put_bucket(&mut self.buckets, key, bucket);
    }

    /// The response to the request in flight on `route` has come at time
    /// `now`, with these headers: the bucket learns from them, and is
    /// released. Without a count of requests left, the bucket learns
    /// nothing. A failed request is observed with no headers at all.
    pub fn update(&mut self, route: &Route, headers: &RateLimitHeaders, now: u64)
        ensures
            final(self)@ == old(self)@.observed(
                route_key(route.method, route.path@),
                headers@,
                now,
            ),
    {
        let key = route.bucket_key();
        let mut bucket = match get_bucket(&self.buckets, key.as_str()) {
            Some(b) => b,
            None => {
                return ;
            },
        };
        let ghost before = bucket@;
        let remaining = match &headers.remaining {
            Some(text) => parse_i64(text.as_str()),
            None => None,
        };
        match remaining {
            Some(left) => {
                bucket.state.remaining = Some(left);
                bucket.state.limit = match &headers.limit {
                    Some(text) => parse_i64(text.as_str()),
                    None => None,
                };
                match headers.reset_after_ms {
                    Some(ms) => {
                        bucket.state.reset_at = Some(later_than(now, ms));
                    },
                    None => {},
                }
            },
            None => {},
        }
        bucket.busy = false;
        assert(bucket@ == before.observed(headers@, now));
        put_bucket(&mut self.buckets, key, bucket);
    }

    /// A global limit was hit at time `now`: every bucket is held for
    /// `retry_after_ms` milliseconds.
    pub fn handle_global_limit(&mut self, retry_after_ms: u64, now: u64)
        ensures
            final(self)@ == old(self)@.tripped(retry_after_ms, now),
    {
        let until = later_than(now, retry_after_ms);
        if until > self.global_until {
            self.global_until = until;
        }
    }

    /// What is known of the window of the bucket of `route`, if the
    /// bucket is known.
    pub fn bucket_state(&self, route: &Route) -> (r: Option<BucketState>)
        ensures
            match r {
                Some(s) => self@.buckets.contains_key(route_key(route.method, route.path@))
                    && self@.buckets[route_key(route.method, route.path@)].state == s,
                None => !self@.buckets.contains_key(route_key(route.method, route.path@)),
            },
    {
        let key = route.bucket_key();
        match get_bucket(&self.buckets, key.as_str()) {
            Some(b) => Some(b.state),
            None => None,
        }
    }
}

// ---------------------------------------------------------------------------
// Laws of the limiter
// ---------------------------------------------------------------------------

/// Tickets stay unique: where every ticket that waits was handed out
/// before and none waits twice, the same holds after each step of the
/// limiter.
pub proof fn law_tickets_stay_unique(
    pre: LimiterView,
    key: Seq<char>,
    ticket: u64,
    headers: HeadersView,
    retry_after_ms: u64,
    now: u64,
)
    requires
        pre.wf(),
    ensures
        pre.next_ticket < u64::MAX ==> pre.enqueued(key).wf(),
        pre.polled(key, ticket, now).wf(),
        pre.observed(key, headers, now).wf(),
        pre.tripped(retry_after_ms, now).wf(),
        pre.withdrawn(key, ticket).wf(),
{
    let withdrawn = pre.withdrawn(key, ticket);
    assert forall|k: Seq<char>| #[trigger] withdrawn.buckets.contains_key(k) implies {
        &&& withdrawn.buckets[k].waiters.no_duplicates()
        &&& forall|i: int|
            0 <= i < withdrawn.buckets[k].waiters.len() ==> withdrawn.buckets[k].waiters[i]
                < withdrawn.next_ticket
    } by {
        assert(pre.buckets.contains_key(k));
        if withdrawn != pre && k == key {
            let w = pre.buckets[key].waiters;
            lemma_first_place_waits(w, ticket);
            let at = first_place(w, ticket);
            let rest = w.remove(at);
            assert forall|i: int| 0 <= i < rest.len() implies rest[i] == w[if i < at {
                i
            } else {
                i + 1
            }] by {}
            assert forall|i: int, j: int|
                0 <= i < rest.len() && 0 <= j < rest.len() && i != j implies rest[i]
                != rest[j] by {
                let a = if i < at {
                    i
                } else {
                    i + 1
                };
                let b = if j < at {
                    j
                } else {
                    j + 1
                };
                assert(rest[i] == w[a]);
                assert(rest[j] == w[b]);
            }
            assert forall|i: int| 0 <= i < rest.len() implies rest[i] < pre.next_ticket by {
                let a = if i < at {
                    i
                } else {
                    i + 1
                };
                assert(rest[i] == w[a]);
            }
        }
    }
    if pre.next_ticket < u64::MAX {
        let post = pre.enqueued(key);
        let before = pre.bucket(key).waiters;
        assert forall|k: Seq<char>| #[trigger] post.buckets.contains_key(k) implies {
            &&& post.buckets[k].waiters.no_duplicates()
            &&& forall|i: int|
                0 <= i < post.buckets[k].waiters.len() ==> post.buckets[k].waiters[i]
                    < post.next_ticket
        } by {
            if k == key {
                if pre.buckets.contains_key(k) {
                    assert(pre.buckets[k].waiters == before);
                }
                assert(forall|i: int| 0 <= i < before.len() ==> before[i] < pre.next_ticket);
                assert(before.push(pre.next_ticket).no_duplicates());
            } else {
                assert(pre.buckets.contains_key(k));
            }
        }
    }
    let polled = pre.polled(key, ticket, now);
    assert forall|k: Seq<char>| #[trigger] polled.buckets.contains_key(k) implies {
        &&& polled.buckets[k].waiters.no_duplicates()
        &&& forall|i: int|
            0 <= i < polled.buckets[k].waiters.len() ==> polled.buckets[k].waiters[i]
                < polled.next_ticket
    } by {
        if polled != pre && k == key {
            assert(pre.buckets.contains_key(key)) by {
                if !pre.buckets.contains_key(key) {
                    assert(!BucketView::fresh().waiters.contains(ticket));
                }
            }
            let w = pre.buckets[key].waiters;
            let rest = w.drop_first();
            assert forall|i: int, j: int|
                0 <= i < rest.len() && 0 <= j < rest.len() && i != j implies rest[i]
                != rest[j] by {
                assert(rest[i] == w[i + 1]);
                assert(rest[j] == w[j + 1]);
            }
            assert forall|i: int| 0 <= i < rest.len() implies rest[i] < pre.next_ticket by {
                assert(rest[i] == w[i + 1]);
            }
        } else {
            assert(pre.buckets.contains_key(k));
        }
    }
    let observed = pre.observed(key, headers, now);
    assert forall|k: Seq<char>| #[trigger] observed.buckets.contains_key(k) implies {
        &&& observed.buckets[k].waiters.no_duplicates()
        &&& forall|i: int|
            0 <= i < observed.buckets[k].waiters.len() ==> observed.buckets[k].waiters[i]
                < observed.next_ticket
    } by {
        assert(pre.buckets.contains_key(k));
    }
}

/// A ticket that was withdrawn waits no longer, and the others wait in
/// the order in which they waited before.
pub proof fn law_withdrawn_ticket_is_gone(pre: LimiterView, key: Seq<char>, ticket: u64)
    requires
        pre.wf(),
    ensures
        !pre.withdrawn(key, ticket).bucket(key).waiters.contains(ticket),
        forall|other: u64|
            other != ticket ==> (pre.withdrawn(key, ticket).bucket(key).waiters.contains(other)
                <==> pre.bucket(key).waiters.contains(other)),
        forall|other: Seq<char>|
            other != key ==> #[trigger] pre.withdrawn(key, ticket).bucket(other) == pre.bucket(
                other,
            ),
{
    let post = pre.withdrawn(key, ticket);
    if pre.buckets.contains_key(key) && pre.buckets[key].waiters.contains(ticket) {
        let w = pre.buckets[key].waiters;
        lemma_first_place_waits(w, ticket);
        let at = first_place(w, ticket);
        let rest = w.remove(at);
        assert(post.bucket(key).waiters == rest);
        assert forall|i: int| 0 <= i < rest.len() implies rest[i] == w[if i < at {
            i
        } else {
            i + 1
        }] by {}
        assert(!rest.contains(ticket)) by {
            if rest.contains(ticket) {
                let i = choose|i: int| 0 <= i < rest.len() && rest[i] == ticket;
                let a = if i < at {
                    i
                } else {
                    i + 1
                };
                assert(w[a] == ticket);
                assert(w[at] == ticket);
            }
        }
        assert forall|other: u64| other != ticket implies (rest.contains(other) <==> w.contains(
            other,
        )) by {
            if rest.contains(other) {
                let i = choose|i: int| 0 <= i < rest.len() && rest[i] == other;
                let a = if i < at {
                    i
                } else {
                    i + 1
                };
                assert(w[a] == other);
            }
            if w.contains(other) {
                let a = choose|a: int| 0 <= a < w.len() && w[a] == other;
                let i = if a < at {
                    a
                } else {
                    a - 1
                };
                assert(rest[i] == other);
            }
        }
    } else {
        if pre.buckets.contains_key(key) {
            assert(!pre.buckets[key].waiters.contains(ticket));
        } else {
            assert(!BucketView::fresh().waiters.contains(ticket));
        }
    }
}

/// While the global gate is held, no request is let through, on whatever
/// bucket, and asking changes nothing.
pub proof fn law_global_gate_blocks_every_bucket(
    pre: LimiterView,
    key: Seq<char>,
    ticket: u64,
    now: u64,
)
    requires
        pre.global_held(now),
    ensures
        pre.admission(key, ticket, now) == Admission::Wait((pre.global_until - now) as u64),
        pre.polled(key, ticket, now) == pre,
{
}

/// A request is let through only when none is in flight on its bucket,
/// and then one is: so at most one request is in flight on a bucket,
/// which is never more than the count of requests left and one.
pub proof fn law_one_in_flight(pre: LimiterView, key: Seq<char>, ticket: u64, now: u64)
    ensures
        pre.admission(key, ticket, now) == Admission::Granted ==> {
            &&& pre.bucket(key).in_flight() == 0
            &&& pre.polled(key, ticket, now).bucket(key).in_flight() == 1
        },
        pre.polled(key, ticket, now).bucket(key).in_flight() <= 1,
        match pre.polled(key, ticket, now).bucket(key).state.remaining {
            Some(left) => left >= 0 ==> pre.polled(key, ticket, now).bucket(key).in_flight()
                <= left + 1,
            None => true,
        },
{
}

/// Requests of a bucket go in the order in which they came: the one let
/// through is the oldest that waits, and a newcomer waits behind all
/// others.
pub proof fn law_first_in_first_out(pre: LimiterView, key: Seq<char>, ticket: u64, now: u64)
    ensures
        pre.admission(key, ticket, now) == Admission::Granted ==> pre.bucket(key).waiters.len() > 0
            && pre.bucket(key).waiters[0] == ticket && pre.polled(key, ticket, now).bucket(
            key,
        ).waiters == pre.bucket(key).waiters.drop_first(),
        pre.enqueued(key).bucket(key).waiters == pre.bucket(key).waiters.push(pre.next_ticket),
{
}

/// Observing a response touches no other bucket, and without a count of
/// requests left it leaves what is known of the bucket as it was.
pub proof fn law_observe_is_local(
    pre: LimiterView,
    key: Seq<char>,
    other: Seq<char>,
    headers: HeadersView,
    now: u64,
)
    ensures
        other != key ==> pre.observed(key, headers, now).bucket(other) == pre.bucket(other),
        headers.remaining is None ==> pre.observed(key, headers, now).bucket(key).state
            == pre.bucket(key).state,
{
}

} // verus!
