use vstd::prelude::*;

use std::time::Instant;

use crate::bucket::{lemma_after_request_wf, AssociatedEntity};
use crate::clock::{clock_start, nanos_since};
use crate::table::{table_entries, EntityTable};

verus! {

/// The abstract state of a limiter: each registered entity's bucket.
pub type Buckets = Map<Seq<char>, AssociatedEntity>;

/// Every registered bucket holds no more than its capacity.
pub open spec fn buckets_wf(m: Buckets) -> bool {
    forall|k: Seq<char>| #[trigger] m.contains_key(k) ==> m[k].wf()
}

/// The state after registering `key` at `now`: a full bucket and a new
/// window, whatever the key held before.
pub open spec fn registered(
    m: Buckets,
    key: Seq<char>,
    max_limit: usize,
    refresh_rate: u128,
    now: u128,
) -> Buckets {
    m.insert(key, AssociatedEntity::fresh(max_limit, refresh_rate, now))
}

/// The state after a request for `key` at `now`, and the answer: `None` for
/// an entity that is not registered, else whether the request is allowed.
pub open spec fn request_outcome(m: Buckets, key: Seq<char>, now: u128) -> (Buckets, Option<bool>) {
    if m.contains_key(key) {
        (m.insert(key, m[key].after_request(now)), Some(m[key].admits(now)))
    } else {
        (m, None)
    }
}

/// The requests left in the bucket of `key`, if it is registered.
pub open spec fn remaining_of(m: Buckets, key: Seq<char>) -> Option<usize> {
    if m.contains_key(key) {
        Some(m[key].bucket)
    } else {
        None
    }
}

/// A per-entity rate limiter: each registered entity may make up to its
/// capacity of requests per window, and its bucket is refilled on the first
/// request after the window has run out.
///
/// All operations take the limiter by reference; to share one between
/// threads, guard it with a single lock so that each refill-then-consume
/// step stays atomic.
pub struct Limiter {
    requests: EntityTable,
    origin: Instant,
}

impl View for Limiter {
    type V = Buckets;

    closed spec fn view(&self) -> Buckets {
        table_entries(self.requests)
    }
}

impl Limiter {
    /// Every bucket the limiter holds is within its capacity.
    pub open spec fn wf(&self) -> bool {
        buckets_wf(self@)
    }

    /// An empty limiter, whose clock starts now.
    pub fn new() -> (r: Limiter)
        ensures
            r@.dom().is_empty(),
            r.wf(),
    {
        Limiter { requests: EntityTable::new(), origin: clock_start() }
    }

    /// The limiter's clock: nanoseconds since the limiter was made.
    pub fn now(&self) -> u128 {
        nanos_since(&self.origin)
    }

    /// Registers `entity` at time `now` with `max_limit` requests per window of
    /// `refresh_rate`; any earlier state of the entity is replaced.
    pub fn add_limited_entity_at(
        &mut self,
        entity: String,
        max_limit: usize,
        refresh_rate: u128,
        now: u128,
    )
        requires
            old(self).wf(),
        ensures
            final(self)@ == registered(old(self)@, entity@, max_limit, refresh_rate, now),
            final(self).wf(),
    {
        let fresh = AssociatedEntity {
            bucket: max_limit,
            bucket_init: now,
            bucket_max: max_limit,
            refresh_rate,
        };
        self.requests.insert(entity, fresh);
    }

    /// Registers `entity` with `max_limit` requests per window of
    /// `refresh_rate` nanoseconds, its window starting now; any earlier state
    /// of the entity is replaced.
    pub fn add_limited_entity(&mut self, entity: String, max_limit: usize, refresh_rate: u128)
        requires
            old(self).wf(),
        ensures
            exists|now: u128|
                final(self)@ == registered(old(self)@, entity@, max_limit, refresh_rate, now),
            final(self).wf(),
    {
        let now = self.now();
        self.add_limited_entity_at(entity, max_limit, refresh_rate, now);
    }

    /// Removes `entity`, returning its state if it was registered.
    pub fn remove_limited_entity(&mut self, entity: &str) -> (r: Option<AssociatedEntity>)
        requires
            old(self).wf(),
        ensures
            final(self)@ == old(self)@.remove(entity@),
            r == (if old(self)@.contains_key(entity@) {
                Some(old(self)@[entity@])
            } else {
                None
            }),
            final(self).wf(),
    {
        self.requests.remove(entity)
    }

    /// Decides a request of `entity` at time `now`, refilling its bucket first
    /// if its window has run out: `None` if the entity is not registered,
    /// `Some(true)` if the request is allowed (and one is taken from the
    /// bucket), `Some(false)` if the entity is limited.
    pub fn is_entity_limited_at(&mut self, entity: &str, now: u128) -> (r: Option<bool>)
        requires
            old(self).wf(),
        ensures
            (final(self)@, r) == request_outcome(old(self)@, entity@, now),
            final(self).wf(),
    {
        match self.requests.get(entity) {
            Some(entry) => {
                let mut entry = entry;
                let allowed = entry.take_request(now);
                proof {
                    lemma_after_request_wf(old(self)@[entity@], now);
                }
                self.requests.insert(entity.to_string(), entry);
                Some(allowed)
            },
            None => None,
        }
    }

    /// Decides a request of `entity` now, as `is_entity_limited_at` does at
    /// the current reading of the limiter's clock.
    pub fn is_entity_limited(&mut self, entity: &str) -> (r: Option<bool>)
        requires
            old(self).wf(),
        ensures
            exists|now: u128| (final(self)@, r) == request_outcome(old(self)@, entity@, now),
            final(self).wf(),
    {
        let now = self.now();
        self.is_entity_limited_at(entity, now)
    }

    /// The requests left in the bucket of `entity`, without refilling it or
    /// taking from it; `None` if the entity is not registered.
    pub fn get_bucket_remaining(&self, entity: &str) -> (r: Option<usize>)
        ensures
            r == remaining_of(self@, entity@),
    {
        match self.requests.get(entity) {
            Some(entry) => Some(entry.bucket),
            None => None,
        }
    }
}

} // verus!
