use vstd::prelude::*;

verus! {

/// The state of one rate-limited entity.
///
/// Instants and spans are counted in nanoseconds of a monotonic clock.
#[derive(Debug, Clone, Copy, PartialEq, Eq, Structural, Hash)]
pub struct AssociatedEntity {
    /// Requests left in the current window; zero means the entity is limited.
    pub bucket: usize,
    /// When the current window began, that is when the bucket was last refilled.
    pub bucket_init: u128,
    /// What the bucket is refilled with: the requests allowed per window.
    pub bucket_max: usize,
    /// The length of a window.
    pub refresh_rate: u128,
}

impl AssociatedEntity {
    /// The bucket never holds more than its capacity.
    pub open spec fn wf(self) -> bool {
        self.bucket <= self.bucket_max
    }

    /// A full bucket whose window starts at `now`.
    pub open spec fn fresh(max_limit: usize, refresh_rate: u128, now: u128) -> AssociatedEntity {
        AssociatedEntity { bucket: max_limit, bucket_init: now, bucket_max: max_limit, refresh_rate }
    }

    /// Time since the window began; a reading before its start counts as none.
    pub open spec fn elapsed(self, now: u128) -> nat {
        if now >= self.bucket_init {
            (now - self.bucket_init) as nat
        } else {
            0
        }
    }

    /// Whether the window has run out at `now`.
    pub open spec fn window_over(self, now: u128) -> bool {
        self.elapsed(now) >= self.refresh_rate
    }

    /// The bucket as seen at `now`: refilled to capacity, with a new window,
    /// once its window has run out, however long ago that was.
    pub open spec fn refreshed(self, now: u128) -> AssociatedEntity {
        if self.window_over(now) {
            AssociatedEntity { bucket: self.bucket_max, bucket_init: now, ..self }
        } else {
            self
        }
    }

    /// Whether a request at `now` is allowed.
    pub open spec fn admits(self, now: u128) -> bool {
        self.refreshed(now).bucket > 0
    }

    /// The state after a request at `now`: refilled if due, then one request
    /// taken if any is left.
    pub open spec fn after_request(self, now: u128) -> AssociatedEntity {
        let b = self.refreshed(now);
        if b.bucket > 0 {
            AssociatedEntity { bucket: (b.bucket - 1) as usize, ..b }
        } else {
            b
        }
    }

    /// Refills the bucket if its window has run out at `now`, then takes one
    /// request from it if any is left; returns whether the request is allowed.
    pub fn take_request(&mut self, now: u128) -> (allowed: bool)
        ensures
            allowed == old(self).admits(now),
            *final(self) == old(self).after_request(now),
    {
        let elapsed: u128 = if now >= self.bucket_init {
            now - self.bucket_init
        } else {
            0
        };
        if elapsed >= self.refresh_rate {
            self.bucket = self.bucket_max;
            self.bucket_init = now;
        }
        if self.bucket > 0 {
            self.bucket = self.bucket - 1;
            true
        } else {
            false
        }
    }
}

/// A request keeps a well-formed bucket well-formed.
pub proof fn lemma_after_request_wf(b: AssociatedEntity, now: u128)
    requires
        b.wf(),
    ensures
        b.after_request(now).wf(),
        b.after_request(now).bucket_max == b.bucket_max,
        b.after_request(now).refresh_rate == b.refresh_rate,
{
}

} // verus!
