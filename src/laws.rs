use vstd::prelude::*;

use crate::bucket::AssociatedEntity;
use crate::limiter::{buckets_wf, registered, remaining_of, request_outcome, Buckets};

verus! {

/// How many of the requests for `key`, made in turn at the instants of
/// `times`, are allowed.
pub open spec fn allowed_in(m: Buckets, key: Seq<char>, times: Seq<u128>) -> nat
    decreases times.len(),
{
    if times.len() == 0 {
        0
    } else {
        let (next, answer) = request_outcome(m, key, times[0]);
        (if answer == Some(true) {
            1nat
        } else {
            0nat
        }) + allowed_in(next, key, times.drop_first())
    }
}

/// Within one window, that is while no request finds the window run out, a
/// run of requests is allowed exactly as often as the bucket has requests
/// left, and so never more often than the entity's capacity.
pub proof fn lemma_capacity_bound(m: Buckets, key: Seq<char>, times: Seq<u128>)
    requires
        buckets_wf(m),
        m.contains_key(key),
        forall|i: int| 0 <= i < times.len() ==> !m[key].window_over(#[trigger] times[i]),
    ensures
        allowed_in(m, key, times) == (if times.len() <= m[key].bucket {
            times.len()
        } else {
            m[key].bucket as nat
        }),
        allowed_in(m, key, times) <= m[key].bucket_max,
    decreases times.len(),
{
    if times.len() > 0 {
        let b = m[key];
        let next = request_outcome(m, key, times[0]).0;
        let nb = b.after_request(times[0]);
        assert(next[key] == nb);
        assert(nb.bucket_init == b.bucket_init && nb.refresh_rate == b.refresh_rate);
        assert forall|k: Seq<char>| #[trigger] next.contains_key(k) implies next[k].wf() by {
            if k != key {
                assert(m.contains_key(k));
            }
        }
        let rest = times.drop_first();
        assert forall|i: int| 0 <= i < rest.len() implies !next[key].window_over(#[trigger] rest[i]) by {
            assert(rest[i] == times[i + 1]);
            assert(!b.window_over(times[i + 1]));
        }
        lemma_capacity_bound(next, key, rest);
    }
}

/// Once the window has run out, the next request refills the bucket to its
/// capacity and starts a new window before taking its own request.
pub proof fn lemma_refill(m: Buckets, key: Seq<char>, now: u128)
    requires
        m.contains_key(key),
        m[key].window_over(now),
    ensures
        request_outcome(m, key, now).1 == Some(m[key].bucket_max > 0),
        request_outcome(m, key, now).0[key].bucket_init == now,
        request_outcome(m, key, now).0[key].bucket == (if m[key].bucket_max > 0 {
            m[key].bucket_max - 1
        } else {
            0
        }),
{
}

/// However many windows have run out since the last refill, a request
/// refills to exactly the capacity: any two such instants give the same
/// answer and leave the same number of requests.
pub proof fn lemma_no_partial_credit(m: Buckets, key: Seq<char>, t1: u128, t2: u128)
    requires
        m.contains_key(key),
        m[key].window_over(t1),
        m[key].window_over(t2),
    ensures
        m[key].refreshed(t1).bucket == m[key].bucket_max,
        request_outcome(m, key, t1).1 == request_outcome(m, key, t2).1,
        request_outcome(m, key, t1).0[key].bucket == request_outcome(m, key, t2).0[key].bucket,
{
}

/// For an entity that is not registered, a request answers `None` and
/// changes nothing, so every later request answers `None` too, and there is
/// no remaining count.
pub proof fn lemma_absent_entity(m: Buckets, key: Seq<char>, now: u128)
    requires
        !m.contains_key(key),
    ensures
        request_outcome(m, key, now) == (m, None::<bool>),
        remaining_of(m, key) == None::<usize>,
{
}

/// Registering an entity again discards what was left of its bucket: it is
/// full at the new capacity, with a new window, whatever it held before.
pub proof fn lemma_reregistration_resets(
    m: Buckets,
    key: Seq<char>,
    max_limit: usize,
    refresh_rate: u128,
    now: u128,
)
    ensures
        registered(m, key, max_limit, refresh_rate, now)[key] == AssociatedEntity::fresh(
            max_limit,
            refresh_rate,
            now,
        ),
        remaining_of(registered(m, key, max_limit, refresh_rate, now), key) == Some(max_limit),
{
}

/// After an entity is removed, requests for it answer `None` and leave the
/// state as it is, and requests for other entities do not bring it back, so
/// it stays absent until it is registered again.
pub proof fn lemma_removed_stays_absent(m: Buckets, key: Seq<char>, other: Seq<char>, now: u128)
    ensures
        request_outcome(m.remove(key), key, now) == (m.remove(key), None::<bool>),
        !request_outcome(m.remove(key), other, now).0.contains_key(key),
{
}

} // verus!
