use vstd::prelude::*;

mod bucket;
mod clock;
mod laws;
mod limiter;
mod table;

pub use bucket::AssociatedEntity;
pub use laws::{
    allowed_in, lemma_absent_entity, lemma_capacity_bound, lemma_no_partial_credit, lemma_refill,
    lemma_removed_stays_absent, lemma_reregistration_resets,
};
pub use limiter::{buckets_wf, registered, remaining_of, request_outcome, Buckets, Limiter};

verus! {

} // verus!
