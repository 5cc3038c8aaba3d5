use vstd::prelude::*;

use crate::bucket::AssociatedEntity;

verus! {

/// The entities' buckets, keyed by entity, in a hashbrown map.
///
/// The map is hidden from the verifier; what it holds is `table_entries`.
#[verifier::external_body]
pub struct EntityTable {
    map: hashbrown::HashMap<String, AssociatedEntity>,
}

/// What the table holds, from each entity key to its bucket.
pub uninterp spec fn table_entries(t: EntityTable) -> Map<Seq<char>, AssociatedEntity>;

impl EntityTable {
    /// Relies on hashbrown::HashMap::new: a new map holds nothing.
    #[verifier::external_body]
    pub fn new() -> (r: EntityTable)
        ensures
            table_entries(r).dom().is_empty(),
    {
        EntityTable { map: hashbrown::HashMap::new() }
    }

    /// Relies on hashbrown::HashMap::get: the value stored under the key,
    /// if there is one.
    #[verifier::external_body]
    pub fn get(&self, key: &str) -> (r: Option<AssociatedEntity>)
        ensures
            r.is_some() == table_entries(*self).contains_key(key@),
            r.is_some() ==> r.unwrap() == table_entries(*self)[key@],
    {
        self.map.get(key).copied()
    }

    /// Relies on hashbrown::HashMap::insert: the key maps to the new value
    /// afterwards, and every other key is left as it was.
    #[verifier::external_body]
    pub fn insert(&mut self, key: String, value: AssociatedEntity)
        ensures
            table_entries(*final(self)) == table_entries(*old(self)).insert(key@, value),
    {
        self.map.insert(key, value);
    }

    /// Relies on hashbrown::HashMap::remove: the key leaves the map, and its
    /// value, if it had one, is returned.
    #[verifier::external_body]
    pub fn remove(&mut self, key: &str) -> (r: Option<AssociatedEntity>)
        ensures
            table_entries(*final(self)) == table_entries(*old(self)).remove(key@),
            r.is_some() == table_entries(*old(self)).contains_key(key@),
            r.is_some() ==> r.unwrap() == table_entries(*old(self))[key@],
    {
        self.map.remove(key)
    }
}

} // verus!
