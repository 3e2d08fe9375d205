//! Repositories: a storage interface and an in-memory implementation.

use vstd::prelude::*;

pub mod user;

verus! {

use vstd::pervasive::cloned;

/// Failure of a repository lookup. A missing record is the only failure an
/// in-memory repository can produce.
#[derive(Clone, Copy, Debug, PartialEq, Eq, Structural)]
pub enum RepoError {
    NotFound,
}

/// Storage of records of type `T` addressed by identifiers of type `Id`.
pub trait Store<Id, T> {
    fn insert(&mut self, item: T) -> Result<T, RepoError>;

    fn get_by_id(&self, id: Id) -> Result<T, RepoError>;

    fn list(&self) -> Result<Vec<T>, RepoError>;
}

/// A record that can name its own identifier.
pub trait UniqueId<T> {
    /// The identifier the record carries, if any.
    spec fn spec_id(&self) -> Option<T>;

    fn get_id<'item>(&'item self) -> (r: Option<&'item T>)
        ensures
            match r {
                Some(x) => self.spec_id() == Some(*x),
                None => self.spec_id() is None,
            },
    ;
}

/// Whether record `t` carries the identifier `id`.
pub open spec fn id_matches<T: UniqueId<String>>(t: T, id: Seq<char>) -> bool {
    t.spec_id() matches Some(s) && s@ == id
}

/// A repository backed by a plain vector, in insertion order.
#[derive(Debug, Clone)]
pub struct MemoryStore<T> {
    pub cache: Vec<T>,
}

impl<T: Clone + UniqueId<String>> MemoryStore<T> {
    /// An empty repository.
    pub fn new() -> (r: Self)
        ensures
            r.cache@.len() == 0,
    {
        MemoryStore { cache: Vec::new() }
    }
}

impl<T: Clone + UniqueId<String>> Store<String, T> for MemoryStore<T> {
    /// Appends a copy of `item` and hands the item back.
    fn insert(&mut self, item: T) -> (r: Result<T, RepoError>)
        ensures
            r matches Ok(out) && out == item,
            final(self).cache@.len() == old(self).cache@.len() + 1,
            forall|j: int|
                0 <= j < old(self).cache@.len() ==> final(self).cache@[j] == old(self).cache@[j],
            cloned::<T>(item, final(self).cache@.last()),
    {
        let copy = item.clone();
        self.cache.push(copy);
        Ok(item)
    }

    /// Looks the record with identifier `id` up; a copy of the first match
    /// comes back, or `NotFound` when no record carries `id`.
    fn get_by_id(&self, id: String) -> (r: Result<T, RepoError>)
        ensures
            match r {
                Ok(t) => exists|i: int|
                    0 <= i < self.cache@.len() && #[trigger] id_matches(self.cache@[i], id@)
                        && cloned::<T>(self.cache@[i], t) && (forall|j: int|
                        0 <= j < i ==> !id_matches(self.cache@[j], id@)),
                Err(e) => e == RepoError::NotFound && forall|i: int|
                    0 <= i < self.cache@.len() ==> !id_matches(self.cache@[i], id@),
            },
    {
        let n = self.cache.len();
        let mut i: usize = 0;
        while i < n
            invariant
                n == self.cache@.len(),
                i <= n,
                forall|j: int| 0 <= j < i ==> !id_matches(self.cache@[j], id@),
            decreases n - i,
        {
            let item = &self.cache[i];
            match item.get_id() {
                Some(x) => {
                    if *x == id {
                        proof {
                            assert(id_matches(self.cache@[i as int], id@));
                        }
                        return Ok(item.clone());
                    }
                },
                None => {},
            }
            proof {
                assert(!id_matches(self.cache@[i as int], id@));
            }
            i = i + 1;
        }
        Err(RepoError::NotFound)
    }

    /// A copy of every record, in insertion order.
    fn list(&self) -> (r: Result<Vec<T>, RepoError>)
        ensures
            r matches Ok(v) && v@.len() == self.cache@.len() && forall|i: int|
                0 <= i < v@.len() ==> cloned::<T>(#[trigger] self.cache@[i], v@[i]),
    {
        Ok(self.cache.clone())
    }
}

} // verus!
