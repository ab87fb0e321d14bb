use vstd::prelude::*;

use std::collections::HashMap;
use std::sync::Arc;

use crate::ids::{uuid_version, ProcessId};
use crate::shared::share;
use crate::user::UserId;

verus! {

broadcast use vstd::std_specs::hash::group_hash_axioms;

/// A resource held in a store, with the user who owns it.
pub struct Owned<T> {
    pub value: Arc<T>,
    pub owner: UserId,
}

impl<T> Owned<T> {
    /// `value`, owned by `owner`.
    pub fn new(value: T, owner: UserId) -> (r: Owned<T>)
        ensures
            *r.value == value,
            r.owner == owner,
    {
        Owned { value: Arc::new(value), owner }
    }
}

/// Why a resource could not be had from a store.
#[derive(Clone, Copy, Debug, PartialEq, Eq, Structural)]
pub enum GetError {
    /// No resource has the id, or another user owns it: the two are not told
    /// apart, so that a user learns nothing of what others own.
    NotFound,
}

/// An in-memory store of resources such as processes, each under a UUID and
/// with its owner.
pub struct Store<V> {
    entries: HashMap<u128, Owned<V>>,
}

impl<V> View for Store<V> {
    /// Each id in the store, with the name of the owner and the resource.
    type V = Map<u128, (Seq<char>, V)>;

    closed spec fn view(&self) -> Map<u128, (Seq<char>, V)> {
        self.entries@.map_values(|o: Owned<V>| (o.owner.0@, *o.value))
    }
}

impl<V> Store<V> {
    /// An empty store.
    pub fn new() -> (r: Store<V>)
        ensures
            r@ == Map::<u128, (Seq<char>, V)>::empty(),
    {
        let r = Store { entries: HashMap::new() };
        proof {
            assert(r@ =~= Map::<u128, (Seq<char>, V)>::empty());
        }
        r
    }

    /// The resource under `id`, if the user `uid` owns it. A missing id and a
    /// resource of another user give the same error.
    pub fn get(&self, id: ProcessId, uid: &UserId) -> (r: Result<Arc<V>, GetError>)
        ensures
            self@.contains_key(id.0) && self@[id.0].0 == uid.0@ ==> (r matches Ok(v) && *v
                == self@[id.0].1),
            !(self@.contains_key(id.0) && self@[id.0].0 == uid.0@) ==> r == Err::<Arc<V>, GetError>(
                GetError::NotFound,
            ),
    {
        match self.entries.get(&id.0) {
            None => Err(GetError::NotFound),
            Some(entry) => {
                if entry.owner == *uid {
                    Ok(share(&entry.value))
                } else {
                    Err(GetError::NotFound)
                }
            },
        }
    }

    /// Puts `value` under `id`, owned by `uid`, unless `id` is taken: then the
    /// store is left as it was and the result is `false`.
    pub fn insert_at(&mut self, id: ProcessId, uid: &UserId, value: V) -> (r: bool)
        ensures
            r == !old(self)@.contains_key(id.0),
            r ==> final(self)@ == old(self)@.insert(id.0, (uid.0@, value)),
            !r ==> final(self)@ == old(self)@,
    {
        if self.entries.contains_key(&id.0) {
            return false;
        }
        let owner = UserId(uid.0.clone());
        self.entries.insert(id.0, Owned::new(value, owner));
        proof {
            assert(self@ =~= old(self)@.insert(id.0, (uid.0@, value)));
        }
        true
    }

    /// Puts `value` into the store under a fresh random id, owned by `uid`,
    /// and returns the id. A random id that is already taken is a fault of
    /// the generator: the store is then left as it was and the result is
    /// `None`. That can only happen when the store already holds a version 4
    /// id, so on an empty store the insertion always succeeds.
    pub fn insert(&mut self, uid: &UserId, value: V) -> (r: Option<ProcessId>)
        ensures
            r matches Some(id) ==> !old(self)@.contains_key(id.0) && final(self)@ == old(
                self,
            )@.insert(id.0, (uid.0@, value)),
            r is None ==> final(self)@ == old(self)@,
            r is None ==> exists|k: u128| #[trigger] old(self)@.contains_key(k) && uuid_version(k) == 4,
    {
        let id = ProcessId::new_v4();
        if self.insert_at(id, uid, value) {
            Some(id)
        } else {
            None
        }
    }
}

} // verus!
