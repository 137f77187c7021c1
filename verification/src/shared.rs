//! A handle to one collection shared by many owners behind a lock.

use std::sync::Arc;
use vstd::prelude::*;
use vstd::rwlock::RwLock;

use crate::collection::Consumable;
use crate::collection::ConsumableVec;
use crate::collection::matches_pattern;
use crate::text::trim_spec;

verus! {

/// A cloneable handle to one [`ConsumableVec`] shared among any number of
/// owners, from any number of threads.
///
/// Every operation acquires exclusive access to the underlying collection
/// for its whole duration, so all mutations are serialized and no handle
/// ever observes a partially mutated collection. Cloning is cheap: the
/// clone references the same storage and the same lock.
///
/// The lock cannot be poisoned: every operation performed under it is
/// verified free of panics, so a failed acquisition cannot arise.
pub struct SharedConsumableVec {
    data: Arc<RwLock<ConsumableVec, spec_fn(ConsumableVec) -> bool>>,
}

impl SharedConsumableVec {
    /// The lock of this handle admits every collection value, so any
    /// record can be stored through any clone of the handle.
    #[verifier::type_invariant]
    spec fn wf(&self) -> bool {
        forall|v: ConsumableVec| (*self.data).inv(v)
    }

    /// A shared collection holding the given records, or an empty one.
    pub fn new(data: Option<Vec<String>>) -> Self {
        SharedConsumableVec {
            data: Arc::new(RwLock::new(ConsumableVec::new(data), Ghost(|v: ConsumableVec| true))),
        }
    }

    /// Append one record at the end of the shared collection.
    pub fn add(&self, reply: String) {
        proof {
            use_type_invariant(self);
        }
        let (mut coll, handle) = self.data.acquire_write();
        coll.add(reply);
        handle.release_write(coll);
    }

    /// Remove all records from the shared collection.
    pub fn clear(&self) {
        proof {
            use_type_invariant(self);
        }
        let (mut coll, handle) = self.data.acquire_write();
        coll.clear();
        handle.release_write(coll);
    }

    /// Number of records held at the moment the lock was taken.
    pub fn len(&self) -> usize {
        proof {
            use_type_invariant(self);
        }
        let read_handle = self.data.acquire_read();
        let n = read_handle.borrow().len();
        read_handle.release_read();
        n
    }

    /// Whether the shared collection held no record at the moment the lock
    /// was taken.
    pub fn is_empty(&self) -> bool {
        proof {
            use_type_invariant(self);
        }
        let read_handle = self.data.acquire_read();
        let e = read_handle.borrow().is_empty();
        read_handle.release_read();
        e
    }

    /// Atomically remove every record matching `pattern` from the shared
    /// collection and return the matched batch, or `None` when nothing
    /// matched.
    ///
    /// The whole select-and-remove runs under one lock acquisition, so two
    /// concurrent consume calls never both receive the same record.
    pub fn consume(&self, pattern: String) -> (r: Option<ConsumableVec>)
        ensures
            match r {
                Some(batch) => batch@.len() > 0 && forall|i: int|
                    0 <= i < batch@.len() ==> matches_pattern(
                        batch@[i],
                        trim_spec(pattern@),
                    ),
                None => true,
            },
    {
        broadcast use vstd::seq_lib::group_filter_ensures;

        proof {
            use_type_invariant(self);
        }
        let (mut coll, handle) = self.data.acquire_write();
        let r = coll.consume_mut(pattern);
        handle.release_write(coll);
        r
    }
}

impl Consumable for SharedConsumableVec {
    type Item = ConsumableVec;
    type DataType = String;

    /// Consuming through a shared handle returns, when anything matched, a
    /// non-empty batch whose every record matches the trimmed pattern; the
    /// shared contents an instant later are whatever other handles have
    /// made of them.
    open spec fn consume_post(
        pre: Self,
        post: Self,
        pattern: String,
        r: Option<ConsumableVec>,
    ) -> bool {
        match r {
            Some(batch) => batch@.len() > 0 && forall|i: int|
                0 <= i < batch@.len() ==> matches_pattern(batch@[i], trim_spec(pattern@)),
            None => true,
        }
    }

    fn consume_mut(&mut self, pattern: String) -> (r: Option<ConsumableVec>) {
        self.consume(pattern)
    }
}

impl Clone for SharedConsumableVec {
    /// Another handle to the same shared storage and the same lock.
    fn clone(&self) -> (r: Self)
        ensures
            r == *self,
    {
        proof {
            use_type_invariant(self);
        }
        SharedConsumableVec { data: self.data.clone() }
    }
}

impl Default for SharedConsumableVec {
    /// A handle wrapping a new, empty collection.
    fn default() -> Self {
        Self::new(None)
    }
}

} // verus!
