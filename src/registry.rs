//! The connection registry: maps handles to open device resources. Handles
//! are issued from a counter that starts at 1 and only grows, so a handle is
//! never issued twice, even after its connection is closed.

use vstd::prelude::*;
use std::collections::HashMap;
use crate::error::SerialError;

verus! {

broadcast use vstd::std_specs::hash::group_hash_axioms;

/// Open connections by handle, and the next handle to issue.
#[derive(Debug)]
pub struct Registry<R> {
    next_id: u64,
    ports: HashMap<u64, R>,
}

impl<R> Registry<R> {
    /// Every live handle was issued before the counter's current value, and
    /// the counter starts at 1.
    #[verifier::type_invariant]
    spec fn inv(self) -> bool {
        &&& self.next_id >= 1
        &&& forall|id: u64| #[trigger] self.ports@.contains_key(id) ==> 1 <= id < self.next_id
    }

    /// The handle the next successful `insert` issues.
    pub closed spec fn next_handle(&self) -> u64 {
        self.next_id
    }

    /// The open connections by handle.
    pub closed spec fn entries(&self) -> Map<u64, R> {
        self.ports@
    }

    /// An empty registry; its first handle is 1.
    pub fn new() -> (r: Registry<R>)
        ensures
            r.next_handle() == 1,
            r.entries() == Map::<u64, R>::empty(),
            r.handles_issued(),
    {
        Registry { next_id: 1, ports: HashMap::new() }
    }

    /// Every live handle is at least 1 and below the next handle, so the
    /// next handle is fresh.
    pub open spec fn handles_issued(&self) -> bool {
        &&& self.next_handle() >= 1
        &&& forall|id: u64| #[trigger]
            self.entries().contains_key(id) ==> 1 <= id < self.next_handle()
    }

    /// Stores `port` under a fresh handle and returns it; `None`, with the
    /// registry unchanged, once every handle value has been issued.
    pub fn insert(&mut self, port: R) -> (r: Option<u64>)
        ensures
            old(self).handles_issued(),
            final(self).handles_issued(),
            old(self).next_handle() < u64::MAX ==> {
                &&& r == Some(old(self).next_handle())
                &&& final(self).next_handle() == old(self).next_handle() + 1
                &&& !old(self).entries().contains_key(old(self).next_handle())
                &&& final(self).entries() == old(self).entries().insert(old(self).next_handle(), port)
            },
            old(self).next_handle() == u64::MAX ==> {
                &&& r is None
                &&& final(self).next_handle() == old(self).next_handle()
                &&& final(self).entries() == old(self).entries()
            },
    {
        proof {
            use_type_invariant(&*self);
        }
        if self.next_id == u64::MAX {
            return None;
        }
        let id = self.next_id;
        let mut ports = HashMap::new();
        std::mem::swap(&mut ports, &mut self.ports);
        ports.insert(id, port);
        *self = Registry { next_id: id + 1, ports };
        proof {
            use_type_invariant(&*self);
        }
        Some(id)
    }

    /// The resource stored under `id`, if any.
    pub fn get(&self, id: u64) -> (r: Option<&R>)
        ensures
            self.handles_issued(),
            match r {
                Some(port) => self.entries().contains_key(id) && *port == self.entries()[id],
                None => !self.entries().contains_key(id),
            },
    {
        proof {
            use_type_invariant(self);
        }
        self.ports.get(&id)
    }

    /// The resource stored under `id`, or `InvalidHandle` naming `id`.
    pub fn lookup(&self, id: u64) -> (r: Result<&R, SerialError>)
        ensures
            self.handles_issued(),
            match r {
                Ok(port) => self.entries().contains_key(id) && *port == self.entries()[id],
                Err(e) => !self.entries().contains_key(id) && e == (SerialError::InvalidHandle {
                    handle_id: id,
                }),
            },
    {
        proof {
            use_type_invariant(self);
        }
        match self.ports.get(&id) {
            Some(port) => Ok(port),
            None => Err(SerialError::InvalidHandle { handle_id: id }),
        }
    }

    /// Removes and returns the resource stored under `id`; an unknown handle
    /// leaves the registry as it was. Other handles are untouched.
    pub fn remove(&mut self, id: u64) -> (r: Option<R>)
        ensures
            old(self).handles_issued(),
            final(self).handles_issued(),
            final(self).next_handle() == old(self).next_handle(),
            final(self).entries() == old(self).entries().remove(id),
            match r {
                Some(port) => old(self).entries().contains_key(id) && port == old(self).entries()[id],
                None => !old(self).entries().contains_key(id),
            },
    {
        proof {
            use_type_invariant(&*self);
        }
        let mut ports = HashMap::new();
        std::mem::swap(&mut ports, &mut self.ports);
        let r = ports.remove(&id);
        *self = Registry { next_id: self.next_id, ports };
        proof {
            use_type_invariant(&*self);
        }
        r
    }

    /// Forced eviction of a connection whose resource can no longer be used:
    /// the handle is removed and the caller gets `InvalidHandle`, telling it
    /// to open the device again.
    pub fn evict(&mut self, id: u64) -> (r: SerialError)
        ensures
            final(self).handles_issued(),
            final(self).next_handle() == old(self).next_handle(),
            final(self).entries() == old(self).entries().remove(id),
            r == (SerialError::InvalidHandle { handle_id: id }),
    {
        let _ = self.remove(id);
        SerialError::InvalidHandle { handle_id: id }
    }
}

/// Handle isolation: closing or evicting one handle leaves every other
/// handle, and what it maps to, as it was.
pub proof fn lemma_other_handles_unaffected<R>(
    before: &Registry<R>,
    after: &Registry<R>,
    closed: u64,
    other: u64,
)
    requires
        after.entries() == before.entries().remove(closed),
        other != closed,
    ensures
        after.entries().contains_key(other) == before.entries().contains_key(other),
        before.entries().contains_key(other) ==> after.entries()[other] == before.entries()[other],
{
}

} // verus!
