use vstd::prelude::*;
use std::collections::HashMap;

use crate::errors::{EsperantoError, EsperantoResult, JSExportError};

verus! {

broadcast use vstd::std_specs::hash::group_hash_axioms;

/// The classes an engine runtime has defined for exported native types, keyed
/// by a number that identifies the native type. Each engine keeps what it
/// needs per class (class identifiers, prototypes) as the stored value.
pub struct ClassRegistry<V> {
    entries: HashMap<u64, V>,
}

impl<V> View for ClassRegistry<V> {
    type V = Map<u64, V>;

    closed spec fn view(&self) -> Map<u64, V> {
        self.entries@
    }
}

impl<V> ClassRegistry<V> {
    /// What a lookup of a type finds: what is stored for it, if anything.
    pub open spec fn spec_lookup(&self, key: u64) -> Option<V> {
        if self@.contains_key(key) {
            Some(self@[key])
        } else {
            None
        }
    }
}

impl<V: Copy> ClassRegistry<V> {
    /// An empty registry.
    pub fn new() -> (res: Self)
        ensures
            res@ == Map::<u64, V>::empty(),
    {
        ClassRegistry { entries: HashMap::new() }
    }

    /// What is stored for a type, if its classes are defined.
    pub fn lookup(&self, key: u64) -> (res: Option<V>)
        ensures
            res == self.spec_lookup(key),
    {
        match self.entries.get(&key) {
            Some(v) => Some(*v),
            None => None,
        }
    }

    /// Records the classes defined for a type, replacing an earlier record.
    pub fn register(&mut self, key: u64, value: V)
        ensures
            final(self)@ == old(self)@.insert(key, value),
    {
        self.entries.insert(key, value);
    }

    /// What is stored for a type, defining its classes first when they are not
    /// defined yet. `create` is run only for a type without a record; what it
    /// makes is recorded, and a failure to make it is passed on with the
    /// registry left as it was.
    pub fn get_or_create<F: FnOnce() -> EsperantoResult<V>>(&mut self, key: u64, create: F) -> (res:
        EsperantoResult<V>)
        requires
            old(self)@.contains_key(key) || create.requires(()),
        ensures
            old(self)@.contains_key(key) ==> res == Ok::<V, EsperantoError>(old(self)@[key])
                && final(self)@ == old(self)@,
            !old(self)@.contains_key(key) ==> create.ensures((), res),
            !old(self)@.contains_key(key) ==> match res {
                Ok(v) => final(self)@ == old(self)@.insert(key, v),
                Err(_) => final(self)@ == old(self)@,
            },
    {
        match self.lookup(key) {
            Some(existing) => Ok(existing),
            None => {
                let created = create();
                match created {
                    Ok(v) => {
                        self.register(key, v);
                        Ok(v)
                    },
                    Err(e) => Err(e),
                }
            },
        }
    }

    /// Forgets the classes of a type and gives back what was stored for them.
    /// A type that has no record is an unexpected state of the engine.
    pub fn remove(&mut self, key: u64) -> (res: Result<V, EsperantoError>)
        ensures
            final(self)@ == old(self)@.remove(key),
            match res {
                Ok(v) => old(self)@.contains_key(key) && v == old(self)@[key],
                Err(e) => !old(self)@.contains_key(key) && e == EsperantoError::ExportError(
                    JSExportError::UnexpectedBehaviour,
                ),
            },
    {
        match self.entries.remove(&key) {
            Some(v) => Ok(v),
            None => Err(EsperantoError::ExportError(JSExportError::UnexpectedBehaviour)),
        }
    }

    /// Whether no class is recorded.
    pub fn is_empty(&self) -> (res: bool)
        ensures
            res == (self@ == Map::<u64, V>::empty()),
    {
        let r = self.entries.is_empty();
        proof {
            if !r {
                assert(!self@.is_empty());
            } else {
                assert(self@ =~= Map::<u64, V>::empty());
            }
        }
        r
    }
}

} // verus!
