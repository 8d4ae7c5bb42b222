use vstd::prelude::*;

verus! {

/// Either owns a value or borrows one that lives elsewhere; either way it gives
/// access to the value.
#[derive(Debug)]
pub enum StoredOrReferenced<'a, T> {
    StoredInternally(Box<T>),
    Referenced(&'a T),
}

impl<'a, T> StoredOrReferenced<'a, T> {
    /// The value held or borrowed.
    pub open spec fn target(&self) -> T {
        match self {
            StoredOrReferenced::StoredInternally(b) => **b,
            StoredOrReferenced::Referenced(r) => **r,
        }
    }

    /// Takes ownership of a boxed value.
    pub fn from_box(value: Box<T>) -> (res: Self)
        ensures
            res is StoredInternally,
            res.target() == *value,
    {
        StoredOrReferenced::StoredInternally(value)
    }

    /// Borrows a value that lives elsewhere.
    pub fn from_ref(value: &'a T) -> (res: Self)
        ensures
            res is Referenced,
            res.target() == *value,
    {
        StoredOrReferenced::Referenced(value)
    }

    /// Access to the value, whether held or borrowed.
    pub fn get(&self) -> (res: &T)
        ensures
            *res == self.target(),
    {
        match self {
            StoredOrReferenced::StoredInternally(b) => &**b,
            StoredOrReferenced::Referenced(r) => *r,
        }
    }
}

} // verus!
