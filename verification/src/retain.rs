use vstd::prelude::*;

verus! {

/// A value that holds a reference the engine counts, and that must hand it back
/// once it is no longer used.
pub trait Retainable {
    /// Gives the counted reference back to the engine, ending the value.
    fn release(self);
}

/// Owns one counted reference to a value and gives it back when dropped.
#[derive(Debug)]
pub struct Retain<T: Retainable> {
    pub(crate) retained_value: T,
}

impl<T: Retainable> Retain<T> {
    /// The value this handle owns a reference to.
    pub closed spec fn retained(&self) -> T {
        self.retained_value
    }

    /// Takes ownership of a reference that has already been counted.
    pub fn wrap(retained_value: T) -> (res: Self)
        ensures
            res.retained() == retained_value,
    {
        Retain { retained_value }
    }

    /// Gives the counted reference back and ends the handle: the value's own
    /// release is called on it, once. Values are not given back when a handle
    /// is merely dropped, so every handle is ended through this method.
    pub fn release(self)
        ensures
            call_ensures(T::release, (self.retained(),), ()),
    {
        let v = self.retained_value;
        v.release();
    }

    /// The value behind the handle.
    pub fn value(&self) -> (res: &T)
        ensures
            *res == self.retained(),
    {
        &self.retained_value
    }
}

impl<T: Retainable> core::ops::Deref for Retain<T> {
    type Target = T;

    fn deref(&self) -> (res: &T)
        ensures
            *res == self.retained(),
    {
        &self.retained_value
    }
}

} // verus!
