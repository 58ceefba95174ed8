//! Two wrappers that say in a signature where a value comes from.

use vstd::prelude::*;

verus! {

/// A type which contains data loaded from the program memory.
/// The name is slightly misleading and is only a weak guarantee; `Live` does *not* take ownership.
/// It's only meant to be used in a function signature, and can be an out-of-sync clone of the actual object.
pub struct Live<T: Clone> {
    inner: T,
}

/// A type which contains data loaded from the the disk, or a copy of `Live<T>`.
/// It's only meant to be used in a function signature, and can be an out-of-sync clone of the actual object.
pub struct Snapshot<T> {
    inner: T,
}

impl<T: Clone> Live<T> {
    /// What the wrapper holds.
    pub closed spec fn value(&self) -> T {
        self.inner
    }

    pub fn new(t: T) -> (r: Live<T>)
        ensures
            r.value() == t,
    {
        Live { inner: t }
    }

    pub fn get(&self) -> (r: &T)
        ensures
            *r == self.value(),
    {
        &self.inner
    }

    /// A snapshot of what the wrapper holds now: a clone of it.
    pub fn snapshot(&self) -> (r: Snapshot<T>)
        ensures
            vstd::pervasive::cloned(self.value(), r.value()),
    {
        Snapshot { inner: self.inner.clone() }
    }
}

impl<T> Snapshot<T> {
    /// What the wrapper holds.
    pub closed spec fn value(&self) -> T {
        self.inner
    }

    pub fn new(t: T) -> (r: Snapshot<T>)
        ensures
            r.value() == t,
    {
        Snapshot { inner: t }
    }

    pub fn get(&self) -> (r: &T)
        ensures
            *r == self.value(),
    {
        &self.inner
    }
}

} // verus!
