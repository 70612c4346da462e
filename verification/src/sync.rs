//! A lock around a value, taken by whoever holds it mutably.
use vstd::prelude::*;

verus! {

/// A value behind a lock; the lock is taken through a mutable borrow, so
/// taking it never fails.
pub struct Mutex<T>(T);

impl<T> Mutex<T> {
    /// The value behind the lock.
    pub closed spec fn value(&self) -> T {
        self.0
    }

    pub fn new(t: T) -> (r: Mutex<T>)
        ensures
            r.value() == t,
    {
        Mutex(t)
    }

    /// Takes the lock: the value, to read and change.
    pub fn lock(&mut self) -> (r: &mut T)
        ensures
            *r == old(self).value(),
            final(self).value() == *final(r),
    {
        &mut self.0
    }

    /// Gives up the lock and hands out the value.
    pub fn take(self) -> (r: T)
        ensures
            r == self.value(),
    {
        self.0
    }
}

/// `value` as an `i32`; the value must fit.
pub fn to_i32(value: usize) -> (r: i32)
    requires
        value <= i32::MAX,
    ensures
        r == value,
{
    value as i32
}

} // verus!
