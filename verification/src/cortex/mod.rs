use vstd::prelude::*;

pub mod nvic;
pub mod scb;
pub mod systick;

verus! {

/// Container for state shared with interrupt handlers.
pub struct Mutex<T> {
    inner: T,
}

impl<T> Mutex<T> {
    pub closed spec fn value(&self) -> T {
        self.inner
    }

    pub fn new(value: T) -> (m: Self)
        ensures
            m.value() == value,
    {
        Mutex { inner: value }
    }

    pub fn borrow(&self) -> (r: &T)
        ensures
            *r == self.value(),
    {
        &self.inner
    }
}

} // verus!
