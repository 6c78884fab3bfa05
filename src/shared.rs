//! A string owned jointly by several handles, with the number of live
//! handles kept as a count that callers can read.
use vstd::prelude::*;

use std::rc::Rc;

verus! {

/// Relies on `Rc::clone`: the new handle points to the same value as `h`.
#[verifier::external_body]
fn clone_rc(h: &Rc<String>) -> (r: Rc<String>)
    ensures
        r@ == h@,
{
    Rc::clone(h)
}

/// The first owner of a shared string. It counts itself and every handle
/// that it has handed out and not yet taken back.
pub struct SharedString {
    data: Rc<String>,
    count: usize,
}

/// A further handle to the value of a `SharedString`.
pub struct SharedRef {
    data: Rc<String>,
}

impl SharedString {
    #[verifier::type_invariant]
    spec fn count_positive(&self) -> bool {
        self.count >= 1
    }

    /// The shared value.
    pub closed spec fn value(&self) -> Seq<char> {
        self.data@
    }

    /// How many handles to the value are live, this owner included.
    pub closed spec fn count(&self) -> nat {
        self.count as nat
    }

    /// Takes ownership of `value`; the owner is its only handle.
    pub fn new(value: String) -> (r: SharedString)
        ensures
            r.value() == value@,
            r.count() == 1,
    {
        SharedString { data: Rc::new(value), count: 1 }
    }

    /// The number of live handles, this owner included; never below one.
    pub fn strong_count(&self) -> (r: usize)
        ensures
            r == self.count(),
            r >= 1,
    {
        proof {
            use_type_invariant(self);
        }
        self.count
    }

    /// The shared value.
    pub fn as_str(&self) -> (r: &str)
        ensures
            r@ == self.value(),
    {
        self.data.as_str()
    }

    /// Hands out one more handle to the value.
    pub fn share(&mut self) -> (h: SharedRef)
        requires
            old(self).count() < usize::MAX,
        ensures
            h.value() == old(self).value(),
            final(self).value() == old(self).value(),
            final(self).count() == old(self).count() + 1,
    {
        proof {
            use_type_invariant(&*self);
        }
        let h = SharedRef { data: clone_rc(&self.data) };
        self.count = self.count + 1;
        h
    }

    /// Takes back and drops a handle to the value; the owner itself stays.
    pub fn release(&mut self, h: SharedRef)
        requires
            old(self).count() > 1,
            h.value() == old(self).value(),
        ensures
            final(self).value() == old(self).value(),
            final(self).count() == old(self).count() - 1,
    {
        self.count = self.count - 1;
    }
}

impl SharedRef {
    /// The value that this handle points to.
    pub closed spec fn value(&self) -> Seq<char> {
        self.data@
    }

    /// The value that this handle points to.
    pub fn as_str(&self) -> (r: &str)
        ensures
            r@ == self.value(),
    {
        self.data.as_str()
    }
}

} // verus!
