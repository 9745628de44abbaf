//! The cell type and its primitives.
use vstd::prelude::*;
use vstd::std_specs::cmp::{PartialEqSpec, PartialOrdSpec};

verus! {

/// A mutable memory location holding one value of type `T`.
///
/// Its abstract value (its view) is the value it holds.
pub struct ClosureCell<T> {
    value: T,
}

impl<T> View for ClosureCell<T> {
    type V = T;

    closed spec fn view(&self) -> T {
        self.value
    }
}

impl<T> ClosureCell<T> {
    /// Creates a new `ClosureCell` containing the given value.
    pub fn new(value: T) -> (r: Self)
        ensures
            r@ == value,
    {
        ClosureCell { value }
    }

    /// Sets the contained value; the previous value is dropped after the new
    /// one is in place.
    pub fn set(&mut self, value: T)
        ensures
            final(self)@ == value,
    {
        let _previous = self.replace(value);
    }

    /// Swaps the values of two cells.
    ///
    /// The two exclusive references can never denote the same cell, so no
    /// identity test is needed: a cell cannot be swapped with itself.
    pub fn swap(&mut self, other: &mut Self)
        ensures
            final(self)@ == old(other)@,
            final(other)@ == old(self)@,
    {
        core::mem::swap(&mut self.value, &mut other.value);
    }

    /// Replaces the contained value, and returns the previous one.
    pub fn replace(&mut self, value: T) -> (r: T)
        ensures
            r == old(self)@,
            final(self)@ == value,
    {
        let mut incoming = value;
        core::mem::swap(&mut self.value, &mut incoming);
        incoming
    }

    /// Unwraps the value.
    pub fn into_inner(self) -> (r: T)
        ensures
            r == self@,
    {
        self.value
    }

    /// Returns a mutable reference to the underlying data. The cell is
    /// borrowed exclusively for as long as the reference lives, so it is the
    /// only path to the contents.
    pub fn get_mut(&mut self) -> (r: &mut T)
        ensures
            *r == old(self)@,
            final(self)@ == *final(r),
    {
        &mut self.value
    }

    /// Calls `f` with exclusive access to the contents.
    ///
    /// `f` may be any closure that accepts the current contents. It cannot
    /// reach this cell through what it captures: the cell is borrowed
    /// exclusively for the whole call, so such a closure is a compile error.
    pub fn with_inner<F: FnOnce(&mut T)>(&mut self, f: F)
        requires
            forall|v: &mut T| *v == old(self)@ ==> f.requires((v,)),
        ensures
            exists|v: &mut T|
                *v == old(self)@ && *final(v) == final(self)@ && f.ensures((v,), ()),
    {
        f(&mut self.value);
    }
}

impl<T: Copy> ClosureCell<T> {
    /// Returns a copy of the contained value.
    pub fn get(&self) -> (r: T)
        ensures
            r == self@,
    {
        self.value
    }
}

impl<T: Default> ClosureCell<T> {
    /// Takes the value of the cell, leaving `T::default()` in its place.
    pub fn take(&mut self) -> (r: T)
        ensures
            r == old(self)@,
            call_ensures(T::default, (), final(self)@),
    {
        self.replace(T::default())
    }
}

// std's conversion, defaulting, cloning and comparison traits, each
// forwarded to the contained value.

impl<T> From<T> for ClosureCell<T> {
    fn from(t: T) -> (r: Self)
        ensures
            r@ == t,
    {
        let r = ClosureCell::new(t);
        proof {
            let c = choose|c: ClosureCell<T>| c@ == t;
            assert(c == r);
        }
        r
    }
}

impl<T> vstd::std_specs::convert::FromSpecImpl<T> for ClosureCell<T> {
    open spec fn obeys_from_spec() -> bool {
        true
    }

    open spec fn from_spec(v: T) -> Self {
        choose|c: ClosureCell<T>| c@ == v
    }
}

impl<T: Default> Default for ClosureCell<T> {
    fn default() -> (r: Self)
        ensures
            call_ensures(T::default, (), r@),
    {
        ClosureCell::new(T::default())
    }
}

impl<T: Copy> Clone for ClosureCell<T> {
    fn clone(&self) -> (r: Self)
        ensures
            r@ == self@,
    {
        ClosureCell::new(self.get())
    }
}

impl<T: PartialEqSpec> PartialEq for ClosureCell<T> {
    fn eq(&self, other: &Self) -> (r: bool) {
        self.value == other.value
    }
}

impl<T: PartialEqSpec> vstd::std_specs::cmp::PartialEqSpecImpl for ClosureCell<T> {
    open spec fn obeys_eq_spec() -> bool {
        T::obeys_eq_spec()
    }

    open spec fn eq_spec(&self, other: &Self) -> bool {
        self@.eq_spec(&other@)
    }
}

impl<T: Eq + PartialEqSpec> Eq for ClosureCell<T> {}

impl<T: PartialEqSpec + PartialOrdSpec> PartialOrd for ClosureCell<T> {
    fn partial_cmp(&self, other: &Self) -> (r: Option<core::cmp::Ordering>) {
        self.value.partial_cmp(&other.value)
    }

    fn lt(&self, other: &Self) -> (r: bool) {
        self.value < other.value
    }

    fn le(&self, other: &Self) -> (r: bool) {
        self.value <= other.value
    }

    fn gt(&self, other: &Self) -> (r: bool) {
        self.value > other.value
    }

    fn ge(&self, other: &Self) -> (r: bool) {
        self.value >= other.value
    }
}

impl<T: PartialEqSpec + PartialOrdSpec> vstd::std_specs::cmp::PartialOrdSpecImpl for ClosureCell<T> {
    open spec fn obeys_partial_cmp_spec() -> bool {
        T::obeys_partial_cmp_spec()
    }

    open spec fn partial_cmp_spec(&self, other: &Self) -> Option<core::cmp::Ordering> {
        self@.partial_cmp_spec(&other@)
    }
}

impl<T: Ord + PartialEqSpec + PartialOrdSpec> Ord for ClosureCell<T> {
    /// Relies on `T::cmp`, std's total order of the contained type, which
    /// this returns unchanged.
    #[verifier::external_body]
    fn cmp(&self, other: &Self) -> (r: core::cmp::Ordering) {
        self.value.cmp(&other.value)
    }
}

} // verus!
