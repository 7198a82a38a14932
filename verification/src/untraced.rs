//! The wrapper that remembers nothing.
//!
//! It has the interface of `traced::Trace`, holds the value and nothing
//! else, and costs what the value costs. Making one walks no stack, and
//! printing one prints the value as if there were no wrapper around it.

use vstd::prelude::*;
use vstd::std_specs::cmp::OrdSpec;
use vstd::std_specs::cmp::PartialEqSpec;
use vstd::std_specs::cmp::PartialEqSpecImpl;
use vstd::std_specs::cmp::PartialOrdSpec;
use vstd::std_specs::cmp::PartialOrdSpecImpl;
use vstd::std_specs::convert::FromSpecImpl;
use core::cmp::Ordering;
use core::fmt::Debug;
use core::ops::Deref;
use core::ops::DerefMut;
use crate::print::show;
use crate::print::shows;
use crate::print::write_debug;

verus! {

/// Wrapper type containing a value and nothing else.
#[derive(Hash)]
pub struct Trace<T>(T);

/// Type-alias to make it easier to slot in errors that are not traced.
pub type Result<T, E> = core::result::Result<T, Trace<E>>;

impl<T> Trace<T> {
    /// The value in the wrapper.
    pub closed spec fn value(&self) -> T {
        self.0
    }

    /// Wraps a value.
    #[inline(always)]
    pub fn new(t: T) -> (trace: Self)
        ensures
            trace.value() == t,
    {
        Trace(t)
    }

    /// Yields the wrapped data.
    #[inline(always)]
    pub fn unwrap(self) -> (t: T)
        ensures
            t == self.value(),
    {
        self.0
    }
}

impl<T: Debug> Trace<T> {
    /// The wrapper as it is printed for debugging: the value as it prints
    /// itself. The wrapper is invisible.
    pub fn debug_string(&self) -> (out: String)
        ensures
            shows(&self.value(), out),
    {
        show(&self.0)
    }
}

/// Implementation which only forwards to the internal type, making `Trace`
/// invisible.
impl<T: Debug> Debug for Trace<T> {
    fn fmt(&self, f: &mut core::fmt::Formatter<'_>) -> (written: core::result::Result<
        (),
        core::fmt::Error,
    >) {
        write_debug(&self.0, f)
    }
}

impl<T: Clone> Clone for Trace<T> {
    fn clone(&self) -> (copy: Self)
        ensures
            cloned(self.value(), copy.value()),
    {
        Trace(self.0.clone())
    }
}

/// Enables any error to automatically be wrapped in `Trace<E>` when
/// `Result<T, E>` is used with the `?` operator.
impl<T> From<T> for Trace<T> {
    #[inline(always)]
    fn from(t: T) -> (trace: Self)
        ensures
            trace.value() == t,
    {
        Trace::new(t)
    }
}

/// Kept as loose as the conversion into the wrapper that walks the stack,
/// so that code proved against one of the two holds for the other.
impl<T> FromSpecImpl<T> for Trace<T> {
    open spec fn obeys_from_spec() -> bool {
        false
    }

    open spec fn from_spec(t: T) -> Self {
        arbitrary()
    }
}

impl<T> Deref for Trace<T> {
    type Target = T;

    fn deref(&self) -> (t: &T)
        ensures
            *t == self.value(),
    {
        &self.0
    }
}

impl<T> DerefMut for Trace<T> {
    fn deref_mut(&mut self) -> (t: &mut T)
        ensures
            *t == old(self).value(),
            final(self).value() == *final(t),
    {
        &mut self.0
    }
}

impl<T: PartialEq> PartialEq for Trace<T> {
    fn eq(&self, rhs: &Trace<T>) -> (equal: bool) {
        self.0 == rhs.0
    }
}

/// Two wrappers are equal exactly where their values are.
impl<T: PartialEq> PartialEqSpecImpl for Trace<T> {
    open spec fn obeys_eq_spec() -> bool {
        T::obeys_eq_spec()
    }

    open spec fn eq_spec(&self, rhs: &Trace<T>) -> bool {
        self.value().eq_spec(&rhs.value())
    }
}

impl<T: Eq> Eq for Trace<T> {}

impl<T: PartialOrd> PartialOrd for Trace<T> {
    fn partial_cmp(&self, rhs: &Trace<T>) -> (order: Option<Ordering>) {
        self.0.partial_cmp(&rhs.0)
    }
}

/// Two wrappers are ordered as their values are.
impl<T: PartialOrd> PartialOrdSpecImpl for Trace<T> {
    open spec fn obeys_partial_cmp_spec() -> bool {
        T::obeys_partial_cmp_spec()
    }

    open spec fn partial_cmp_spec(&self, rhs: &Trace<T>) -> Option<Ordering> {
        self.value().partial_cmp_spec(&rhs.value())
    }
}

impl<T: Ord> Ord for Trace<T> {
    /// `Ord::cmp` of the two values. Trusted: the order is the one that the
    /// values have among themselves, wherever the type of the values says
    /// what that is.
    #[verifier::external_body]
    fn cmp(&self, rhs: &Self) -> (order: Ordering)
        ensures
            T::obeys_cmp_spec() ==> order == self.value().cmp_spec(&rhs.value()),
    {
        Ord::cmp(&self.0, &rhs.0)
    }
}

/// Wrapping a value and unwrapping it again gives the value back.
pub proof fn lemma_unwrap_returns_wrapped<T>(v: T, trace: Trace<T>, out: T)
    requires
        call_ensures(Trace::<T>::new, (v,), trace),
        call_ensures(Trace::<T>::unwrap, (trace,), out),
    ensures
        out == v,
{
}

/// Two wrappers compare equal exactly where the values they were made of do.
pub proof fn lemma_eq_is_eq_of_values<T: PartialEq>(
    v1: T,
    v2: T,
    t1: Trace<T>,
    t2: Trace<T>,
    equal: bool,
)
    requires
        T::obeys_eq_spec(),
        call_ensures(Trace::<T>::new, (v1,), t1),
        call_ensures(Trace::<T>::new, (v2,), t2),
        call_ensures(Trace::<T>::eq, (&t1, &t2), equal),
    ensures
        equal == v1.eq_spec(&v2),
{
}

/// Two wrappers are in the order that the values they were made of are in.
pub proof fn lemma_cmp_is_cmp_of_values<T: Ord>(
    v1: T,
    v2: T,
    t1: Trace<T>,
    t2: Trace<T>,
    order: Ordering,
)
    requires
        T::obeys_cmp_spec(),
        call_ensures(Trace::<T>::new, (v1,), t1),
        call_ensures(Trace::<T>::new, (v2,), t2),
        call_ensures(Trace::<T>::cmp, (&t1, &t2), order),
    ensures
        order == v1.cmp_spec(&v2),
{
}

/// Printing a wrapper for debugging gives what printing the value that it
/// was made of gives.
pub proof fn lemma_prints_as_value<T: Debug>(v: T, trace: Trace<T>, out: String)
    requires
        call_ensures(Trace::<T>::new, (v,), trace),
        call_ensures(Trace::<T>::debug_string, (&trace,), out),
    ensures
        shows(&v, out),
{
}

} // verus!
