//! The handle type and the wrappers that steer finalization.
//!
//! A [`Gc`] shares its value between all its copies. What the collector does
//! with the memory is not this module's business; the handle here keeps the
//! value alive for as long as a copy of it exists.
use std::ops::{Deref, DerefMut};
use std::sync::Arc;
use vstd::prelude::*;
use vstd::std_specs::cmp::{PartialEqSpec, PartialEqSpecImpl};
use vstd::std_specs::convert::FromSpecImpl;

verus! {

/// Marks a type whose destructor need not run as a finalizer when none of
/// its components needs one. Implementing it is a promise that skipping the
/// destructor is harmless.
pub trait DropMethodFinalizerElidable {

}

/// A wrapper that keeps its value from being finalized behind a handle.
///
/// It helps where [`DropMethodFinalizerElidable`] cannot be implemented for
/// a foreign type. As a field of a type that is finalized, the wrapped value
/// is finalized all the same.
#[derive(Debug)]
pub struct NonFinalizable<T>(pub T);

impl<T> NonFinalizable<T> {
    /// Wraps a value so that a handle around it registers no finalizer.
    pub fn new(value: T) -> (wrapped: NonFinalizable<T>)
        ensures
            wrapped.0 == value,
    {
        NonFinalizable(value)
    }
}

impl<T> Deref for NonFinalizable<T> {
    type Target = T;

    fn deref(&self) -> (value: &T)
        ensures
            *value == self.0,
    {
        &self.0
    }
}

impl<T> DerefMut for NonFinalizable<T> {
    fn deref_mut(&mut self) -> (value: &mut T)
        ensures
            *value == old(self).0,
            final(self).0 == *final(value),
    {
        &mut self.0
    }
}

/// A wrapper that exempts its value from the finalizer safety analysis.
///
/// Whoever wraps a value vouches that its destructor is sound as a
/// finalizer. The exemption holds for this use of the type only.
#[derive(Debug)]
pub struct FinalizeUnchecked<T>(pub T);

impl<T> FinalizeUnchecked<T> {
    pub fn new(value: T) -> (wrapped: FinalizeUnchecked<T>)
        ensures
            wrapped.0 == value,
    {
        FinalizeUnchecked(value)
    }
}

impl<T> Deref for FinalizeUnchecked<T> {
    type Target = T;

    fn deref(&self) -> (value: &T)
        ensures
            *value == self.0,
    {
        &self.0
    }
}

impl<T> DerefMut for FinalizeUnchecked<T> {
    fn deref_mut(&mut self) -> (value: &mut T)
        ensures
            *value == old(self).0,
            final(self).0 == *final(value),
    {
        &mut self.0
    }
}

/// A shared handle to a value on the collected heap.
#[derive(Debug)]
pub struct Gc<T: ?Sized> {
    ptr: Arc<T>,
}

impl<T: ?Sized> Gc<T> {
    /// The value behind the handle.
    pub closed spec fn value(&self) -> &T {
        &*self.ptr
    }

    /// A handle from the shared pointer that [`Gc::into_raw`] gave.
    pub fn from_raw(raw: Arc<T>) -> (gc: Gc<T>)
        ensures
            gc.value() == &*raw,
    {
        Gc { ptr: raw }
    }

    /// Gives up the handle for the shared pointer inside it.
    pub fn into_raw(this: Self) -> (raw: Arc<T>)
        ensures
            &*raw == this.value(),
    {
        this.ptr
    }

    /// A reference to the value behind the handle.
    pub fn as_ptr(this: &Self) -> (value: &T)
        ensures
            value == this.value(),
    {
        &*this.ptr
    }

    /// Whether two handles are copies of one handle.
    ///
    /// What is promised is that handles found to be the same share their
    /// value. When they are found to be the same is a matter of where the
    /// values lie in memory: two handles made from equal values are not the
    /// same, though nothing that a contract can speak of tells them apart.
    pub fn ptr_eq(this: &Self, other: &Self) -> (same: bool)
        ensures
            same ==> this.value() == other.value(),
    {
        arc_ptr_eq(&this.ptr, &other.ptr)
    }
}

impl<T> Gc<T> {
    /// A handle around `value`.
    pub fn new(value: T) -> (gc: Gc<T>)
        ensures
            *gc.value() == value,
    {
        Gc { ptr: Arc::new(value) }
    }

}

impl<T: Default> Default for Gc<T> {
    /// A handle around the default value of `T`.
    fn default() -> (gc: Gc<T>)
        ensures
            T::default.ensures((), *gc.value()),
    {
        Gc::new(T::default())
    }
}

impl<T: ?Sized> Deref for Gc<T> {
    type Target = T;

    fn deref(&self) -> (value: &T)
        ensures
            value == self.value(),
    {
        &*self.ptr
    }
}

impl<T: ?Sized> Clone for Gc<T> {
    /// Another copy of the handle, to the same value.
    fn clone(&self) -> (copy: Gc<T>)
        ensures
            copy.value() == self.value(),
    {
        Gc { ptr: arc_clone(&self.ptr) }
    }
}

impl<T> From<T> for Gc<T> {
    fn from(t: T) -> (gc: Gc<T>)
        ensures
            *gc.value() == t,
    {
        Gc::new(t)
    }
}

// Which handle a conversion gives is not a function of the value alone: two
// conversions of equal values give two handles. So the conversions state what
// holds of their result in their own `ensures`, and obey no `from_spec`.
impl<T> FromSpecImpl<T> for Gc<T> {
    open spec fn obeys_from_spec() -> bool {
        false
    }

    open spec fn from_spec(t: T) -> Self {
        choose|gc: Gc<T>| *gc.value() == t
    }
}

impl<T: ?Sized> From<Box<T>> for Gc<T> {
    /// Moves a boxed value behind a handle.
    fn from(v: Box<T>) -> (gc: Gc<T>)
        ensures
            gc.value() == &*v,
    {
        Gc { ptr: arc_from_box(v) }
    }
}

impl<T: ?Sized> FromSpecImpl<Box<T>> for Gc<T> {
    open spec fn obeys_from_spec() -> bool {
        false
    }

    open spec fn from_spec(v: Box<T>) -> Self {
        choose|gc: Gc<T>| gc.value() == &*v
    }
}

impl<T> From<Vec<T>> for Gc<[T]> {
    /// Moves the items of a vector behind a handle.
    fn from(v: Vec<T>) -> (gc: Gc<[T]>)
        ensures
            gc.value()@ == v@,
    {
        Gc { ptr: arc_from_vec(v) }
    }
}

impl<T> FromSpecImpl<Vec<T>> for Gc<[T]> {
    open spec fn obeys_from_spec() -> bool {
        false
    }

    open spec fn from_spec(v: Vec<T>) -> Self {
        choose|gc: Gc<[T]>| gc.value()@ == v@
    }
}

impl<T, const N: usize> From<[T; N]> for Gc<[T]> {
    /// Moves the items of an array behind a handle.
    fn from(v: [T; N]) -> (gc: Gc<[T]>)
        ensures
            gc.value()@ == v@,
    {
        Gc { ptr: arc_from_array(v) }
    }
}

impl<T, const N: usize> FromSpecImpl<[T; N]> for Gc<[T]> {
    open spec fn obeys_from_spec() -> bool {
        false
    }

    open spec fn from_spec(v: [T; N]) -> Self {
        choose|gc: Gc<[T]>| gc.value()@ == v@
    }
}

impl<T: ?Sized + PartialEq + PartialEqSpec> PartialEq for Gc<T> {
    /// Two handles are equal where their values are, copies of one handle
    /// or not.
    fn eq(&self, other: &Gc<T>) -> (r: bool)
    {
        *self.ptr == *other.ptr
    }
}

impl<T: ?Sized + PartialEq + PartialEqSpec> PartialEqSpecImpl for Gc<T> {
    open spec fn obeys_eq_spec() -> bool {
        T::obeys_eq_spec()
    }

    open spec fn eq_spec(&self, other: &Gc<T>) -> bool {
        T::eq_spec(self.value(), other.value())
    }
}

impl<'a> From<&'a str> for Gc<str> {
    /// Copies a string slice behind a handle.
    fn from(v: &'a str) -> (gc: Gc<str>)
        ensures
            gc.value()@ == v@,
    {
        Gc { ptr: arc_from_str(v) }
    }
}

impl<'a> FromSpecImpl<&'a str> for Gc<str> {
    open spec fn obeys_from_spec() -> bool {
        false
    }

    open spec fn from_spec(v: &'a str) -> Self {
        choose|gc: Gc<str>| gc.value()@ == v@
    }
}

impl From<String> for Gc<str> {
    /// Copies a string behind a handle.
    fn from(v: String) -> (gc: Gc<str>)
        ensures
            gc.value()@ == v@,
    {
        Gc { ptr: arc_from_str(v.as_str()) }
    }
}

impl FromSpecImpl<String> for Gc<str> {
    open spec fn obeys_from_spec() -> bool {
        false
    }

    open spec fn from_spec(v: String) -> Self {
        choose|gc: Gc<str>| gc.value()@ == v@
    }
}

/// `Arc::ptr_eq`. Two pointers to one allocation point to one value; of
/// pointers to two allocations nothing is said.
#[verifier::external_body]
fn arc_ptr_eq<T: ?Sized>(a: &Arc<T>, b: &Arc<T>) -> (same: bool)
    ensures
        same ==> &**a == &**b,
{
    Arc::ptr_eq(a, b)
}

/// `Arc::clone`. The new pointer shares the allocation, and so the value.
#[verifier::external_body]
fn arc_clone<T: ?Sized>(a: &Arc<T>) -> (copy: Arc<T>)
    ensures
        &*copy == &**a,
{
    Arc::clone(a)
}

/// `Arc::from` for a box. The value moves to a shared allocation unchanged.
#[verifier::external_body]
fn arc_from_box<T: ?Sized>(b: Box<T>) -> (a: Arc<T>)
    ensures
        &*a == &*b,
{
    Arc::from(b)
}

/// `Arc::from` for a vector. The items move to a shared slice, in order.
#[verifier::external_body]
fn arc_from_vec<T>(v: Vec<T>) -> (a: Arc<[T]>)
    ensures
        (*a)@ == v@,
{
    Arc::from(v)
}

/// `Arc::from` for an array. The items move to a shared slice, in order.
#[verifier::external_body]
fn arc_from_array<T, const N: usize>(v: [T; N]) -> (a: Arc<[T]>)
    ensures
        (*a)@ == v@,
{
    Arc::from(v)
}

/// `Arc::from` for a string slice. The characters are copied to a shared
/// string slice.
#[verifier::external_body]
fn arc_from_str(s: &str) -> (a: Arc<str>)
    ensures
        (*a)@ == s@,
{
    Arc::from(s)
}

} // verus!
