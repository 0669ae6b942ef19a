//! The standard-library pointer operations the handles are built on, for
//! which Verus has no specification of its own.
use std::sync::Arc;
use vstd::prelude::*;

verus! {

/// Relies on `From<Box<T>> for Arc<T>`: the boxed value moves into a new
/// reference-counted allocation, unchanged.
#[verifier::external_body]
pub(crate) fn arc_from_box<T: ?Sized>(b: Box<T>) -> (r: Arc<T>)
    ensures
        &*r == &*b,
{
    Arc::from(b)
}

/// Relies on `Clone for Arc<T>`: the clone points to the same allocation,
/// so it holds the same value.
#[verifier::external_body]
pub(crate) fn arc_clone<T: ?Sized>(a: &Arc<T>) -> (r: Arc<T>)
    ensures
        &*r == &**a,
{
    Arc::clone(a)
}

/// Relies on `From<String> for Arc<str>`: the new allocation holds the
/// string's characters.
#[verifier::external_body]
pub(crate) fn arc_from_string(s: String) -> (r: Arc<str>)
    ensures
        (&*r)@ == s@,
{
    Arc::from(s)
}

/// Relies on `From<String> for Box<str>`: the boxed string holds the
/// string's characters.
#[verifier::external_body]
pub(crate) fn box_from_string(s: String) -> (r: Box<str>)
    ensures
        (&*r)@ == s@,
{
    Box::from(s)
}

/// Relies on `Hash::hash` of the value's own type: feeds the value to
/// `state`, exactly as hashing the bare value would.
#[verifier::external_body]
pub(crate) fn hash_value<T: ?Sized + std::hash::Hash, H: std::hash::Hasher>(v: &T, state: &mut H) {
    v.hash(state)
}

} // verus!
