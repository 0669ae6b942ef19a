//! A shared allocation that is either borrowed from a holder elsewhere or
//! owned by the handle.
use std::sync::Arc;
use vstd::prelude::*;
use vstd::std_specs::cmp::PartialEqSpec;
use vstd::std_specs::cmp::PartialOrdSpec;

use crate::pointers::arc_clone;
use crate::pointers::arc_from_box;
use crate::pointers::hash_value;

verus! {

/// A reference-counted allocation, borrowed for `'a` or owned.
///
/// Borrowing costs no change of the count; only turning a borrowed handle
/// into an owned one adds one holder.
pub enum ArcOrRef<'a, T: ?Sized> {
    Ref(&'a Arc<T>),
    Arc(Arc<T>),
}

impl<'a, T: ?Sized> ArcOrRef<'a, T> {
    /// The allocation the handle refers to, borrowed or owned.
    pub open spec fn arc(&self) -> &Arc<T> {
        match self {
            ArcOrRef::Ref(r) => *r,
            ArcOrRef::Arc(a) => a,
        }
    }

    /// The value held in that allocation.
    pub open spec fn value(&self) -> &T {
        &**self.arc()
    }

    /// An owned handle to the allocation: an owned one is moved out, a
    /// borrowed one is cloned.
    pub fn into_arc(self) -> (r: Arc<T>)
        ensures
            r == *self.arc(),
    {
        match self {
            Self::Arc(arc) => arc,
            Self::Ref(refer) => arc_clone(refer),
        }
    }

    pub fn as_arc_ref(&self) -> (r: &Arc<T>)
        ensures
            r == self.arc(),
    {
        match self {
            Self::Arc(arc) => arc,
            Self::Ref(refer) => *refer,
        }
    }

    /// The same allocation, owned, so that the handle no longer depends on
    /// the borrow.
    pub fn into_owned(self) -> (r: ArcOrRef<'static, T>)
        ensures
            r is Arc,
            r.arc() == self.arc(),
    {
        ArcOrRef::Arc(self.into_arc())
    }
}

impl<T: ?Sized> Clone for ArcOrRef<'_, T> {
    fn clone(&self) -> (r: Self)
        ensures
            r == *self,
    {
        match self {
            Self::Arc(arc) => ArcOrRef::Arc(arc_clone(arc)),
            Self::Ref(refer) => ArcOrRef::Ref(refer),
        }
    }
}

impl<T: ?Sized> AsRef<T> for ArcOrRef<'_, T> {
    fn as_ref(&self) -> (r: &T)
        ensures
            r == self.value(),
    {
        match self {
            Self::Arc(arc) => arc,
            Self::Ref(refer) => refer,
        }
    }
}

impl<T: ?Sized> std::ops::Deref for ArcOrRef<'_, T> {
    type Target = T;

    fn deref(&self) -> (r: &T)
        ensures
            r == self.value(),
    {
        self.as_ref()
    }
}

impl<T: ?Sized> std::borrow::Borrow<T> for ArcOrRef<'_, T> {
    fn borrow(&self) -> &T {
        self.as_ref()
    }
}

impl<'a, 'b, T1: ?Sized, T2: ?Sized> PartialEq<ArcOrRef<'b, T2>> for ArcOrRef<'a, T1> where T1: PartialEq<T2> {
    fn eq(&self, other: &ArcOrRef<'b, T2>) -> (r: bool) {
        self.as_ref().eq(other.as_ref())
    }
}

impl<'a, 'b, T1: ?Sized, T2: ?Sized> vstd::std_specs::cmp::PartialEqSpecImpl<ArcOrRef<'b, T2>> for ArcOrRef<'a, T1> where T1: PartialEq<T2> {
    open spec fn obeys_eq_spec() -> bool {
        <T1 as PartialEqSpec<T2>>::obeys_eq_spec()
    }

    open spec fn eq_spec(&self, other: &ArcOrRef<'b, T2>) -> bool {
        <T1 as PartialEqSpec<T2>>::eq_spec(self.value(), other.value())
    }
}

impl<T: ?Sized + Eq> Eq for ArcOrRef<'_, T> {

}

impl<'a, 'b, T1: ?Sized, T2: ?Sized> PartialOrd<ArcOrRef<'b, T2>> for ArcOrRef<'a, T1> where T1: PartialOrd<T2> {
    fn partial_cmp(&self, other: &ArcOrRef<'b, T2>) -> (r: Option<std::cmp::Ordering>) {
        self.as_ref().partial_cmp(other.as_ref())
    }
}

impl<'a, 'b, T1: ?Sized, T2: ?Sized> vstd::std_specs::cmp::PartialOrdSpecImpl<ArcOrRef<'b, T2>> for ArcOrRef<'a, T1> where T1: PartialOrd<T2> {
    open spec fn obeys_partial_cmp_spec() -> bool {
        <T1 as PartialOrdSpec<T2>>::obeys_partial_cmp_spec()
    }

    open spec fn partial_cmp_spec(&self, other: &ArcOrRef<'b, T2>) -> Option<std::cmp::Ordering> {
        <T1 as PartialOrdSpec<T2>>::partial_cmp_spec(self.value(), other.value())
    }
}

impl<T: ?Sized + Ord> Ord for ArcOrRef<'_, T> {
    /// Relies on `Ord::cmp` of the value's own type, applied to the two
    /// values.
    #[verifier::external_body]
    fn cmp(&self, other: &Self) -> (r: std::cmp::Ordering) {
        self.as_ref().cmp(other.as_ref())
    }
}

impl<T: ?Sized + std::hash::Hash> std::hash::Hash for ArcOrRef<'_, T> {
    fn hash<H: std::hash::Hasher>(&self, state: &mut H) {
        hash_value(self.as_ref(), state)
    }
}

impl<'a, T: ?Sized> From<&'a Arc<T>> for ArcOrRef<'a, T> {
    fn from(value: &'a Arc<T>) -> (r: Self) {
        Self::Ref(value)
    }
}

impl<'a, T: ?Sized> vstd::std_specs::convert::FromSpecImpl<&'a Arc<T>> for ArcOrRef<'a, T> {
    open spec fn obeys_from_spec() -> bool {
        true
    }

    open spec fn from_spec(v: &'a Arc<T>) -> Self {
        ArcOrRef::Ref(v)
    }
}

impl<T: ?Sized> From<Arc<T>> for ArcOrRef<'static, T> {
    fn from(value: Arc<T>) -> (r: Self) {
        Self::Arc(value)
    }
}

impl<T: ?Sized> vstd::std_specs::convert::FromSpecImpl<Arc<T>> for ArcOrRef<'static, T> {
    open spec fn obeys_from_spec() -> bool {
        true
    }

    open spec fn from_spec(v: Arc<T>) -> Self {
        ArcOrRef::Arc(v)
    }
}

impl<T: ?Sized> From<Box<T>> for ArcOrRef<'static, T> {
    fn from(value: Box<T>) -> (r: Self)
        ensures
            r is Arc,
            r.value() == &*value,
    {
        Self::Arc(arc_from_box(value))
    }
}

impl<T: ?Sized> vstd::std_specs::convert::FromSpecImpl<Box<T>> for ArcOrRef<'static, T> {
    /// Each conversion makes a new allocation, so no one handle is the
    /// result: `from` states what every result has in common instead.
    open spec fn obeys_from_spec() -> bool {
        false
    }

    open spec fn from_spec(v: Box<T>) -> Self {
        choose|r: ArcOrRef<'static, T>| r is Arc && r.value() == &*v
    }
}

impl<T> From<T> for ArcOrRef<'static, T> {
    fn from(value: T) -> (r: Self)
        ensures
            r is Arc,
            *r.value() == value,
    {
        Self::Arc(Arc::new(value))
    }
}

impl<T> vstd::std_specs::convert::FromSpecImpl<T> for ArcOrRef<'static, T> {
    /// Each conversion makes a new allocation, so no one handle is the
    /// result: `from` states what every result has in common instead.
    open spec fn obeys_from_spec() -> bool {
        false
    }

    open spec fn from_spec(v: T) -> Self {
        choose|r: ArcOrRef<'static, T>| r is Arc && *r.value() == v
    }
}

/// Comparing two handles is comparing their values, across value types
/// that compare with each other: equality and ordering follow the values
/// alone, whether each handle borrows or owns.
pub proof fn lemma_arc_or_ref_compares_by_value<'a, 'b, T1: ?Sized, T2: ?Sized>(
    a: ArcOrRef<'a, T1>,
    b: ArcOrRef<'b, T2>,
)
    where
        T1: PartialOrd<T2>,
    ensures
        <ArcOrRef<'a, T1> as PartialEqSpec<ArcOrRef<'b, T2>>>::obeys_eq_spec()
            == <T1 as PartialEqSpec<T2>>::obeys_eq_spec(),
        a.eq_spec(&b) == <T1 as PartialEqSpec<T2>>::eq_spec(a.value(), b.value()),
        <ArcOrRef<'a, T1> as PartialOrdSpec<ArcOrRef<'b, T2>>>::obeys_partial_cmp_spec()
            == <T1 as PartialOrdSpec<T2>>::obeys_partial_cmp_spec(),
        a.partial_cmp_spec(&b) == <T1 as PartialOrdSpec<T2>>::partial_cmp_spec(
            a.value(),
            b.value(),
        ),
{
}

/// A borrowed handle and an owned handle of one allocation stand for each
/// other: they are equal exactly when the value equals itself, and each
/// compares with any third handle as the other does.
pub proof fn lemma_arc_or_ref_branches_agree<'a, 'c, T: ?Sized + PartialOrd>(
    r: &'a Arc<T>,
    c: ArcOrRef<'c, T>,
)
    ensures
        ArcOrRef::Ref(r).eq_spec(&ArcOrRef::<'a, T>::Arc(*r)) == <T as PartialEqSpec>::eq_spec(
            &**r,
            &**r,
        ),
        ArcOrRef::Ref(r).eq_spec(&c) == ArcOrRef::<'a, T>::Arc(*r).eq_spec(&c),
        ArcOrRef::Ref(r).partial_cmp_spec(&c) == ArcOrRef::<'a, T>::Arc(*r).partial_cmp_spec(&c),
        c.partial_cmp_spec(&ArcOrRef::Ref(r)) == c.partial_cmp_spec(&ArcOrRef::<'a, T>::Arc(*r)),
{
}

} // verus!
