//! Handles that refer to a value without fixing, in their type, who owns it.
//!
//! [`Shared`] holds either a reference that lives as long as the process or
//! a reference-counted allocation; [`arc_or_ref::ArcOrRef`] holds either a
//! borrowed reference-counted allocation or an owned one;
//! [`static_or_boxed::StaticOrBoxed`] holds either a process-long reference
//! or a box of its own. Each compares, orders and hashes as the value it
//! refers to, whichever branch it is in.
use std::sync::Arc;
use vstd::prelude::*;
use vstd::std_specs::cmp::PartialEqSpec;
use vstd::std_specs::cmp::PartialOrdSpec;
use vstd::std_specs::convert::FromSpec;

pub mod arc_or_ref;
mod pointers;
pub mod static_or_boxed;

use pointers::arc_clone;
use pointers::arc_from_box;
use pointers::arc_from_string;
use pointers::hash_value;

verus! {

/// A value that is either static data or held in a shared allocation.
pub enum Shared<T: ?Sized + 'static> {
    Static(&'static T),
    Shared(Arc<T>),
}

impl<T: ?Sized> Shared<T> {
    /// The value the handle refers to, whichever branch holds it.
    pub open spec fn value(&self) -> &T {
        match self {
            Shared::Static(s) => *s,
            Shared::Shared(a) => &**a,
        }
    }

    /// `after` and `r` are what promoting `self` gives: a shared handle
    /// whose allocation is `r`. A shared handle stays as it was; a static
    /// one gets a new allocation holding its reference converted by
    /// `Box::from`.
    pub open spec fn promotes_to(self, after: Self, r: &Arc<T>) -> bool
        where
            Box<T>: From<&'static T>,
    {
        match after {
            Shared::Static(_) => false,
            Shared::Shared(a) => {
                &&& *r == a
                &&& match self {
                    Shared::Shared(_) => after == self,
                    Shared::Static(s) => <Box<T> as FromSpec<&'static T>>::obeys_from_spec()
                        ==> &*a == &*<Box<T> as FromSpec<&'static T>>::from_spec(s),
                }
            },
        }
    }

    pub fn is_static(&self) -> (r: bool)
        ensures
            r == (self is Static),
    {
        matches!(self, Self::Static(_))
    }

    pub fn is_shared(&self) -> (r: bool)
        ensures
            r == (self is Shared),
    {
        matches!(self, Self::Shared(_))
    }

    /// The same predicate as `is_shared`, under its older spelling.
    pub fn is_stared(&self) -> (r: bool)
        ensures
            r == (self is Shared),
    {
        self.is_shared()
    }

    pub fn as_static(&self) -> (r: Option<&'static T>)
        ensures
            match self {
                Shared::Static(s) => r == Some(*s),
                Shared::Shared(_) => r is None,
            },
    {
        match self {
            Self::Static(stat) => Some(stat),
            _ => None,
        }
    }

    pub fn as_shared(&self) -> (r: Option<&Arc<T>>)
        ensures
            match self {
                Shared::Static(_) => r is None,
                Shared::Shared(a) => r == Some(a),
            },
    {
        match self {
            Self::Shared(shared) => Some(shared),
            _ => None,
        }
    }

    /// Makes the handle shared and returns its allocation: a static handle
    /// is copied into a new allocation once, a shared one is left alone.
    pub fn to_shared(&mut self) -> (r: &Arc<T>)
        where
            Box<T>: From<&'static T>,
        ensures
            old(self).promotes_to(*final(self), r),
    {
        if let Self::Static(stat) = self {
            let shared = arc_from_box(Box::from(*stat));
            *self = Self::Shared(shared);
        }
        self.as_shared().unwrap()
    }
}

impl<T: ?Sized> Clone for Shared<T> {
    fn clone(&self) -> (r: Self)
        ensures
            r == *self,
    {
        match self {
            Self::Shared(shared) => Self::Shared(arc_clone(shared)),
            Self::Static(stat) => Self::Static(stat),
        }
    }
}

impl<T: ?Sized> Default for Shared<T> where Arc<T>: Default {
    fn default() -> (r: Self)
        ensures
            match r {
                Shared::Shared(a) => call_ensures(<Arc<T> as Default>::default, (), a),
                Shared::Static(_) => false,
            },
    {
        Self::Shared(Arc::default())
    }
}

impl<T: ?Sized> AsRef<T> for Shared<T> {
    fn as_ref(&self) -> (r: &T)
        ensures
            r == self.value(),
    {
        match self {
            Self::Shared(shared) => shared,
            Self::Static(stat) => stat,
        }
    }
}

impl<T: ?Sized> std::ops::Deref for Shared<T> {
    type Target = T;

    fn deref(&self) -> (r: &T)
        ensures
            r == self.value(),
    {
        self.as_ref()
    }
}

impl<T: ?Sized> std::borrow::Borrow<T> for Shared<T> {
    fn borrow(&self) -> &T {
        self.as_ref()
    }
}

impl<T: ?Sized + PartialEq> PartialEq<T> for Shared<T> {
    fn eq(&self, other: &T) -> (r: bool) {
        self.as_ref().eq(other)
    }
}

impl<T: ?Sized + PartialEq> vstd::std_specs::cmp::PartialEqSpecImpl<T> for Shared<T> {
    open spec fn obeys_eq_spec() -> bool {
        <T as PartialEqSpec>::obeys_eq_spec()
    }

    open spec fn eq_spec(&self, other: &T) -> bool {
        <T as PartialEqSpec>::eq_spec(self.value(), other)
    }
}

impl<T: ?Sized + PartialEq> PartialEq for Shared<T> {
    fn eq(&self, other: &Self) -> (r: bool) {
        self.as_ref().eq(other.as_ref())
    }
}

impl<T: ?Sized + PartialEq> vstd::std_specs::cmp::PartialEqSpecImpl for Shared<T> {
    open spec fn obeys_eq_spec() -> bool {
        <T as PartialEqSpec>::obeys_eq_spec()
    }

    open spec fn eq_spec(&self, other: &Self) -> bool {
        <T as PartialEqSpec>::eq_spec(self.value(), other.value())
    }
}

impl<T: ?Sized + Eq> Eq for Shared<T> {

}

impl<T: ?Sized + PartialOrd> PartialOrd<T> for Shared<T> {
    fn partial_cmp(&self, other: &T) -> (r: Option<std::cmp::Ordering>) {
        self.as_ref().partial_cmp(other)
    }
}

impl<T: ?Sized + PartialOrd> vstd::std_specs::cmp::PartialOrdSpecImpl<T> for Shared<T> {
    open spec fn obeys_partial_cmp_spec() -> bool {
        <T as PartialOrdSpec>::obeys_partial_cmp_spec()
    }

    open spec fn partial_cmp_spec(&self, other: &T) -> Option<std::cmp::Ordering> {
        <T as PartialOrdSpec>::partial_cmp_spec(self.value(), other)
    }
}

impl<T: ?Sized + PartialOrd> PartialOrd for Shared<T> {
    fn partial_cmp(&self, other: &Self) -> (r: Option<std::cmp::Ordering>) {
        self.as_ref().partial_cmp(other.as_ref())
    }
}

impl<T: ?Sized + PartialOrd> vstd::std_specs::cmp::PartialOrdSpecImpl for Shared<T> {
    open spec fn obeys_partial_cmp_spec() -> bool {
        <T as PartialOrdSpec>::obeys_partial_cmp_spec()
    }

    open spec fn partial_cmp_spec(&self, other: &Self) -> Option<std::cmp::Ordering> {
        <T as PartialOrdSpec>::partial_cmp_spec(self.value(), other.value())
    }
}

impl<T: ?Sized + Ord> Ord for Shared<T> {
    /// Relies on `Ord::cmp` of the value's own type, applied to the two
    /// values.
    #[verifier::external_body]
    fn cmp(&self, other: &Self) -> (r: std::cmp::Ordering) {
        self.as_ref().cmp(other.as_ref())
    }
}

impl<T: ?Sized + std::hash::Hash> std::hash::Hash for Shared<T> {
    fn hash<H: std::hash::Hasher>(&self, state: &mut H) {
        hash_value(self.as_ref(), state)
    }
}

impl<T: ?Sized> From<&'static T> for Shared<T> {
    fn from(value: &'static T) -> (r: Self) {
        Self::Static(value)
    }
}

impl<T: ?Sized> vstd::std_specs::convert::FromSpecImpl<&'static T> for Shared<T> {
    open spec fn obeys_from_spec() -> bool {
        true
    }

    open spec fn from_spec(v: &'static T) -> Self {
        Shared::Static(v)
    }
}

impl<T: ?Sized> From<Arc<T>> for Shared<T> {
    fn from(value: Arc<T>) -> (r: Self) {
        Self::Shared(value)
    }
}

impl<T: ?Sized> vstd::std_specs::convert::FromSpecImpl<Arc<T>> for Shared<T> {
    open spec fn obeys_from_spec() -> bool {
        true
    }

    open spec fn from_spec(v: Arc<T>) -> Self {
        Shared::Shared(v)
    }
}

impl From<String> for Shared<str> {
    fn from(value: String) -> (r: Self)
        ensures
            r is Shared,
            r.value()@ == value@,
    {
        Self::Shared(arc_from_string(value))
    }
}

impl vstd::std_specs::convert::FromSpecImpl<String> for Shared<str> {
    /// Each conversion makes a new allocation, so no one handle is the
    /// result: `from` states what every result has in common instead.
    open spec fn obeys_from_spec() -> bool {
        false
    }

    open spec fn from_spec(v: String) -> Self {
        choose|r: Shared<str>| r is Shared && r.value()@ == v@
    }
}

/// Comparing two handles is comparing their values: equality and ordering
/// follow the values alone, whatever branch either handle is in.
pub proof fn lemma_shared_compares_by_value<T: ?Sized + PartialOrd>(a: Shared<T>, b: Shared<T>)
    ensures
        <Shared<T> as PartialEqSpec>::obeys_eq_spec() == <T as PartialEqSpec>::obeys_eq_spec(),
        a.eq_spec(&b) == <T as PartialEqSpec>::eq_spec(a.value(), b.value()),
        <Shared<T> as PartialOrdSpec>::obeys_partial_cmp_spec()
            == <T as PartialOrdSpec>::obeys_partial_cmp_spec(),
        a.partial_cmp_spec(&b) == <T as PartialOrdSpec>::partial_cmp_spec(a.value(), b.value()),
{
}

/// A static handle and a shared handle of one value stand for each other:
/// they are equal exactly when the value equals itself, and each compares
/// with any third handle as the other does.
pub proof fn lemma_shared_branches_agree<T: ?Sized + PartialOrd>(
    s: &'static T,
    a: Arc<T>,
    c: Shared<T>,
)
    requires
        s == &*a,
    ensures
        Shared::Static(s).eq_spec(&Shared::Shared(a)) == <T as PartialEqSpec>::eq_spec(s, s),
        Shared::Shared(a).eq_spec(&Shared::Static(s)) == <T as PartialEqSpec>::eq_spec(s, s),
        Shared::Static(s).eq_spec(&c) == Shared::Shared(a).eq_spec(&c),
        Shared::Static(s).partial_cmp_spec(&c) == Shared::Shared(a).partial_cmp_spec(&c),
        c.partial_cmp_spec(&Shared::Static(s)) == c.partial_cmp_spec(&Shared::Shared(a)),
{
}

/// Promoting a handle twice: the first promotion leaves a shared handle,
/// and the second keeps it as it is and returns the same allocation.
pub proof fn lemma_promote_twice<T: ?Sized>(
    h0: Shared<T>,
    h1: Shared<T>,
    r1: &Arc<T>,
    h2: Shared<T>,
    r2: &Arc<T>,
)
    where
        Box<T>: From<&'static T>,
    requires
        h0.promotes_to(h1, r1),
        h1.promotes_to(h2, r2),
    ensures
        h1 is Shared,
        h2 == h1,
        *r2 == *r1,
        h0 is Shared ==> h1 == h0,
{
}

} // verus!
