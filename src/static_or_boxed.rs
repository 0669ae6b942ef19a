//! A value that is either static data or in a box of the handle's own.
use vstd::prelude::*;
use vstd::std_specs::cmp::PartialEqSpec;
use vstd::std_specs::cmp::PartialOrdSpec;

use crate::pointers::box_from_string;
use crate::pointers::hash_value;

verus! {

/// A value that is either static data or owned alone in a box.
///
/// Unlike [`crate::Shared`], the owned branch is never shared: cloning it
/// clones the value into a new box.
pub enum StaticOrBoxed<T: ?Sized + 'static> {
    Static(&'static T),
    Boxed(Box<T>),
}

impl<T: ?Sized> StaticOrBoxed<T> {
    /// The value the handle refers to, whichever branch holds it.
    pub open spec fn value(&self) -> &T {
        match self {
            StaticOrBoxed::Static(s) => *s,
            StaticOrBoxed::Boxed(b) => &**b,
        }
    }

    pub fn is_static(&self) -> (r: bool)
        ensures
            r == (self is Static),
    {
        matches!(self, Self::Static(_))
    }

    pub fn is_boxed(&self) -> (r: bool)
        ensures
            r == (self is Boxed),
    {
        matches!(self, Self::Boxed(_))
    }

    pub fn as_static(&self) -> (r: Option<&'static T>)
        ensures
            match self {
                StaticOrBoxed::Static(s) => r == Some(*s),
                StaticOrBoxed::Boxed(_) => r is None,
            },
    {
        match self {
            Self::Static(stat) => Some(stat),
            _ => None,
        }
    }

    pub fn as_boxed(&self) -> (r: Option<&Box<T>>)
        ensures
            match self {
                StaticOrBoxed::Static(_) => r is None,
                StaticOrBoxed::Boxed(b) => r == Some(b),
            },
    {
        match self {
            Self::Boxed(b) => Some(b),
            _ => None,
        }
    }
}

impl<T: ?Sized + Clone> Clone for StaticOrBoxed<T> {
    /// A static handle is copied as it is; a boxed one gets a new box
    /// holding a clone of its value.
    fn clone(&self) -> (r: Self)
        ensures
            match (*self, r) {
                (StaticOrBoxed::Static(a), StaticOrBoxed::Static(b)) => a == b,
                (StaticOrBoxed::Boxed(a), StaticOrBoxed::Boxed(b)) => cloned::<T>(*a, *b),
                _ => false,
            },
    {
        match self {
            Self::Boxed(boxed) => Self::Boxed(boxed.clone()),
            Self::Static(stat) => Self::Static(stat),
        }
    }
}

impl<T: ?Sized> Default for StaticOrBoxed<T> where Box<T>: Default {
    fn default() -> (r: Self)
        ensures
            match r {
                StaticOrBoxed::Boxed(b) => call_ensures(<Box<T> as Default>::default, (), b),
                StaticOrBoxed::Static(_) => false,
            },
    {
        Self::Boxed(Box::default())
    }
}

impl<T: ?Sized> AsRef<T> for StaticOrBoxed<T> {
    fn as_ref(&self) -> (r: &T)
        ensures
            r == self.value(),
    {
        match self {
            Self::Boxed(b) => b,
            Self::Static(stat) => stat,
        }
    }
}

impl<T: ?Sized> std::ops::Deref for StaticOrBoxed<T> {
    type Target = T;

    fn deref(&self) -> (r: &T)
        ensures
            r == self.value(),
    {
        self.as_ref()
    }
}

impl<T: ?Sized> std::borrow::Borrow<T> for StaticOrBoxed<T> {
    fn borrow(&self) -> &T {
        self.as_ref()
    }
}

impl<T: ?Sized, U> PartialEq<U> for StaticOrBoxed<T> where T: PartialEq<U> {
    fn eq(&self, other: &U) -> (r: bool) {
        self.as_ref().eq(other)
    }
}

impl<T: ?Sized, U> vstd::std_specs::cmp::PartialEqSpecImpl<U> for StaticOrBoxed<T> where T: PartialEq<U> {
    open spec fn obeys_eq_spec() -> bool {
        <T as PartialEqSpec<U>>::obeys_eq_spec()
    }

    open spec fn eq_spec(&self, other: &U) -> bool {
        <T as PartialEqSpec<U>>::eq_spec(self.value(), other)
    }
}

impl<T: ?Sized, U> PartialOrd<U> for StaticOrBoxed<T> where T: PartialOrd<U> {
    fn partial_cmp(&self, other: &U) -> (r: Option<std::cmp::Ordering>) {
        self.as_ref().partial_cmp(other)
    }
}

impl<T: ?Sized, U> vstd::std_specs::cmp::PartialOrdSpecImpl<U> for StaticOrBoxed<T> where T: PartialOrd<U> {
    open spec fn obeys_partial_cmp_spec() -> bool {
        <T as PartialOrdSpec<U>>::obeys_partial_cmp_spec()
    }

    open spec fn partial_cmp_spec(&self, other: &U) -> Option<std::cmp::Ordering> {
        <T as PartialOrdSpec<U>>::partial_cmp_spec(self.value(), other)
    }
}

impl<T: ?Sized + std::hash::Hash> std::hash::Hash for StaticOrBoxed<T> {
    fn hash<H: std::hash::Hasher>(&self, state: &mut H) {
        hash_value(self.as_ref(), state)
    }
}

impl<T: ?Sized> From<&'static T> for StaticOrBoxed<T> {
    fn from(value: &'static T) -> (r: Self) {
        Self::Static(value)
    }
}

impl<T: ?Sized> vstd::std_specs::convert::FromSpecImpl<&'static T> for StaticOrBoxed<T> {
    open spec fn obeys_from_spec() -> bool {
        true
    }

    open spec fn from_spec(v: &'static T) -> Self {
        StaticOrBoxed::Static(v)
    }
}

impl<T: ?Sized> From<Box<T>> for StaticOrBoxed<T> {
    fn from(value: Box<T>) -> (r: Self) {
        Self::Boxed(value)
    }
}

impl<T: ?Sized> vstd::std_specs::convert::FromSpecImpl<Box<T>> for StaticOrBoxed<T> {
    open spec fn obeys_from_spec() -> bool {
        true
    }

    open spec fn from_spec(v: Box<T>) -> Self {
        StaticOrBoxed::Boxed(v)
    }
}

impl From<String> for StaticOrBoxed<str> {
    fn from(value: String) -> (r: Self)
        ensures
            r is Boxed,
            r.value()@ == value@,
    {
        Self::Boxed(box_from_string(value))
    }
}

impl vstd::std_specs::convert::FromSpecImpl<String> for StaticOrBoxed<str> {
    /// Each conversion makes a new box, so no one handle is the result:
    /// `from` states what every result has in common instead.
    open spec fn obeys_from_spec() -> bool {
        false
    }

    open spec fn from_spec(v: String) -> Self {
        choose|r: StaticOrBoxed<str>| r is Boxed && r.value()@ == v@
    }
}

/// Comparing a handle with a value is comparing the handle's value with
/// it: equality and ordering follow the values alone, whatever branch the
/// handle is in.
pub proof fn lemma_static_or_boxed_compares_by_value<T: ?Sized, U>(a: StaticOrBoxed<T>, u: U)
    where
        T: PartialOrd<U>,
    ensures
        <StaticOrBoxed<T> as PartialEqSpec<U>>::obeys_eq_spec()
            == <T as PartialEqSpec<U>>::obeys_eq_spec(),
        a.eq_spec(&u) == <T as PartialEqSpec<U>>::eq_spec(a.value(), &u),
        <StaticOrBoxed<T> as PartialOrdSpec<U>>::obeys_partial_cmp_spec()
            == <T as PartialOrdSpec<U>>::obeys_partial_cmp_spec(),
        a.partial_cmp_spec(&u) == <T as PartialOrdSpec<U>>::partial_cmp_spec(a.value(), &u),
{
}

/// A static handle and a boxed handle of one value stand for each other:
/// each compares with any value exactly as the other does.
pub proof fn lemma_static_or_boxed_branches_agree<T: ?Sized, U>(s: &'static T, b: Box<T>, u: U)
    where
        T: PartialOrd<U>,
    requires
        s == &*b,
    ensures
        StaticOrBoxed::Static(s).eq_spec(&u) == StaticOrBoxed::Boxed(b).eq_spec(&u),
        StaticOrBoxed::Static(s).partial_cmp_spec(&u) == StaticOrBoxed::Boxed(b).partial_cmp_spec(
            &u,
        ),
{
}

} // verus!
