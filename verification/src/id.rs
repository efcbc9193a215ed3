//! Identifiers that carry the kind of thing they identify in their type.

use std::cmp::Ordering;
use std::marker::PhantomData;
use std::ops::{Deref, DerefMut};
use vstd::prelude::*;
use vstd::std_specs::cmp::{PartialEqSpecImpl, PartialOrdSpecImpl};
use vstd::std_specs::convert::FromSpecImpl;

verus! {

/// An integer identifier tagged with `T`, the kind of thing it identifies.
/// Identifiers of different kinds are different types and cannot be mixed up.
#[derive(Debug)]
pub struct ID<T> {
    id: i64,
    marker: PhantomData<T>,
}

impl<T> View for ID<T> {
    type V = i64;

    /// The integer behind the identifier.
    closed spec fn view(&self) -> i64 {
        self.id
    }
}

impl<T> PartialEq for ID<T> {
    fn eq(&self, other: &Self) -> (r: bool) {
        self.id == other.id
    }
}

impl<T> PartialEqSpecImpl for ID<T> {
    open spec fn obeys_eq_spec() -> bool {
        true
    }

    /// Identifiers are equal when their integers are.
    open spec fn eq_spec(&self, other: &Self) -> bool {
        self@ == other@
    }
}

impl<T> Eq for ID<T> {

}

impl<T> Clone for ID<T> {
    fn clone(&self) -> (r: Self)
        ensures
            r == *self,
    {
        Self { id: self.id, marker: PhantomData }
    }
}

impl<T> Copy for ID<T> {

}

impl<T> ID<T> {
    /// The identifier with the given integer.
    pub closed spec fn spec_new(id: i64) -> Self {
        ID { id, marker: PhantomData }
    }

    /// The identifier with the given integer.
    pub fn new(id: i64) -> (r: Self)
        ensures
            r == Self::spec_new(id),
            r@ == id,
    {
        Self { id, marker: PhantomData }
    }

    /// The integer behind the identifier, as it is stored.
    pub fn value(&self) -> (v: i64)
        ensures
            v == self@,
    {
        self.id
    }

    /// An identifier is its integer: two with the same integer are the same.
    pub proof fn lemma_identified_by_value(a: Self, b: Self)
        ensures
            a == b <==> a@ == b@,
            a == Self::spec_new(a@),
    {
    }
}

impl<T> Default for ID<T> {
    fn default() -> (r: Self)
        ensures
            r@ == 0,
    {
        Self { id: 0, marker: PhantomData }
    }
}

impl<T> Deref for ID<T> {
    type Target = i64;

    fn deref(&self) -> (r: &i64)
        ensures
            *r == self@,
    {
        &self.id
    }
}

impl<T> DerefMut for ID<T> {
    fn deref_mut(&mut self) -> (r: &mut i64)
        ensures
            *r == old(self)@,
            final(self)@ == *final(r),
    {
        &mut self.id
    }
}

impl<T> From<i64> for ID<T> {
    fn from(id: i64) -> (r: Self) {
        Self { id, marker: PhantomData }
    }
}

impl<T> FromSpecImpl<i64> for ID<T> {
    open spec fn obeys_from_spec() -> bool {
        true
    }

    open spec fn from_spec(id: i64) -> Self {
        Self::spec_new(id)
    }
}

impl<T> From<ID<T>> for i64 {
    fn from(id: ID<T>) -> (r: i64) {
        id.id
    }
}

impl<T> FromSpecImpl<ID<T>> for i64 {
    open spec fn obeys_from_spec() -> bool {
        true
    }

    open spec fn from_spec(id: ID<T>) -> i64 {
        id@
    }
}

impl<T> PartialOrd for ID<T> {
    fn partial_cmp(&self, other: &Self) -> (r: Option<Ordering>) {
        if self.id < other.id {
            Some(Ordering::Less)
        } else if self.id == other.id {
            Some(Ordering::Equal)
        } else {
            Some(Ordering::Greater)
        }
    }
}

impl<T> PartialOrdSpecImpl for ID<T> {
    open spec fn obeys_partial_cmp_spec() -> bool {
        true
    }

    /// Identifiers are ordered as their integers are.
    open spec fn partial_cmp_spec(&self, other: &Self) -> Option<Ordering> {
        if self@ < other@ {
            Some(Ordering::Less)
        } else if self@ == other@ {
            Some(Ordering::Equal)
        } else {
            Some(Ordering::Greater)
        }
    }
}

} // verus!
