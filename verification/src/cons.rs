//! The cons-list: the empty list `Nil`, the node `Cons`, and access to the
//! elements of a list by their labels.
use vstd::prelude::*;
use std::marker::PhantomData;
use std::ops::Index;
use std::ops::IndexMut;
use crate::iter::{ConsIterator, ValuesIterator};
use crate::label::{label_uid, Label, LabelSeq, LabeledValue, Value};
use crate::lookup::{LookupElemByLabel, LookupElemByLabelMut};
use crate::relation::{Bool, Member};

verus! {

/// The end of a heterogeneous list.
#[derive(Debug, Clone, Hash, PartialEq, Eq)]
pub struct Nil;

/// Main building block of a heterogeneous list.
#[derive(Debug, Clone, Hash, PartialEq, Eq)]
pub struct Cons<H, T> {
    /// Value of this element of the list.
    pub head: H,
    /// Remaining elements of the list.
    pub tail: T,
}

/// A cons-list containing a set of labeled values.
pub type LVCons<L, Tail> = Cons<LabeledValue<L>, Tail>;

/// A cons-list containing only labels.
pub type LCons<L, Tail> = Cons<PhantomData<L>, Tail>;

/// Creates a new cons-list node from a head and a tail.
pub fn cons<H, T>(head: H, tail: T) -> (list: Cons<H, T>)
    ensures
        list.head == head,
        list.tail == tail,
{
    Cons { head, tail }
}

impl Default for Nil {
    /// The empty list.
    fn default() -> (list: Nil)
        ensures
            list == Nil,
    {
        Nil
    }
}

impl<Lbl, Tail> Default for LCons<Lbl, Tail> where Tail: Default {
    /// The list of labels whose first label is `Lbl` and whose other labels are
    /// those of the default of `Tail`.
    fn default() -> (list: LCons<Lbl, Tail>)
        ensures
            list.head == PhantomData::<Lbl>,
    {
        Cons { head: PhantomData, tail: Tail::default() }
    }
}

impl<L, H, T> Index<L> for Cons<H, T> where
    L: Label,
    Cons<H, T>: LookupElemByLabel<L>,
    <Cons<H, T> as LookupElemByLabel<L>>::Elem: 'static + Value,
 {
    type Output = <<Cons<H, T> as LookupElemByLabel<L>>::Elem as Value>::Output;

    /// The value labeled by the label `L`, as [`Cons::value`] gives it.
    fn index(&self, _index: L) -> (v: &Self::Output)
        ensures
            *v == LookupElemByLabel::<L>::elem_spec(self).value_spec(),
    {
        LookupElemByLabel::<L>::elem(self).value_ref()
    }
}

impl<L, H, T> vstd::std_specs::core::IndexSpecImpl<L> for Cons<H, T> where
    L: Label,
    Cons<H, T>: LookupElemByLabel<L>,
    <Cons<H, T> as LookupElemByLabel<L>>::Elem: 'static + Value,
 {
    /// A list that holds the label can be indexed by it.
    open spec fn index_req(&self, index: &L) -> bool {
        true
    }
}

impl<L, H, T> IndexMut<L> for Cons<H, T> where
    L: Label,
    Cons<H, T>: LookupElemByLabelMut<L>,
    <Cons<H, T> as LookupElemByLabel<L>>::Elem: 'static + Value,
 {
    /// The value labeled by the label `L`, as [`Cons::value_mut`] gives it.
    fn index_mut(&mut self, _index: L) -> (v: &mut Self::Output)
        ensures
            *v == LookupElemByLabel::<L>::elem_spec(old(self)).value_spec(),
            *final(self) == LookupElemByLabelMut::<L>::with_elem_spec(
                *old(self),
                LookupElemByLabel::<L>::elem_spec(old(self)).with_value_spec(*final(v)),
            ),
    {
        LookupElemByLabelMut::<L>::elem_mut(self).value_mut()
    }
}

impl<Head, Tail> Cons<Head, Tail> {
    /// Returns an iterator over this cons-list.
    pub fn iter<'a>(&'a self) -> (iter: ConsIterator<'a, Self>)
        ensures
            iter.list == self,
            iter.adapter == Nil,
    {
        ConsIterator::new(self)
    }

    /// Returns an iterator over this labeled cons-list which iterates over the
    /// list's values, without their labels.
    pub fn iter_values<'a>(&'a self) -> (iter: ValuesIterator<'a, Self>)
        ensures
            iter.list == self,
            iter.adapter == Nil,
    {
        ValuesIterator::new(self)
    }

    /// Returns `true` if target label exists in this list.
    ///
    /// Convenience function for calling [`Cons::has_label_typearg`] without
    /// needing to specify the type argument.
    pub fn has_label<TargetL>(&self, _target_label: TargetL) -> (found: bool) where
        TargetL: Label,
        Self: Member<TargetL>,

        ensures
            found == Self::label_uids().contains(label_uid::<TargetL>()),
    {
        self.has_label_typearg::<TargetL>()
    }

    /// Returns `true` if target label exists in this list.
    pub fn has_label_typearg<TargetL>(&self) -> (found: bool) where
        TargetL: Label,
        Self: Member<TargetL>,

        ensures
            found == Self::label_uids().contains(label_uid::<TargetL>()),
    {
        proof {
            <Self as Member<TargetL>>::lemma_member();
        }
        <Self as Member<TargetL>>::Output::VALUE
    }

    /// Returns a reference to the element labeled by a specific label: the
    /// first element of the list that carries it.
    pub fn elem<TargetL>(&self) -> (e: &<Self as LookupElemByLabel<TargetL>>::Elem) where
        TargetL: Label,
        Self: LookupElemByLabel<TargetL>,

        ensures
            *e == LookupElemByLabel::<TargetL>::elem_spec(self),
    {
        LookupElemByLabel::<TargetL>::elem(self)
    }

    /// Returns a mutable reference to the element labeled by a specific label.
    ///
    /// Note that the label itself cannot be changed via this method since labels
    /// are type-level.
    pub fn elem_mut<TargetL>(&mut self) -> (e: &mut <Self as LookupElemByLabel<TargetL>>::Elem) where
        TargetL: Label,
        Self: LookupElemByLabelMut<TargetL>,

        ensures
            *e == LookupElemByLabel::<TargetL>::elem_spec(old(self)),
            *final(self) == LookupElemByLabelMut::<TargetL>::with_elem_spec(*old(self), *final(e)),
    {
        LookupElemByLabelMut::<TargetL>::elem_mut(self)
    }

    /// Returns a reference to the value (the value part of a labeled value)
    /// labeled by a specific label.
    pub fn value<'a, TargetL>(&'a self) -> (v: &'a <<Self as LookupElemByLabel<
        TargetL,
    >>::Elem as Value>::Output) where
        TargetL: Label,
        Self: LookupElemByLabel<TargetL>,
        <Self as LookupElemByLabel<TargetL>>::Elem: 'a + Value,

        ensures
            *v == LookupElemByLabel::<TargetL>::elem_spec(self).value_spec(),
    {
        LookupElemByLabel::<TargetL>::elem(self).value_ref()
    }

    /// Returns a mutable reference to the value (the value part of a labeled
    /// value) labeled by a specific label.
    pub fn value_mut<'a, TargetL>(&'a mut self) -> (v: &'a mut <<Self as LookupElemByLabel<
        TargetL,
    >>::Elem as Value>::Output) where
        TargetL: Label,
        Self: LookupElemByLabelMut<TargetL>,
        <Self as LookupElemByLabel<TargetL>>::Elem: 'a + Value,

        ensures
            *v == LookupElemByLabel::<TargetL>::elem_spec(old(self)).value_spec(),
            *final(self) == LookupElemByLabelMut::<TargetL>::with_elem_spec(
                *old(self),
                LookupElemByLabel::<TargetL>::elem_spec(old(self)).with_value_spec(*final(v)),
            ),
    {
        LookupElemByLabelMut::<TargetL>::elem_mut(self).value_mut()
    }
}

impl Nil {
    /// Returns an empty [`ConsIterator`].
    pub fn iter<'a>(&'a self) -> (iter: ConsIterator<'a, Self>)
        ensures
            iter.list == self,
            iter.adapter == Nil,
    {
        ConsIterator::new(self)
    }

    /// Returns an empty [`ValuesIterator`].
    pub fn iter_values<'a>(&'a self) -> (iter: ValuesIterator<'a, Self>)
        ensures
            iter.list == self,
            iter.adapter == Nil,
    {
        ValuesIterator::new(self)
    }

    /// Returns `false`, since the `Nil` list has no labels.
    pub fn has_label<TargetL>(&self, _target_label: TargetL) -> (found: bool)
        ensures
            !found,
    {
        false
    }

    /// Returns `false`, since the `Nil` list has no labels.
    pub fn has_label_typearg<TargetL>(&self) -> (found: bool)
        ensures
            !found,
    {
        false
    }
}

/// Provides the length of a cons-list.
///
/// Since cons-list types are statically defined, this length is known at
/// compile-time.
pub trait Len {
    /// The length of this list
    const LEN: usize;

    /// The number of nodes of this list type.
    spec fn len_spec() -> nat;

    /// `LEN` is the number of nodes of this list type, where that number is
    /// one that `usize` holds.
    proof fn lemma_len()
        requires
            Self::len_spec() <= usize::MAX,
        ensures
            Self::LEN == Self::len_spec(),
    ;

    /// Returns the length of this list
    fn len(&self) -> (n: usize)
        ensures
            n == Self::LEN,
            Self::len_spec() <= usize::MAX ==> n == Self::len_spec(),
    {
        proof {
            if Self::len_spec() <= usize::MAX {
                Self::lemma_len();
            }
        }
        Self::LEN
    }
}

impl Len for Nil {
    const LEN: usize = 0;

    open spec fn len_spec() -> nat {
        0
    }

    proof fn lemma_len() {
    }
}

impl<H, T> Len for Cons<H, T> where T: Len {
    const LEN: usize = 1 + <T as Len>::LEN;

    open spec fn len_spec() -> nat {
        1 + T::len_spec()
    }

    proof fn lemma_len() {
        T::lemma_len();
    }
}

} // verus!
