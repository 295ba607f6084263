//! Lookup of the element of a list that carries a given label.
use vstd::prelude::*;
use crate::cons::Cons;
use crate::label::{label_uid, Label, LabelSeq};
use crate::relation::{lemma_true_false, Bool, False, LabelEq, Member, True};

verus! {

/// Lookup a specific element in a list by label.
///
/// The element found is the first one, from the head on, that carries the
/// target label. A list type without such an element does not implement this
/// trait.
pub trait LookupElemByLabel<TargetL: Label>: LabelSeq {
    /// The type of the returned element
    type Elem: Label;

    /// The place in the list of the element found.
    spec fn elem_index() -> nat;

    /// The element found.
    spec fn elem_spec(&self) -> Self::Elem;

    /// Returns a reference to the element from the list
    fn elem(&self) -> (e: &Self::Elem)
        ensures
            *e == self.elem_spec(),
    ;

    /// The element found carries the target label, and no element before it in
    /// the list does.
    proof fn lemma_elem_first()
        ensures
            label_uid::<Self::Elem>() == label_uid::<TargetL>(),
            Self::elem_index() < Self::label_uids().len(),
            Self::label_uids()[Self::elem_index() as int] == label_uid::<TargetL>(),
            forall|j: int|
                0 <= j < Self::elem_index() ==> Self::label_uids()[j] != label_uid::<TargetL>(),
    ;
}

impl<TargetL, L, T> LookupElemByLabel<TargetL> for Cons<L, T> where
    TargetL: Label,
    L: Label + LabelEq<TargetL>,
    T: Member<TargetL>,
    Self: LookupElemByLabelMatch<
        TargetL,
        <L as LabelEq<TargetL>>::Output,
        <T as Member<TargetL>>::Output,
    >,
 {
    type Elem = <Self as LookupElemByLabelMatch<
        TargetL,
        <L as LabelEq<TargetL>>::Output,
        <T as Member<TargetL>>::Output,
    >>::Elem;

    open spec fn elem_index() -> nat {
        <Self as LookupElemByLabelMatch<
            TargetL,
            <L as LabelEq<TargetL>>::Output,
            <T as Member<TargetL>>::Output,
        >>::elem_match_index()
    }

    open spec fn elem_spec(&self) -> Self::Elem {
        LookupElemByLabelMatch::<
            TargetL,
            <L as LabelEq<TargetL>>::Output,
            <T as Member<TargetL>>::Output,
        >::elem_match_spec(self)
    }

    fn elem(&self) -> (e: &Self::Elem) {
        LookupElemByLabelMatch::<
            TargetL,
            <L as LabelEq<TargetL>>::Output,
            <T as Member<TargetL>>::Output,
        >::elem(self)
    }

    proof fn lemma_elem_first() {
        <L as LabelEq<TargetL>>::lemma_label_eq();
        assert(Self::label_uids()[0] == label_uid::<L>());
        <Self as LookupElemByLabelMatch<
            TargetL,
            <L as LabelEq<TargetL>>::Output,
            <T as Member<TargetL>>::Output,
        >>::lemma_elem_match_first();
    }
}

/// Helper trait for [`LookupElemByLabel`]: the lookup once it is known whether
/// the head carries the target label (`LabelMatch`) and whether the tail holds
/// it (`TailMatch`).
pub trait LookupElemByLabelMatch<TargetL: Label, LabelMatch: Bool, TailMatch: Bool>: LabelSeq {
    /// The type of the returned element
    type Elem: Label;

    /// The place in the list of the element found.
    spec fn elem_match_index() -> nat;

    /// The element found.
    spec fn elem_match_spec(&self) -> Self::Elem;

    /// Returns a reference to the element from the list
    fn elem(&self) -> (e: &Self::Elem)
        ensures
            *e == self.elem_match_spec(),
    ;

    /// Where `LabelMatch` says whether the head carries the target label, the
    /// element found carries it, and no element before it in the list does.
    proof fn lemma_elem_match_first()
        requires
            Self::label_uids().len() > 0,
            LabelMatch::VALUE == (Self::label_uids()[0] == label_uid::<TargetL>()),
        ensures
            label_uid::<Self::Elem>() == label_uid::<TargetL>(),
            Self::elem_match_index() < Self::label_uids().len(),
            Self::label_uids()[Self::elem_match_index() as int] == label_uid::<TargetL>(),
            forall|j: int|
                0 <= j < Self::elem_match_index() ==> Self::label_uids()[j] != label_uid::<
                    TargetL,
                >(),
    ;
}

// head matches
impl<TargetL, L, T, TailMatch> LookupElemByLabelMatch<TargetL, True, TailMatch> for Cons<L, T> where
    TargetL: Label,
    L: Label,
    T: LabelSeq,
    TailMatch: Bool,
 {
    type Elem = L;

    open spec fn elem_match_index() -> nat {
        0
    }

    open spec fn elem_match_spec(&self) -> Self::Elem {
        self.head
    }

    fn elem(&self) -> (e: &Self::Elem) {
        &self.head
    }

    proof fn lemma_elem_match_first() {
        lemma_true_false();
        assert(Self::label_uids()[0] == label_uid::<L>());
    }
}

// head doesn't match but tail does
impl<TargetL, L, T> LookupElemByLabelMatch<TargetL, False, True> for Cons<L, T> where
    TargetL: Label,
    L: Label,
    T: LookupElemByLabel<TargetL>,
 {
    type Elem = <T as LookupElemByLabel<TargetL>>::Elem;

    open spec fn elem_match_index() -> nat {
        1 + <T as LookupElemByLabel<TargetL>>::elem_index()
    }

    open spec fn elem_match_spec(&self) -> Self::Elem {
        LookupElemByLabel::<TargetL>::elem_spec(&self.tail)
    }

    fn elem(&self) -> (e: &Self::Elem) {
        LookupElemByLabel::<TargetL>::elem(&self.tail)
    }

    proof fn lemma_elem_match_first() {
        <T as LookupElemByLabel<TargetL>>::lemma_elem_first();
        let uids = Self::label_uids();
        assert(uids.subrange(1, uids.len() as int) =~= T::label_uids());
        let index = <Self as LookupElemByLabelMatch<TargetL, False, True>>::elem_match_index();
        assert forall|j: int| 0 <= j < index implies uids[j] != label_uid::<TargetL>() by {
            if j > 0 {
                assert(uids[j] == T::label_uids()[j - 1]);
            } else {
                lemma_true_false();
            }
        }
    }
}

/// Lookup a specific mutable element in a list by label.
pub trait LookupElemByLabelMut<TargetL: Label>: LookupElemByLabel<TargetL> + Sized {
    /// This list with another element in the place of the element found.
    spec fn with_elem_spec(self, elem: Self::Elem) -> Self;

    /// Returns a mutable reference to the element from the list
    fn elem_mut(&mut self) -> (e: &mut Self::Elem)
        ensures
            *e == old(self).elem_spec(),
            *final(self) == old(self).with_elem_spec(*final(e)),
    ;

    /// A lookup after a replacement finds the element that was put in, and
    /// putting in the element that is there changes nothing.
    proof fn lemma_with_elem(self, elem: Self::Elem)
        ensures
            self.with_elem_spec(elem).elem_spec() == elem,
            self.with_elem_spec(self.elem_spec()) == self,
    ;
}

impl<TargetL, L, T> LookupElemByLabelMut<TargetL> for Cons<L, T> where
    TargetL: Label,
    L: Label + LabelEq<TargetL>,
    T: Member<TargetL>,
    Self: LookupElemByLabel<TargetL>,
    Self: LookupElemByLabelMutMatch<
        TargetL,
        <L as LabelEq<TargetL>>::Output,
        <T as Member<TargetL>>::Output,
        Elem = <Self as LookupElemByLabel<TargetL>>::Elem,
    >,
 {
    open spec fn with_elem_spec(self, elem: Self::Elem) -> Self {
        LookupElemByLabelMutMatch::<
            TargetL,
            <L as LabelEq<TargetL>>::Output,
            <T as Member<TargetL>>::Output,
        >::with_elem_match_spec(self, elem)
    }

    fn elem_mut(&mut self) -> (e: &mut Self::Elem) {
        LookupElemByLabelMutMatch::<
            TargetL,
            <L as LabelEq<TargetL>>::Output,
            <T as Member<TargetL>>::Output,
        >::elem_mut(self)
    }

    proof fn lemma_with_elem(self, elem: Self::Elem) {
        LookupElemByLabelMutMatch::<
            TargetL,
            <L as LabelEq<TargetL>>::Output,
            <T as Member<TargetL>>::Output,
        >::lemma_with_elem_match(self, elem);
    }
}

/// Helper trait for [`LookupElemByLabelMut`].
pub trait LookupElemByLabelMutMatch<
    TargetL: Label,
    LabelMatch: Bool,
    TailMatch: Bool,
>: LookupElemByLabelMatch<TargetL, LabelMatch, TailMatch> + Sized {
    /// This list with another element in the place of the element found.
    spec fn with_elem_match_spec(self, elem: Self::Elem) -> Self;

    /// Returns a mutable reference to the element from the list
    fn elem_mut(&mut self) -> (e: &mut Self::Elem)
        ensures
            *e == old(self).elem_match_spec(),
            *final(self) == old(self).with_elem_match_spec(*final(e)),
    ;

    /// A lookup after a replacement finds the element that was put in, and
    /// putting in the element that is there changes nothing.
    proof fn lemma_with_elem_match(self, elem: Self::Elem)
        ensures
            self.with_elem_match_spec(elem).elem_match_spec() == elem,
            self.with_elem_match_spec(self.elem_match_spec()) == self,
    ;
}

// head matches
impl<TargetL, L, T, TailMatch> LookupElemByLabelMutMatch<TargetL, True, TailMatch> for Cons<
    L,
    T,
> where TargetL: Label, L: Label, T: LabelSeq, TailMatch: Bool {
    open spec fn with_elem_match_spec(self, elem: Self::Elem) -> Self {
        Cons { head: elem, tail: self.tail }
    }

    fn elem_mut(&mut self) -> (e: &mut Self::Elem) {
        &mut self.head
    }

    proof fn lemma_with_elem_match(self, elem: Self::Elem) {
    }
}

// head doesn't match but tail does
impl<TargetL, L, T> LookupElemByLabelMutMatch<TargetL, False, True> for Cons<L, T> where
    TargetL: Label,
    L: Label,
    T: LookupElemByLabelMut<TargetL>,
 {
    open spec fn with_elem_match_spec(self, elem: Self::Elem) -> Self {
        Cons { head: self.head, tail: self.tail.with_elem_spec(elem) }
    }

    fn elem_mut(&mut self) -> (e: &mut Self::Elem) {
        LookupElemByLabelMut::<TargetL>::elem_mut(&mut self.tail)
    }

    proof fn lemma_with_elem_match(self, elem: Self::Elem) {
        self.tail.lemma_with_elem(elem);
    }
}

/// Lookups by two different labels in one list do not meet: putting another
/// element in the place of the one found by `TargetL` leaves the element found
/// by `OtherL` as it was.
///
/// A list type implements this trait where it holds both labels and they are
/// different labels.
pub trait LookupFrame<TargetL: Label, OtherL: Label>: LookupElemByLabelMut<
    TargetL,
> + LookupElemByLabel<OtherL> {
    /// A lookup by `OtherL` after a replacement by `TargetL` finds what it
    /// found before.
    proof fn lemma_other_elem_kept(self, elem: <Self as LookupElemByLabel<TargetL>>::Elem)
        ensures
            LookupElemByLabel::<OtherL>::elem_spec(
                &LookupElemByLabelMut::<TargetL>::with_elem_spec(self, elem),
            ) == LookupElemByLabel::<OtherL>::elem_spec(&self),
    ;
}

impl<TargetL, OtherL, L, T> LookupFrame<TargetL, OtherL> for Cons<L, T> where
    TargetL: Label,
    OtherL: Label,
    L: Label + LabelEq<TargetL> + LabelEq<OtherL>,
    T: Member<TargetL> + Member<OtherL>,
    Self: LookupFrameMatch<
        TargetL,
        OtherL,
        <L as LabelEq<TargetL>>::Output,
        <T as Member<TargetL>>::Output,
        <L as LabelEq<OtherL>>::Output,
        <T as Member<OtherL>>::Output,
    >,
 {
    proof fn lemma_other_elem_kept(self, elem: <Self as LookupElemByLabel<TargetL>>::Elem) {
        LookupFrameMatch::<
            TargetL,
            OtherL,
            <L as LabelEq<TargetL>>::Output,
            <T as Member<TargetL>>::Output,
            <L as LabelEq<OtherL>>::Output,
            <T as Member<OtherL>>::Output,
        >::lemma_other_elem_kept_match(self, elem);
    }
}

/// Helper trait for [`LookupFrame`]: the same once it is known, for each of the
/// two labels, whether the head carries it and whether the tail holds it.
pub trait LookupFrameMatch<
    TargetL: Label,
    OtherL: Label,
    TargetMatch: Bool,
    TargetTail: Bool,
    OtherMatch: Bool,
    OtherTail: Bool,
>: LookupElemByLabelMutMatch<TargetL, TargetMatch, TargetTail> + LookupElemByLabelMatch<
    OtherL,
    OtherMatch,
    OtherTail,
> {
    /// A lookup by `OtherL` after a replacement by `TargetL` finds what it
    /// found before.
    proof fn lemma_other_elem_kept_match(
        self,
        elem: <Self as LookupElemByLabelMatch<TargetL, TargetMatch, TargetTail>>::Elem,
    )
        ensures
            LookupElemByLabelMatch::<OtherL, OtherMatch, OtherTail>::elem_match_spec(
                &LookupElemByLabelMutMatch::<
                    TargetL,
                    TargetMatch,
                    TargetTail,
                >::with_elem_match_spec(self, elem),
            ) == LookupElemByLabelMatch::<OtherL, OtherMatch, OtherTail>::elem_match_spec(&self),
    ;
}

// the head carries the target label, the tail holds the other
impl<TargetL, OtherL, L, T, TargetTail> LookupFrameMatch<
    TargetL,
    OtherL,
    True,
    TargetTail,
    False,
    True,
> for Cons<L, T> where
    TargetL: Label,
    OtherL: Label,
    L: Label,
    T: LookupElemByLabel<OtherL>,
    TargetTail: Bool,
 {
    proof fn lemma_other_elem_kept_match(self, elem: L) {
    }
}

// the head carries the other label, the tail holds the target
impl<TargetL, OtherL, L, T, OtherTail> LookupFrameMatch<
    TargetL,
    OtherL,
    False,
    True,
    True,
    OtherTail,
> for Cons<L, T> where
    TargetL: Label,
    OtherL: Label,
    L: Label,
    T: LookupElemByLabelMut<TargetL>,
    OtherTail: Bool,
 {
    proof fn lemma_other_elem_kept_match(self, elem: <T as LookupElemByLabel<TargetL>>::Elem) {
    }
}

// the head carries neither, the tail holds both
impl<TargetL, OtherL, L, T> LookupFrameMatch<TargetL, OtherL, False, True, False, True> for Cons<
    L,
    T,
> where TargetL: Label, OtherL: Label, L: Label, T: LookupFrame<TargetL, OtherL> {
    proof fn lemma_other_elem_kept_match(self, elem: <T as LookupElemByLabel<TargetL>>::Elem) {
        self.tail.lemma_other_elem_kept(elem);
    }
}

} // verus!
