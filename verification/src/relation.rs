//! Relations between labels and lists that the types decide: whether two labels
//! are the same label, and whether a list holds a label.
use vstd::prelude::*;
use typenum::{B0, B1};
use crate::cons::{Cons, Nil};
use crate::label::{label_uid, Label, LabelSeq};
use crate::numeral::{Bit, NumeralEq};
use crate::uid::{lemma_uint_bits_injective, uint_bits};

verus! {

/// Marker struct signifying `true`.
pub struct True;

/// Marker struct signifying `false`.
pub struct False;

/// Trait for types that signify `true` or `false`.
pub trait Bool {
    /// `true` or `false` value
    const VALUE: bool;
}

impl Bool for True {
    const VALUE: bool = true;
}

impl Bool for False {
    const VALUE: bool = false;
}

/// [`True`] signifies `true` and [`False`] signifies `false`.
pub proof fn lemma_true_false()
    ensures
        True::VALUE,
        !False::VALUE,
{
}

/// Conversion trait for type-level bits, which have a logical `true` or `false`
/// meaning.
pub trait ToBool: Bit {
    /// Conversion output (either [`True`] or [`False`]).
    type Output: Bool;

    /// The output signifies `true` exactly when the bit is set.
    proof fn lemma_to_bool()
        ensures
            <Self::Output as Bool>::VALUE == Self::bit(),
    ;
}

impl ToBool for B1 {
    type Output = True;

    proof fn lemma_to_bool() {
    }
}

impl ToBool for B0 {
    type Output = False;

    proof fn lemma_to_bool() {
    }
}

/// Label equality.
///
/// Checks whether two types that implement [`Label`] are the same label.
pub trait LabelEq<L: Label>: Label {
    /// [`True`] if labels are equal, [`False`] otherwise.
    type Output: Bool;

    /// The output signifies `true` exactly when both labels have the same
    /// identifier.
    proof fn lemma_label_eq()
        ensures
            <Self::Output as Bool>::VALUE == (label_uid::<Self>() == label_uid::<L>()),
    ;
}

impl<L, M> LabelEq<M> for L where
    L: Label,
    M: Label,
    L::Uid: NumeralEq<M::Uid>,
    <L::Uid as NumeralEq<M::Uid>>::Output: ToBool,
 {
    type Output = <<L::Uid as NumeralEq<M::Uid>>::Output as ToBool>::Output;

    proof fn lemma_label_eq() {
        <L::Uid as NumeralEq<M::Uid>>::lemma_numeral_eq();
        <<L::Uid as NumeralEq<M::Uid>>::Output as ToBool>::lemma_to_bool();
    }
}

/// Every label is equal to itself.
pub proof fn lemma_label_eq_reflexive<L>() where L: LabelEq<L>
    ensures
        <<L as LabelEq<L>>::Output as Bool>::VALUE,
{
    <L as LabelEq<L>>::lemma_label_eq();
}

/// Label equality gives the same answer in both directions.
pub proof fn lemma_label_eq_symmetric<L, M>() where L: LabelEq<M>, M: LabelEq<L>
    ensures
        <<L as LabelEq<M>>::Output as Bool>::VALUE == <<M as LabelEq<L>>::Output as Bool>::VALUE,
{
    <L as LabelEq<M>>::lemma_label_eq();
    <M as LabelEq<L>>::lemma_label_eq();
}

/// Two labels whose identifiers were written for different numbers are not
/// equal.
pub proof fn lemma_label_eq_distinct_ids<L, M>(a: nat, b: nat) where L: LabelEq<M>, M: Label
    requires
        label_uid::<L>() == uint_bits(a),
        label_uid::<M>() == uint_bits(b),
        a != b,
    ensures
        !<<L as LabelEq<M>>::Output as Bool>::VALUE,
{
    <L as LabelEq<M>>::lemma_label_eq();
    lemma_uint_bits_injective(a, b);
}

/// Check to see if a target label is a list member.
pub trait Member<TargetL: Label>: LabelSeq {
    /// [`True`] if `TargetL` is a member, [`False`] otherwise.
    type Output: Bool;

    /// The output signifies `true` exactly when some element of the list
    /// carries the target label.
    proof fn lemma_member()
        ensures
            <Self::Output as Bool>::VALUE == Self::label_uids().contains(label_uid::<TargetL>()),
    ;
}

impl<TargetL: Label> Member<TargetL> for Nil {
    type Output = False;

    proof fn lemma_member() {
    }
}

impl<TargetL, L, T> Member<TargetL> for Cons<L, T> where
    TargetL: Label,
    L: Label + LabelEq<TargetL>,
    T: LabelSeq,
    Self: MemberMatch<TargetL, <L as LabelEq<TargetL>>::Output>,
 {
    type Output = <Self as MemberMatch<TargetL, <L as LabelEq<TargetL>>::Output>>::Output;

    proof fn lemma_member() {
        <L as LabelEq<TargetL>>::lemma_label_eq();
        assert(Self::label_uids()[0] == label_uid::<L>());
        <Self as MemberMatch<TargetL, <L as LabelEq<TargetL>>::Output>>::lemma_member_match();
    }
}

/// Helper trait for [`Member`]: membership once it is known whether the head of
/// the list carries the target label.
pub trait MemberMatch<TargetL: Label, HeadMatch: Bool>: LabelSeq {
    /// [`True`] if `TargetL` is a member, [`False`] otherwise.
    type Output: Bool;

    /// Where `HeadMatch` says whether the head carries the target label, the
    /// output signifies `true` exactly when some element of the list does.
    proof fn lemma_member_match()
        requires
            Self::label_uids().len() > 0,
            HeadMatch::VALUE == (Self::label_uids()[0] == label_uid::<TargetL>()),
        ensures
            <Self::Output as Bool>::VALUE == Self::label_uids().contains(label_uid::<TargetL>()),
    ;
}

impl<TargetL: Label, L: Label, T: LabelSeq> MemberMatch<TargetL, True> for Cons<L, T> {
    type Output = True;

    proof fn lemma_member_match() {
    }
}

impl<TargetL, L, T> MemberMatch<TargetL, False> for Cons<L, T> where
    TargetL: Label,
    L: Label,
    T: Member<TargetL>,
 {
    type Output = <T as Member<TargetL>>::Output;

    proof fn lemma_member_match() {
        <T as Member<TargetL>>::lemma_member();
        let target = label_uid::<TargetL>();
        let uids = Self::label_uids();
        assert(uids.subrange(1, uids.len() as int) =~= T::label_uids());
        if T::label_uids().contains(target) {
            let i = choose|i: int| 0 <= i < T::label_uids().len() && T::label_uids()[i] == target;
            assert(uids[i + 1] == target);
        }
        if uids.contains(target) {
            let i = choose|i: int| 0 <= i < uids.len() && uids[i] == target;
            assert(T::label_uids()[i - 1] == target);
        }
    }
}

} // verus!
