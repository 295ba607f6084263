//! Lists in which no label occurs twice, and their union.
use vstd::prelude::*;
use crate::cons::{Cons, Nil};
use crate::label::{label_uid, Label, LabelSeq};
use crate::relation::{lemma_true_false, False, Member};

verus! {

/// An `OrderedHSet` is a labeled heterogeneous list that does not contain
/// elements with the same label.
pub trait OrderedHSet: LabelSeq {
    /// No label occurs twice in the list.
    proof fn lemma_no_duplicates()
        ensures
            Self::label_uids().no_duplicates(),
    ;

    /// It creates a new set by prepending `h` to `self`.
    ///
    /// If there is another element in `self` with the same label as `h`, the
    /// call does not compile. So no label occurs twice in the new set either.
    fn prepend<H>(self, h: H) -> (set: Cons<H, Self>) where
        H: Label,
        Self: Member<H, Output = False> + Sized,

        ensures
            set.head == h,
            set.tail == self,
            <Cons<H, Self> as LabelSeq>::label_uids().no_duplicates(),
    {
        proof {
            Self::lemma_no_duplicates();
            <Self as Member<H>>::lemma_member();
            lemma_true_false();
            lemma_prepend_no_duplicates(label_uid::<H>(), Self::label_uids());
        }
        Cons { head: h, tail: self }
    }
}

/// A sequence without a repeated item stays so when an item that it does not
/// hold is put before it.
pub proof fn lemma_prepend_no_duplicates(head: Seq<bool>, rest: Seq<Seq<bool>>)
    requires
        rest.no_duplicates(),
        !rest.contains(head),
    ensures
        (seq![head] + rest).no_duplicates(),
{
    let all = seq![head] + rest;
    assert forall|i: int, j: int| 0 <= i < all.len() && 0 <= j < all.len() && i != j implies all[i]
        != all[j] by {
        if i == 0 {
            assert(rest[j - 1] == all[j]);
        } else if j == 0 {
            assert(rest[i - 1] == all[i]);
        } else {
            assert(rest[i - 1] == all[i]);
            assert(rest[j - 1] == all[j]);
        }
    }
}

/// Nil corresponds to an empty set.
impl OrderedHSet for Nil {
    proof fn lemma_no_duplicates() {
    }
}

/// A labeled heterogeneous list is an `OrderedHSet` if:
/// - the head `H` is labeled;
/// - the tail `T` is a set;
/// - `T` does not contain any element with same **label** of `H`.
impl<H, T> OrderedHSet for Cons<H, T> where H: Label, T: OrderedHSet + Member<H, Output = False> {
    proof fn lemma_no_duplicates() {
        T::lemma_no_duplicates();
        <T as Member<H>>::lemma_member();
        lemma_true_false();
        lemma_prepend_no_duplicates(label_uid::<H>(), T::label_uids());
    }
}

/// The union operation for [`OrderedHSet`]s.
///
/// It is not commutative: the order of the elements in the result depends on
/// the order of the operands.
pub trait Union<Rhs: OrderedHSet>: LabelSeq + Sized {
    /// The result type of the union operation.
    type Output: OrderedHSet;

    /// The list that holds the elements of `self`, then those of `rhs`.
    spec fn union_spec(self, rhs: Rhs) -> Self::Output;

    /// It returns the union of two [`OrderedHSet`]s.
    ///
    /// The elements of `Self` are added at the beginning of the resulting
    /// [`OrderedHSet`].
    fn union(self, rhs: Rhs) -> (output: Self::Output) where Self: OrderedHSet
        ensures
            output == self.union_spec(rhs),
    ;

    /// The labels of the union are those of `Self`, in their order, and then
    /// those of `Rhs`, in theirs.
    proof fn lemma_union_labels()
        ensures
            <Self::Output as LabelSeq>::label_uids() == Self::label_uids() + Rhs::label_uids(),
    ;
}

impl<Rhs> Union<Rhs> for Nil where Rhs: OrderedHSet {
    type Output = Rhs;

    open spec fn union_spec(self, rhs: Rhs) -> Self::Output {
        rhs
    }

    fn union(self, rhs: Rhs) -> (output: Self::Output) {
        rhs
    }

    proof fn lemma_union_labels() {
        assert(Self::label_uids() + Rhs::label_uids() =~= Rhs::label_uids());
    }
}

impl<H, T, Rhs> Union<Rhs> for Cons<H, T> where
    H: Label,
    T: OrderedHSet + Union<Rhs>,
    Rhs: OrderedHSet,
    Cons<H, <T as Union<Rhs>>::Output>: OrderedHSet,
 {
    type Output = Cons<H, <T as Union<Rhs>>::Output>;

    open spec fn union_spec(self, rhs: Rhs) -> Self::Output {
        Cons { head: self.head, tail: self.tail.union_spec(rhs) }
    }

    fn union(self, rhs: Rhs) -> (output: Self::Output) {
        Cons { head: self.head, tail: self.tail.union(rhs) }
    }

    proof fn lemma_union_labels() {
        <T as Union<Rhs>>::lemma_union_labels();
        assert(<Self::Output as LabelSeq>::label_uids() =~= Self::label_uids()
            + Rhs::label_uids());
    }
}

/// No label of the left operand of a union is a label of the right operand.
pub proof fn lemma_union_disjoint<Lhs, Rhs>(uid: Seq<bool>) where
    Rhs: OrderedHSet,
    Lhs: Union<Rhs>,

    ensures
        !(Lhs::label_uids().contains(uid) && Rhs::label_uids().contains(uid)),
{
    <Lhs as Union<Rhs>>::lemma_union_labels();
    <<Lhs as Union<Rhs>>::Output as OrderedHSet>::lemma_no_duplicates();
    let left = Lhs::label_uids();
    let right = Rhs::label_uids();
    let all = left + right;
    if left.contains(uid) && right.contains(uid) {
        let i = choose|i: int| 0 <= i < left.len() && left[i] == uid;
        let j = choose|j: int| 0 <= j < right.len() && right[j] == uid;
        assert(all[i] == uid);
        assert(all[left.len() + j] == uid);
    }
}

} // verus!
