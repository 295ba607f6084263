//! Labels, labeled values, and what a list type says of the labels that it
//! holds.
use vstd::prelude::*;
use std::marker::PhantomData;
use crate::cons::{Cons, LCons, LVCons, Len, Nil};
use crate::numeral::{bits_value, Numeral};
use crate::uid::{lemma_uint_bits_value, uint_bits};

verus! {

/// A trait with information about a label.
///
/// Labels are unit-like structs used to identify elements in a list. A label has
/// a name, an associated type, and an identifier: a type-level numeral that no
/// other label shares.
pub trait Label {
    /// Name of this label (for display and output).
    const NAME: &'static str;
    /// Associated type of this label.
    type AssocType;
    /// Internal unique label identifier.
    type Uid: Numeral;

    /// Returns the label's name.
    fn name() -> (s: &'static str)
        ensures
            s == Self::NAME,
    {
        Self::NAME
    }

    /// Returns the label's unique identifier as a number.
    fn id() -> (n: usize)
        requires
            bits_value(<Self::Uid as Numeral>::bits()) <= usize::MAX,
        ensures
            n == bits_value(<Self::Uid as Numeral>::bits()),
    {
        Self::Uid::to_usize()
    }
}

impl<L> Label for PhantomData<L> where L: Label {
    const NAME: &'static str = L::NAME;

    type AssocType = L::AssocType;

    type Uid = L::Uid;
}

/// A value along with its label.
#[derive(Debug, Clone, Hash, PartialEq, Eq)]
pub struct LabeledValue<L: Label> {
    /// The value that the label names.
    pub value: L::AssocType,
}

impl<L> LabeledValue<L> where L: Label {
    /// Create a new labeled value.
    pub fn new(value: L::AssocType) -> (labeled: LabeledValue<L>)
        ensures
            labeled.value == value,
    {
        LabeledValue { value }
    }
}

impl<L> Label for LabeledValue<L> where L: Label {
    const NAME: &'static str = L::NAME;

    type AssocType = L::AssocType;

    type Uid = L::Uid;
}

/// Creates a new [`LabeledValue`] for placement into a list of labeled values.
/// The label is named by the first argument, which is not otherwise used.
pub fn labeled<L>(_label: L, value: L::AssocType) -> (labeled: LabeledValue<L>) where L: Label
    ensures
        labeled.value == value,
{
    labeled_typearg::<L>(value)
}

/// Creates a new [`LabeledValue`] for placement into a list of labeled values.
/// The label is named by the type argument.
pub fn labeled_typearg<L>(value: L::AssocType) -> (labeled: LabeledValue<L>) where L: Label
    ensures
        labeled.value == value,
{
    LabeledValue { value }
}

/// A trait that provides access to contained 'values'.
pub trait Value: Sized {
    /// The type of the contained value.
    type Output;

    /// The contained value.
    spec fn value_spec(&self) -> Self::Output;

    /// This container with another value in place of the contained one.
    spec fn with_value_spec(self, value: Self::Output) -> Self;

    /// Immutable reference to the contained value
    fn value_ref(&self) -> (v: &Self::Output)
        ensures
            *v == self.value_spec(),
    ;

    /// Mutable reference to the contained value
    fn value_mut(&mut self) -> (v: &mut Self::Output)
        ensures
            *v == old(self).value_spec(),
            *final(self) == old(self).with_value_spec(*final(v)),
    ;
}

impl<L> Value for LabeledValue<L> where L: Label {
    type Output = L::AssocType;

    open spec fn value_spec(&self) -> Self::Output {
        self.value
    }

    open spec fn with_value_spec(self, value: Self::Output) -> Self {
        LabeledValue { value }
    }

    fn value_ref(&self) -> (v: &Self::Output) {
        &self.value
    }

    fn value_mut(&mut self) -> (v: &mut Self::Output) {
        &mut self.value
    }
}

/// The identity of a label: the bits of its identifier, most significant first.
/// Two labels are the same label exactly when these are equal.
pub open spec fn label_uid<L: Label + ?Sized>() -> Seq<bool> {
    <L::Uid as Numeral>::bits()
}

/// The number that a label's identifier stands for.
pub open spec fn label_id<L: Label + ?Sized>() -> nat {
    bits_value(label_uid::<L>())
}

/// A label whose identifier was written for the number `id` reports that
/// number as its id.
pub proof fn lemma_label_id_of_written<L: Label>(id: nat)
    requires
        label_uid::<L>() == uint_bits(id),
    ensures
        label_id::<L>() == id,
{
    lemma_uint_bits_value(id);
}

/// A label wrapped as a marker without a value, or together with a value, is
/// the same label: it has the same identifier and the same name.
pub proof fn lemma_wrapped_label<L: Label>()
    ensures
        label_uid::<PhantomData<L>>() == label_uid::<L>(),
        label_uid::<LabeledValue<L>>() == label_uid::<L>(),
        <PhantomData<L> as Label>::NAME == L::NAME,
        <LabeledValue<L> as Label>::NAME == L::NAME,
{
}

/// A cons-list type all of whose elements carry a label.
pub trait LabelSeq {
    /// The identities of the labels of the list, in list order.
    spec fn label_uids() -> Seq<Seq<bool>>;

    /// The names of the labels of the list, in list order.
    spec fn label_names() -> Seq<&'static str>;
}

impl LabelSeq for Nil {
    open spec fn label_uids() -> Seq<Seq<bool>> {
        Seq::empty()
    }

    open spec fn label_names() -> Seq<&'static str> {
        Seq::empty()
    }
}

impl<L: Label, T: LabelSeq> LabelSeq for Cons<L, T> {
    open spec fn label_uids() -> Seq<Seq<bool>> {
        seq![label_uid::<L>()] + T::label_uids()
    }

    open spec fn label_names() -> Seq<&'static str> {
        seq![L::NAME] + T::label_names()
    }
}

/// Trait for extracting the labels from a cons-list of labeled values.
pub trait HasLabels: LabelSeq {
    /// Associated labels
    type Labels: LabelSeq;

    /// The list of the labels alone.
    spec fn labels_spec() -> Self::Labels;

    /// The associated list of labels names the same labels in the same order.
    proof fn lemma_same_labels()
        ensures
            <Self::Labels as LabelSeq>::label_uids() == Self::label_uids(),
            <Self::Labels as LabelSeq>::label_names() == Self::label_names(),
    ;

    /// A list of labels alone holds no data, so there is one such list only.
    proof fn lemma_one_list_of_labels(a: Self::Labels, b: Self::Labels)
        ensures
            a == b,
    ;

    /// Instantiates a cons-list only containing label information.
    fn labels_only(&self) -> (labels: Self::Labels) where Self::Labels: Default
        ensures
            labels == Self::labels_spec(),
    {
        let labels = Self::Labels::default();
        proof {
            Self::lemma_one_list_of_labels(labels, Self::labels_spec());
        }
        labels
    }
}

impl HasLabels for Nil {
    type Labels = Nil;

    open spec fn labels_spec() -> Self::Labels {
        Nil
    }

    proof fn lemma_same_labels() {
    }

    proof fn lemma_one_list_of_labels(a: Self::Labels, b: Self::Labels) {
    }
}

impl<Lbl, Tail> HasLabels for LVCons<Lbl, Tail> where Lbl: Label, Tail: HasLabels {
    type Labels = LCons<Lbl, Tail::Labels>;

    open spec fn labels_spec() -> Self::Labels {
        Cons { head: PhantomData, tail: Tail::labels_spec() }
    }

    proof fn lemma_same_labels() {
        Tail::lemma_same_labels();
    }

    proof fn lemma_one_list_of_labels(a: Self::Labels, b: Self::Labels) {
        Tail::lemma_one_list_of_labels(a.tail, b.tail);
        assert(a.head == b.head);
        assert(a.tail == b.tail);
    }
}

/// Generate a `Vec` containing the names of the labels in a labeled cons-list.
pub trait StrLabels: LabelSeq {
    /// Generates the label name `Vec`
    fn static_labels() -> (names: Vec<&'static str>)
        requires
            Self::label_names().len() <= usize::MAX,
        ensures
            names@ == Self::label_names(),
    ;

    /// Generates the label name `Vec` using a value
    fn labels(&self) -> (names: Vec<&'static str>)
        requires
            Self::label_names().len() <= usize::MAX,
        ensures
            names@ == Self::label_names(),
    {
        Self::static_labels()
    }
}

impl StrLabels for Nil {
    fn static_labels() -> (names: Vec<&'static str>) {
        Vec::new()
    }
}

impl<Lbl: Sized, Tail> StrLabels for Cons<Lbl, Tail> where Self: Len + BuildStrLabels {
    fn static_labels() -> (names: Vec<&'static str>) {
        proof {
            Self::lemma_names_len();
            Self::lemma_len();
        }
        let mut output = vec![""; Self::LEN];
        Self::build_labels(&mut output, 0);
        proof {
            assert(output@ =~= Self::label_names());
        }
        output
    }
}

/// Writes the names of the labels of a list into a vector.
pub trait BuildStrLabels: LabelSeq + Len {
    /// There is one name for each node of the list.
    proof fn lemma_names_len()
        ensures
            Self::label_names().len() == Self::len_spec(),
    ;

    /// Writes the names of the labels of this list into `v`, from the place
    /// `idx` to the end of `v`.
    fn build_labels(v: &mut Vec<&'static str>, idx: usize)
        requires
            idx + Self::label_names().len() == old(v).len(),
        ensures
            final(v)@ == old(v)@.subrange(0, idx as int) + Self::label_names(),
    ;
}

impl BuildStrLabels for Nil {
    proof fn lemma_names_len() {
    }

    fn build_labels(v: &mut Vec<&'static str>, idx: usize) {
        proof {
            assert(v@ =~= v@.subrange(0, idx as int) + Self::label_names());
        }
    }
}

impl<Lbl, Tail> BuildStrLabels for Cons<Lbl, Tail> where Lbl: Label, Tail: BuildStrLabels {
    proof fn lemma_names_len() {
        Tail::lemma_names_len();
    }

    fn build_labels(v: &mut Vec<&'static str>, idx: usize) {
        v[idx] = Lbl::NAME;
        Tail::build_labels(v, idx + 1);
        proof {
            assert(v@ =~= old(v)@.subrange(0, idx as int) + Self::label_names());
        }
    }
}

} // verus!
