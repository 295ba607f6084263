//! Iteration over heterogeneous cons-lists and labeled heterogeneous cons-lists.
use vstd::prelude::*;
use crate::cons::{Cons, LCons, LVCons, Nil};
use crate::label::{Label, LabeledValue};

verus! {

/// An iterator component that transforms an input.
///
/// What a step needs and what it gives are stated by the two specification
/// functions, which every implementation defines for itself.
pub trait Adapter<T>: Sized {
    /// Transformation output type
    type Output;

    /// Whether this adapter accepts `input`. An implementation that does not
    /// say otherwise accepts every input.
    open spec fn adapt_requires(&self, input: T) -> bool {
        true
    }

    /// Whether this adapter, given `input`, may give `output` and be left as
    /// `after`. An implementation that does not say otherwise promises nothing
    /// of its output.
    open spec fn adapt_ensures(&self, input: T, after: Self, output: Self::Output) -> bool {
        true
    }

    /// Transforms the input and returns its output
    fn adapt(&mut self, input: T) -> (output: Self::Output)
        requires
            old(self).adapt_requires(input),
        ensures
            old(self).adapt_ensures(input, *final(self), output),
    ;
}

impl<T> Adapter<T> for Nil {
    type Output = T;

    open spec fn adapt_requires(&self, input: T) -> bool {
        true
    }

    open spec fn adapt_ensures(&self, input: T, after: Self, output: Self::Output) -> bool {
        output == input
    }

    fn adapt(&mut self, input: T) -> (output: Self::Output) {
        input
    }
}

impl<T, Head, Tail> Adapter<T> for Cons<Head, Tail> where
    Tail: Adapter<T>,
    Head: Adapter<<Tail as Adapter<T>>::Output>,
 {
    type Output = <Head as Adapter<<Tail as Adapter<T>>::Output>>::Output;

    open spec fn adapt_requires(&self, input: T) -> bool {
        &&& self.tail.adapt_requires(input)
        &&& forall|after: Tail, mid: <Tail as Adapter<T>>::Output|
            self.tail.adapt_ensures(input, after, mid) ==> self.head.adapt_requires(mid)
    }

    open spec fn adapt_ensures(&self, input: T, after: Self, output: Self::Output) -> bool {
        exists|mid: <Tail as Adapter<T>>::Output|
            self.tail.adapt_ensures(input, after.tail, mid) && self.head.adapt_ensures(
                mid,
                after.head,
                output,
            )
    }

    fn adapt(&mut self, input: T) -> (output: Self::Output) {
        let mid = self.tail.adapt(input);
        let output = self.head.adapt(mid);
        proof {
            assert(old(self).tail.adapt_ensures(input, self.tail, mid));
            assert(old(self).head.adapt_ensures(mid, self.head, output));
        }
        output
    }
}

/// Function for use in mapping over heterogeneous lists.
///
/// This trait must be implemented for all types contained in the list.
pub trait MapFunc<T>: Sized {
    /// Output of mapped function
    type Output;

    /// Whether this function accepts `item`. An implementation that does not
    /// say otherwise accepts every item.
    open spec fn call_requires(&self, item: T) -> bool {
        true
    }

    /// Whether this function, given `item`, may give `output` and be left as
    /// `after`. An implementation that does not say otherwise promises nothing
    /// of its output.
    open spec fn call_ensures(&self, item: T, after: Self, output: Self::Output) -> bool {
        true
    }

    /// Evaluate this function on the input
    fn call(&mut self, item: T) -> (output: Self::Output)
        requires
            old(self).call_requires(item),
        ensures
            old(self).call_ensures(item, *final(self), output),
    ;
}

/// Function mapping iterator component.
///
/// Transforms input using a function implementing [`MapFunc`]. Created by
/// calling the `map` method on a [`ConsIterator`] or [`ValuesIterator`].
#[derive(Debug)]
pub struct MapAdapter<F> {
    /// The function that this adapter applies.
    pub f: F,
}

impl<F, T> Adapter<T> for MapAdapter<F> where F: MapFunc<T> {
    type Output = <F as MapFunc<T>>::Output;

    open spec fn adapt_requires(&self, input: T) -> bool {
        self.f.call_requires(input)
    }

    open spec fn adapt_ensures(&self, input: T, after: Self, output: Self::Output) -> bool {
        self.f.call_ensures(input, after.f, output)
    }

    fn adapt(&mut self, input: T) -> (output: Self::Output) {
        self.f.call(input)
    }
}

/// An iterator over a heterogeneous cons-list ([`Cons`]).
///
/// For a version that iterates over only the values of a labeled cons-list, see
/// [`ValuesIterator`].
#[derive(Debug)]
pub struct ConsIterator<'a, List, A = Nil> {
    /// The part of the list that is still to be visited.
    pub list: &'a List,
    /// The adapter that transforms each element.
    pub adapter: A,
}

impl<'a, List> ConsIterator<'a, List> {
    /// Creates a new `ConsIterator` over a `Cons`-list
    pub fn new(list: &'a List) -> (iter: Self)
        ensures
            iter.list == list,
            iter.adapter == Nil,
    {
        ConsIterator { list, adapter: Nil }
    }
}

impl<'a, List, A> ConsIterator<'a, List, A> {
    /// Creates a new `ConsIterator` over a `Cons`-list with an adapter (see
    /// [`Adapter`]).
    pub fn with_adapter(list: &'a List, adapter: A) -> (iter: Self)
        ensures
            iter.list == list,
            iter.adapter == adapter,
    {
        ConsIterator { list, adapter }
    }
}

impl<'a, H, T, A> ConsIterator<'a, Cons<H, T>, A> where A: Adapter<&'a H> {
    /// Collects this iterator into a new labeled heterogeneous list
    pub fn collect_into_labeled_hlist<LabelList>(self) -> (output: <Self as CollectIntoLabeledHList<
        LabelList,
    >>::Output) where Self: CollectIntoLabeledHList<LabelList>
        requires
            CollectIntoLabeledHList::<LabelList>::collect_labeled_requires(&self),
        ensures
            CollectIntoLabeledHList::<LabelList>::collect_labeled_ensures(&self, output),
    {
        CollectIntoLabeledHList::<LabelList>::collect_into_labeled_hlist(self)
    }

    /// Returns the next value along with a new iterator advanced to the next
    /// element of the list.
    pub fn next(self) -> (step: (<A as Adapter<&'a H>>::Output, ConsIterator<'a, T, A>))
        requires
            self.adapter.adapt_requires(&self.list.head),
        ensures
            self.adapter.adapt_ensures(&self.list.head, step.1.adapter, step.0),
            step.1.list == &self.list.tail,
    {
        let list = self.list;
        let mut adapter = self.adapter;
        let item = adapter.adapt(&list.head);
        (item, ConsIterator::with_adapter(&list.tail, adapter))
    }

    /// Creates an iterator which calls a [`MapFunc`] on each element.
    ///
    /// See [`MapAdapter`] for more information.
    pub fn map<F>(self, f: F) -> (iter: ConsIterator<'a, Cons<H, T>, Cons<MapAdapter<F>, A>>) where
        F: MapFunc<<A as Adapter<&'a H>>::Output>,

        ensures
            iter.list == self.list,
            iter.adapter.head.f == f,
            iter.adapter.tail == self.adapter,
    {
        ConsIterator::with_adapter(self.list, Cons { head: MapAdapter { f }, tail: self.adapter })
    }
}

/// An iterator over a labeled heterogeneous cons-list that only provides access
/// to the contained values (as opposed to the labeled values).
///
/// For a version that iterates over a cons-list without stripping labeled
/// information, see [`ConsIterator`].
#[derive(Debug)]
pub struct ValuesIterator<'a, List, A = Nil> {
    /// The part of the list that is still to be visited.
    pub list: &'a List,
    /// The adapter that transforms each element.
    pub adapter: A,
}

impl<'a, List> ValuesIterator<'a, List> {
    /// Creates a new `ValuesIterator` over an `LVCons`-list
    pub fn new(list: &'a List) -> (iter: Self)
        ensures
            iter.list == list,
            iter.adapter == Nil,
    {
        ValuesIterator { list, adapter: Nil }
    }
}

impl<'a, List, A> ValuesIterator<'a, List, A> {
    /// Creates a new `ValuesIterator` over an `LVCons`-list with a specified
    /// adapter (see [`Adapter`]).
    pub fn with_adapter(list: &'a List, adapter: A) -> (iter: Self)
        ensures
            iter.list == list,
            iter.adapter == adapter,
    {
        ValuesIterator { list, adapter }
    }
}

impl<'a, L, T, A> ValuesIterator<'a, LVCons<L, T>, A> where
    L: Label,
    A: Adapter<&'a L::AssocType>,
 {
    /// Collects this iterator into a new labeled heterogeneous list
    pub fn collect_into_labeled_hlist<LabelList>(self) -> (output: <Self as CollectIntoLabeledHList<
        LabelList,
    >>::Output) where Self: CollectIntoLabeledHList<LabelList>
        requires
            CollectIntoLabeledHList::<LabelList>::collect_labeled_requires(&self),
        ensures
            CollectIntoLabeledHList::<LabelList>::collect_labeled_ensures(&self, output),
    {
        CollectIntoLabeledHList::<LabelList>::collect_into_labeled_hlist(self)
    }

    /// Returns the next value along with a new iterator advanced to the next
    /// element of the list.
    pub fn next(self) -> (step: (
        <A as Adapter<&'a L::AssocType>>::Output,
        ValuesIterator<'a, T, A>,
    ))
        requires
            self.adapter.adapt_requires(&self.list.head.value),
        ensures
            self.adapter.adapt_ensures(&self.list.head.value, step.1.adapter, step.0),
            step.1.list == &self.list.tail,
    {
        let list = self.list;
        let mut adapter = self.adapter;
        let item = adapter.adapt(&list.head.value);
        (item, ValuesIterator::with_adapter(&list.tail, adapter))
    }

    /// Creates an iterator which calls a [`MapFunc`] on each element.
    ///
    /// See [`MapAdapter`] for more information.
    pub fn map<F>(self, f: F) -> (iter: ValuesIterator<
        'a,
        LVCons<L, T>,
        Cons<MapAdapter<F>, A>,
    >) where F: MapFunc<<A as Adapter<&'a L::AssocType>>::Output>
        ensures
            iter.list == self.list,
            iter.adapter.head.f == f,
            iter.adapter.tail == self.adapter,
    {
        ValuesIterator::with_adapter(self.list, Cons { head: MapAdapter { f }, tail: self.adapter })
    }
}

/// Collects an iterator (either [`ConsIterator`] or [`ValuesIterator`]) into a
/// heterogeneous cons-list.
///
/// The resulting cons-list does not necessarily maintain label information. See
/// [`CollectIntoLabeledHList`] for a version that returns a labeled cons-list.
pub trait CollectIntoHList: Sized {
    /// Output type of collected list
    type Output;

    /// Whether the adapter accepts every element that is still to be visited.
    spec fn collect_requires(&self) -> bool;

    /// Whether `output` holds, in list order, what the adapter may give for the
    /// elements that are still to be visited.
    spec fn collect_ensures(&self, output: Self::Output) -> bool;

    /// Collects the contents of an iterator into a cons-list
    fn collect_into_hlist(self) -> (output: Self::Output)
        requires
            self.collect_requires(),
        ensures
            self.collect_ensures(output),
    ;
}

impl<'a, A> CollectIntoHList for ValuesIterator<'a, Nil, A> {
    type Output = Nil;

    open spec fn collect_requires(&self) -> bool {
        true
    }

    open spec fn collect_ensures(&self, output: Self::Output) -> bool {
        true
    }

    fn collect_into_hlist(self) -> (output: Self::Output) {
        Nil
    }
}

impl<'a, A, L, T> CollectIntoHList for ValuesIterator<'a, LVCons<L, T>, A> where
    L: Label,
    A: Adapter<&'a L::AssocType>,
    ValuesIterator<'a, T, A>: CollectIntoHList,
 {
    type Output = Cons<
        <A as Adapter<&'a L::AssocType>>::Output,
        <ValuesIterator<'a, T, A> as CollectIntoHList>::Output,
    >;

    open spec fn collect_requires(&self) -> bool {
        &&& self.adapter.adapt_requires(&self.list.head.value)
        &&& forall|after: A, item: <A as Adapter<&'a L::AssocType>>::Output|
            self.adapter.adapt_ensures(&self.list.head.value, after, item) ==> (ValuesIterator {
                list: &self.list.tail,
                adapter: after,
            }).collect_requires()
    }

    open spec fn collect_ensures(&self, output: Self::Output) -> bool {
        exists|after: A|
            #[trigger] self.adapter.adapt_ensures(&self.list.head.value, after, output.head)
                && (ValuesIterator { list: &self.list.tail, adapter: after }).collect_ensures(
                output.tail,
            )
    }

    fn collect_into_hlist(self) -> (output: Self::Output) {
        let (item, next_iter) = self.next();
        let tail = next_iter.collect_into_hlist();
        let output = Cons { head: item, tail };
        proof {
            let rest = ValuesIterator { list: &self.list.tail, adapter: next_iter.adapter };
            assert(rest == next_iter);
            assert(self.adapter.adapt_ensures(&self.list.head.value, rest.adapter, output.head));
            assert(rest.collect_ensures(output.tail));
        }
        output
    }
}

impl<'a, A> CollectIntoHList for ConsIterator<'a, Nil, A> {
    type Output = Nil;

    open spec fn collect_requires(&self) -> bool {
        true
    }

    open spec fn collect_ensures(&self, output: Self::Output) -> bool {
        true
    }

    fn collect_into_hlist(self) -> (output: Self::Output) {
        Nil
    }
}

impl<'a, A, H, T> CollectIntoHList for ConsIterator<'a, Cons<H, T>, A> where
    A: Adapter<&'a H>,
    ConsIterator<'a, T, A>: CollectIntoHList,
 {
    type Output = Cons<
        <A as Adapter<&'a H>>::Output,
        <ConsIterator<'a, T, A> as CollectIntoHList>::Output,
    >;

    open spec fn collect_requires(&self) -> bool {
        &&& self.adapter.adapt_requires(&self.list.head)
        &&& forall|after: A, item: <A as Adapter<&'a H>>::Output|
            self.adapter.adapt_ensures(&self.list.head, after, item) ==> (ConsIterator {
                list: &self.list.tail,
                adapter: after,
            }).collect_requires()
    }

    open spec fn collect_ensures(&self, output: Self::Output) -> bool {
        exists|after: A|
            #[trigger] self.adapter.adapt_ensures(&self.list.head, after, output.head) && (ConsIterator {
                list: &self.list.tail,
                adapter: after,
            }).collect_ensures(output.tail)
    }

    fn collect_into_hlist(self) -> (output: Self::Output) {
        let (item, next_iter) = self.next();
        let tail = next_iter.collect_into_hlist();
        let output = Cons { head: item, tail };
        proof {
            let rest = ConsIterator { list: &self.list.tail, adapter: next_iter.adapter };
            assert(rest == next_iter);
            assert(self.adapter.adapt_ensures(&self.list.head, rest.adapter, output.head));
            assert(rest.collect_ensures(output.tail));
        }
        output
    }
}

/// Collects an iterator (either [`ConsIterator`] or [`ValuesIterator`]) into a
/// labeled heterogeneous cons-list with a new set of labels.
///
/// `LabelList` is a list of labels of the same length as the list iterated;
/// each item is wrapped under the label at its place. For collecting into
/// non-labeled lists, see [`CollectIntoHList`].
pub trait CollectIntoLabeledHList<LabelList>: Sized {
    /// Output type of collected list
    type Output;

    /// Whether the adapter accepts every element that is still to be visited.
    spec fn collect_labeled_requires(&self) -> bool;

    /// Whether `output` holds, in list order and each under its new label, what
    /// the adapter may give for the elements that are still to be visited.
    spec fn collect_labeled_ensures(&self, output: Self::Output) -> bool;

    /// Collects the contents of an iterator into a labeled cons-list
    fn collect_into_labeled_hlist(self) -> (output: Self::Output)
        requires
            self.collect_labeled_requires(),
        ensures
            self.collect_labeled_ensures(output),
    ;
}

impl<'a, A> CollectIntoLabeledHList<Nil> for ConsIterator<'a, Nil, A> {
    type Output = Nil;

    open spec fn collect_labeled_requires(&self) -> bool {
        true
    }

    open spec fn collect_labeled_ensures(&self, output: Self::Output) -> bool {
        true
    }

    fn collect_into_labeled_hlist(self) -> (output: Self::Output) {
        Nil
    }
}

impl<'a, TargetL, TargetT, A, L, T> CollectIntoLabeledHList<
    LCons<TargetL, TargetT>,
> for ConsIterator<'a, LVCons<L, T>, A> where
    L: Label,
    TargetL: Label,
    A: Adapter<&'a LabeledValue<L>, Output = TargetL::AssocType>,
    ConsIterator<'a, T, A>: CollectIntoLabeledHList<TargetT>,
 {
    type Output = LVCons<
        TargetL,
        <ConsIterator<'a, T, A> as CollectIntoLabeledHList<TargetT>>::Output,
    >;

    open spec fn collect_labeled_requires(&self) -> bool {
        &&& self.adapter.adapt_requires(&self.list.head)
        &&& forall|after: A, item: TargetL::AssocType|
            self.adapter.adapt_ensures(&self.list.head, after, item) ==> (ConsIterator {
                list: &self.list.tail,
                adapter: after,
            }).collect_labeled_requires()
    }

    open spec fn collect_labeled_ensures(&self, output: Self::Output) -> bool {
        exists|after: A|
            #[trigger] self.adapter.adapt_ensures(&self.list.head, after, output.head.value)
                && (ConsIterator { list: &self.list.tail, adapter: after }).collect_labeled_ensures(
                output.tail,
            )
    }

    fn collect_into_labeled_hlist(self) -> (output: Self::Output) {
        let (item, next_iter) = self.next();
        let tail = next_iter.collect_into_labeled_hlist();
        let output = Cons { head: LabeledValue::new(item), tail };
        proof {
            let rest = ConsIterator { list: &self.list.tail, adapter: next_iter.adapter };
            assert(rest == next_iter);
            assert(self.adapter.adapt_ensures(&self.list.head, rest.adapter, output.head.value));
            assert(rest.collect_labeled_ensures(output.tail));
        }
        output
    }
}

impl<'a, A> CollectIntoLabeledHList<Nil> for ValuesIterator<'a, Nil, A> {
    type Output = Nil;

    open spec fn collect_labeled_requires(&self) -> bool {
        true
    }

    open spec fn collect_labeled_ensures(&self, output: Self::Output) -> bool {
        true
    }

    fn collect_into_labeled_hlist(self) -> (output: Self::Output) {
        Nil
    }
}

impl<'a, TargetL, TargetT, A, L, T> CollectIntoLabeledHList<
    LCons<TargetL, TargetT>,
> for ValuesIterator<'a, LVCons<L, T>, A> where
    L: Label,
    TargetL: Label,
    A: Adapter<&'a L::AssocType, Output = TargetL::AssocType>,
    ValuesIterator<'a, T, A>: CollectIntoLabeledHList<TargetT>,
 {
    type Output = LVCons<
        TargetL,
        <ValuesIterator<'a, T, A> as CollectIntoLabeledHList<TargetT>>::Output,
    >;

    open spec fn collect_labeled_requires(&self) -> bool {
        &&& self.adapter.adapt_requires(&self.list.head.value)
        &&& forall|after: A, item: TargetL::AssocType|
            self.adapter.adapt_ensures(&self.list.head.value, after, item) ==> (ValuesIterator {
                list: &self.list.tail,
                adapter: after,
            }).collect_labeled_requires()
    }

    open spec fn collect_labeled_ensures(&self, output: Self::Output) -> bool {
        exists|after: A|
            #[trigger] self.adapter.adapt_ensures(
                &self.list.head.value,
                after,
                output.head.value,
            ) && (ValuesIterator {
                list: &self.list.tail,
                adapter: after,
            }).collect_labeled_ensures(output.tail)
    }

    fn collect_into_labeled_hlist(self) -> (output: Self::Output) {
        let (item, next_iter) = self.next();
        let tail = next_iter.collect_into_labeled_hlist();
        let output = Cons { head: LabeledValue::new(item), tail };
        proof {
            let rest = ValuesIterator { list: &self.list.tail, adapter: next_iter.adapter };
            assert(rest == next_iter);
            assert(self.adapter.adapt_ensures(
                &self.list.head.value,
                rest.adapter,
                output.head.value,
            ));
            assert(rest.collect_labeled_ensures(output.tail));
        }
        output
    }
}

} // verus!
