//! Library for labeled heterogeneous lists.
//!
//! A heterogeneous list is a list of values where each value may have a
//! different type. The lists of this crate are cons-lists whose elements are
//! tagged by labels: unit-like types that implement [`Label`]. Membership of a
//! label in a list, lookup of the element under a label and the union of two
//! lists without a common label are decided by the types alone.
//!
//! - [`cons`]: the list itself, and access to its elements by label.
//! - [`label`]: labels, labeled values, and the labels of a list type.
//! - [`numeral`]: the type-level numerals that identify labels.
//! - [`relation`]: equality of labels and membership of a label in a list.
//! - [`lookup`]: lookup of the element that carries a label.
//! - [`ordered_set`]: lists without a repeated label, and their union.
//! - [`iter`]: iteration, mapping and collecting.
//! - [`uid`] and [`declare`]: what the declaration of a new label decides.
use vstd::prelude::*;

pub mod cons;
pub mod declare;
pub mod iter;
pub mod label;
pub mod lookup;
pub mod numeral;
pub mod ordered_set;
pub mod relation;
pub mod uid;

pub use cons::{cons, Cons, LCons, LVCons, Len, Nil};
pub use label::{
    labeled, labeled_typearg, BuildStrLabels, HasLabels, Label, LabelSeq, LabeledValue, StrLabels,
    Value,
};
pub use lookup::{
    LookupElemByLabel, LookupElemByLabelMatch, LookupElemByLabelMut, LookupElemByLabelMutMatch,
    LookupFrame, LookupFrameMatch,
};
pub use ordered_set::{OrderedHSet, Union};
pub use relation::{Bool, False, LabelEq, Member, MemberMatch, ToBool, True};
