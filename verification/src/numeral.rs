//! Type-level unsigned numerals, which serve as the identifiers of labels.
//!
//! A numeral is a type of the `typenum` crate: `UTerm`, the numeral without
//! bits, or `UInt<U, B>`, the numeral `U` with the bit `B` (`B0` or `B1`)
//! written behind it. This module says which bits a numeral is written with,
//! which number they stand for, and decides whether two numerals are written
//! with the same bits.
use vstd::prelude::*;
use typenum::{B0, B1, UInt, UTerm};

verus! {

/// The type `typenum::B0`, the bit that is not set. It is a marker without
/// data, and nothing is claimed of its values.
#[verifier::external_type_specification]
#[verifier::external_body]
pub struct ExB0(typenum::B0);

/// The type `typenum::B1`, the bit that is set. It is a marker without data,
/// and nothing is claimed of its values.
#[verifier::external_type_specification]
#[verifier::external_body]
pub struct ExB1(typenum::B1);

/// The type `typenum::UTerm`, the numeral without bits. It is a marker without
/// data, and nothing is claimed of its values.
#[verifier::external_type_specification]
#[verifier::external_body]
pub struct ExUTerm(typenum::UTerm);

/// The type `typenum::UInt`, a numeral with one more bit behind it. It is a
/// marker, and nothing is claimed of its values.
#[verifier::external_type_specification]
#[verifier::external_body]
#[verifier::reject_recursive_types(U)]
#[verifier::reject_recursive_types(B)]
pub struct ExUInt<U, B>(typenum::UInt<U, B>);

/// The number that a sequence of bits stands for, most significant bit first.
pub open spec fn bits_value(bits: Seq<bool>) -> nat
    decreases bits.len(),
{
    if bits.len() == 0 {
        0
    } else {
        2 * bits_value(bits.drop_last()) + if bits.last() { 1nat } else { 0nat }
    }
}

/// A type-level bit.
pub trait Bit {
    /// Whether the bit is set.
    spec fn bit() -> bool;

    /// Returns whether the bit is set.
    fn to_bool() -> (b: bool)
        ensures
            b == Self::bit(),
    ;
}

impl Bit for B0 {
    open spec fn bit() -> bool {
        false
    }

    fn to_bool() -> (b: bool) {
        false
    }
}

impl Bit for B1 {
    open spec fn bit() -> bool {
        true
    }

    fn to_bool() -> (b: bool) {
        true
    }
}

/// A type-level unsigned numeral.
pub trait Numeral {
    /// The bits that the numeral is written with, most significant first.
    spec fn bits() -> Seq<bool>;

    /// Returns the number that the numeral stands for, which has to be one
    /// that `usize` holds.
    fn to_usize() -> (n: usize)
        requires
            bits_value(Self::bits()) <= usize::MAX,
        ensures
            n == bits_value(Self::bits()),
    ;
}

impl Numeral for UTerm {
    open spec fn bits() -> Seq<bool> {
        Seq::empty()
    }

    fn to_usize() -> (n: usize) {
        0
    }
}

impl<U: Numeral, B: Bit> Numeral for UInt<U, B> {
    open spec fn bits() -> Seq<bool> {
        U::bits().push(B::bit())
    }

    fn to_usize() -> (n: usize) {
        proof {
            assert(Self::bits().drop_last() =~= U::bits());
        }
        let high: usize = U::to_usize();
        if B::to_bool() {
            2 * high + 1
        } else {
            2 * high
        }
    }
}

/// Type-level equality of two numerals, decided bit position by bit position.
///
/// `Output` is `B1` where both numerals are written with the same bits and
/// `B0` otherwise.
pub trait NumeralEq<Rhs: Numeral>: Numeral {
    /// `B1` if the numerals are written with the same bits, `B0` otherwise.
    type Output: Bit;

    /// The output is set exactly when both numerals are written with the same
    /// bits.
    proof fn lemma_numeral_eq()
        ensures
            <Self::Output as Bit>::bit() == (Self::bits() == Rhs::bits()),
    ;
}

impl NumeralEq<UTerm> for UTerm {
    type Output = B1;

    proof fn lemma_numeral_eq() {
    }
}

impl<U: Numeral, B: Bit> NumeralEq<UTerm> for UInt<U, B> {
    type Output = B0;

    proof fn lemma_numeral_eq() {
        assert(Self::bits().len() == U::bits().len() + 1);
    }
}

impl<U: Numeral, B: Bit> NumeralEq<UInt<U, B>> for UTerm {
    type Output = B0;

    proof fn lemma_numeral_eq() {
        assert(<UInt<U, B> as Numeral>::bits().len() == U::bits().len() + 1);
    }
}

impl<Ul: NumeralEq<Ur>, Ur: Numeral> NumeralEq<UInt<Ur, B0>> for UInt<Ul, B0> {
    type Output = <Ul as NumeralEq<Ur>>::Output;

    proof fn lemma_numeral_eq() {
        <Ul as NumeralEq<Ur>>::lemma_numeral_eq();
        lemma_push_eq(Ul::bits(), false, Ur::bits(), false);
    }
}

impl<Ul: NumeralEq<Ur>, Ur: Numeral> NumeralEq<UInt<Ur, B1>> for UInt<Ul, B1> {
    type Output = <Ul as NumeralEq<Ur>>::Output;

    proof fn lemma_numeral_eq() {
        <Ul as NumeralEq<Ur>>::lemma_numeral_eq();
        lemma_push_eq(Ul::bits(), true, Ur::bits(), true);
    }
}

impl<Ul: Numeral, Ur: Numeral> NumeralEq<UInt<Ur, B1>> for UInt<Ul, B0> {
    type Output = B0;

    proof fn lemma_numeral_eq() {
        lemma_push_eq(Ul::bits(), false, Ur::bits(), true);
    }
}

impl<Ul: Numeral, Ur: Numeral> NumeralEq<UInt<Ur, B0>> for UInt<Ul, B1> {
    type Output = B0;

    proof fn lemma_numeral_eq() {
        lemma_push_eq(Ul::bits(), true, Ur::bits(), false);
    }
}

/// Two sequences that each end in one more bit are equal exactly when the
/// sequences before the last bit are equal and the last bits agree.
pub proof fn lemma_push_eq(a: Seq<bool>, x: bool, b: Seq<bool>, y: bool)
    ensures
        (a.push(x) == b.push(y)) == (a == b && x == y),
{
    if a.push(x) == b.push(y) {
        assert(a.push(x).drop_last() =~= a);
        assert(b.push(y).drop_last() =~= b);
        assert(a.push(x).last() == x);
        assert(b.push(y).last() == y);
    }
}

} // verus!
