//! Identifiers for new labels: a counter that never gives a number twice, and
//! the bits with which a number is written as a type-level numeral.
use vstd::prelude::*;
use vstd::arithmetic::div_mod::{lemma_mod_breakdown, lemma_small_mod};
use crate::numeral::bits_value;

verus! {

/// The source of identifiers for label declarations.
///
/// Every declaration takes its identifier from one counter. The counter only
/// ever goes up, so no two declarations get the same number.
pub struct UidCounter {
    next: usize,
}

impl UidCounter {
    /// How many identifiers this counter has given out. It is also the next
    /// identifier.
    pub closed spec fn issued(&self) -> nat {
        self.next as nat
    }

    /// Whether this counter has given out `id`.
    pub open spec fn has_issued(&self, id: usize) -> bool {
        id < self.issued()
    }

    /// A counter that has given out no identifier yet.
    pub fn new() -> (counter: UidCounter)
        ensures
            counter.issued() == 0,
    {
        UidCounter { next: 0 }
    }

    /// A counter that goes on behind one that has given out `issued`
    /// identifiers.
    pub fn resume(issued: usize) -> (counter: UidCounter)
        ensures
            counter.issued() == issued,
    {
        UidCounter { next: issued }
    }

    /// Gives out the next identifier: the number of identifiers given out
    /// before. It is one that this counter has not given out before, and every
    /// later one is larger. Once the counter has reached the largest `usize` it
    /// gives out nothing more.
    pub fn mint(&mut self) -> (id: Option<usize>)
        ensures
            old(self).issued() < usize::MAX ==> id == Some(old(self).issued() as usize)
                && final(self).issued() == old(self).issued() + 1,
            old(self).issued() >= usize::MAX ==> id.is_none() && final(self).issued() == old(
                self,
            ).issued(),
            id matches Some(n) ==> !old(self).has_issued(n) && final(self).has_issued(n),
            forall|earlier: usize|
                old(self).has_issued(earlier) ==> final(self).has_issued(earlier) && id != Some(
                    earlier,
                ),
    {
        if self.next < usize::MAX {
            let id = self.next;
            self.next = id + 1;
            Some(id)
        } else {
            None
        }
    }
}

/// Whether `p` is a power of two.
pub open spec fn is_power_of_two(p: nat) -> bool
    decreases p,
{
    p == 1 || (p > 1 && p % 2 == 0 && is_power_of_two(p / 2))
}

/// The smallest power of two that is not smaller than `value`.
pub open spec fn next_power_of_two(value: nat) -> nat
    decreases value,
{
    if value <= 1 {
        1
    } else {
        2 * next_power_of_two((value + 1) / 2)
    }
}

/// The binary digits of `target` at the places `curr_val`, `curr_val / 2`, ...,
/// `1`, in this order.
pub open spec fn bits_below(target: nat, curr_val: nat) -> Seq<bool>
    decreases curr_val,
{
    if curr_val == 0 {
        Seq::empty()
    } else {
        seq![(target / curr_val) % 2 == 1] + bits_below(target, curr_val / 2)
    }
}

/// The bits with which an identifier is written as a type-level numeral, most
/// significant bit first: none for zero, and otherwise one bit for each power of
/// two from the smallest that is not below the identifier down to one.
pub open spec fn uint_bits(value: nat) -> Seq<bool> {
    if value == 0 {
        Seq::empty()
    } else {
        bits_below(value, next_power_of_two(value))
    }
}

/// `next_power_of_two` gives a power of two that is not below its argument, and
/// half of it is below the argument.
pub proof fn lemma_next_power_of_two(value: nat)
    ensures
        is_power_of_two(next_power_of_two(value)),
        next_power_of_two(value) >= value,
        value > 1 ==> next_power_of_two(value) / 2 < value,
    decreases value,
{
    if value > 1 {
        lemma_next_power_of_two((value + 1) / 2);
    }
}

/// The power of two that is not below `value` and whose half is below `value`
/// is `next_power_of_two(value)`.
pub proof fn lemma_next_power_of_two_unique(value: nat, p: nat)
    requires
        is_power_of_two(p),
        p >= value,
        p == 1 || p / 2 < value,
    ensures
        p == next_power_of_two(value),
    decreases value,
{
    if value <= 1 {
        if p != 1 {
            assert(p / 2 >= 1);
        }
    } else {
        assert(p != 1);
        let q = p / 2;
        assert(q == 1 || q / 2 < (value + 1) / 2);
        lemma_next_power_of_two_unique((value + 1) / 2, q);
    }
}

/// What a sequence of bits stands for once the digits of `target` from the
/// place `curr_val` down are written behind it.
pub proof fn lemma_bits_below_value(front: Seq<bool>, target: nat, curr_val: nat)
    requires
        is_power_of_two(curr_val),
    ensures
        bits_value(front + bits_below(target, curr_val)) == bits_value(front) * (2 * curr_val)
            + target % (2 * curr_val),
    decreases curr_val,
{
    let bit = (target / curr_val) % 2 == 1;
    let digit: nat = if bit {
        1
    } else {
        0
    };
    let longer = front.push(bit);
    assert(longer.drop_last() =~= front);
    assert(longer.last() == bit);
    assert(bits_value(longer) == 2 * bits_value(front) + digit);
    lemma_mod_breakdown(target as int, curr_val as int, 2);
    assert(target % (curr_val * 2) == curr_val * digit + target % curr_val);
    let half = curr_val / 2;
    assert(bits_below(target, curr_val) == seq![bit] + bits_below(target, half));
    if curr_val == 1 {
        assert(bits_below(target, 0) =~= Seq::<bool>::empty());
        assert(front + bits_below(target, 1) =~= longer);
        assert(target % 1 == 0);
        assert(bits_value(longer) == bits_value(front) * (2 * curr_val) + target % (2
            * curr_val)) by (nonlinear_arith)
            requires
                curr_val == 1,
                bits_value(longer) == 2 * bits_value(front) + digit,
                target % (curr_val * 2) == curr_val * digit + target % curr_val,
                target % curr_val == 0,
        ;
    } else {
        assert(front + bits_below(target, curr_val) =~= longer + bits_below(target, half));
        lemma_bits_below_value(longer, target, half);
        assert(bits_value(longer) * (2 * half) + target % (2 * half) == bits_value(front) * (2
            * curr_val) + target % (2 * curr_val)) by (nonlinear_arith)
            requires
                2 * half == curr_val,
                bits_value(longer) == 2 * bits_value(front) + digit,
                target % (curr_val * 2) == curr_val * digit + target % curr_val,
        ;
    }
}

/// The bits written for an identifier stand for that identifier.
pub proof fn lemma_uint_bits_value(value: nat)
    ensures
        bits_value(uint_bits(value)) == value,
{
    assert(bits_value(Seq::<bool>::empty()) == 0);
    if value > 0 {
        let top = next_power_of_two(value);
        lemma_next_power_of_two(value);
        lemma_bits_below_value(Seq::empty(), value, top);
        assert(Seq::<bool>::empty() + bits_below(value, top) =~= bits_below(value, top));
        lemma_small_mod(value, 2 * top);
        assert(bits_value(Seq::<bool>::empty()) * (2 * top) == 0);
    }
}

/// Different identifiers are written with different bits.
pub proof fn lemma_uint_bits_injective(a: nat, b: nat)
    requires
        a != b,
    ensures
        uint_bits(a) != uint_bits(b),
{
    lemma_uint_bits_value(a);
    lemma_uint_bits_value(b);
}

/// Writes the binary digits of `target` behind `curr_toks`, from the place
/// `curr_val` down to the place one.
fn generate_uint_recurse(target: usize, curr_val: usize, curr_toks: Vec<bool>) -> (toks: Vec<bool>)
    ensures
        toks@ == curr_toks@ + bits_below(target as nat, curr_val as nat),
    decreases curr_val,
{
    if curr_val == 0 {
        proof {
            assert(curr_toks@ + bits_below(target as nat, 0) =~= curr_toks@);
        }
        curr_toks
    } else {
        // compute most significant bit
        let bit = (target / curr_val) % 2 == 1;
        // add most significant bit and recurse to add rest
        let mut next_toks = curr_toks;
        next_toks.push(bit);
        let toks = generate_uint_recurse(target, curr_val / 2, next_toks);
        proof {
            assert(toks@ =~= curr_toks@ + bits_below(target as nat, curr_val as nat));
        }
        toks
    }
}

/// Writes an identifier as the bits of a type-level numeral, most significant
/// bit first.
pub fn generate_uint(value: usize) -> (bits: Vec<bool>)
    ensures
        bits@ == uint_bits(value as nat),
{
    if value == 0 {
        return Vec::new();
    }
    let mut start: usize = 1;
    while start < value && start <= usize::MAX / 2
        invariant
            value > 0,
            is_power_of_two(start as nat),
            start == 1 || start / 2 < value,
        decreases usize::MAX - start,
    {
        start = start * 2;
    }
    let mut toks: Vec<bool> = Vec::new();
    proof {
        if start >= value {
            lemma_next_power_of_two_unique(value as nat, start as nat);
        } else {
            // the next power of two is one more than `usize` holds
            let top = 2 * (start as nat);
            assert(is_power_of_two(top));
            lemma_next_power_of_two_unique(value as nat, top);
            assert((value as nat) / top == 0) by (nonlinear_arith)
                requires
                    value < top,
            ;
            assert(bits_below(value as nat, top) =~= seq![false] + bits_below(
                value as nat,
                start as nat,
            ));
        }
    }
    if start < value {
        toks.push(false);
    }
    let bits = generate_uint_recurse(value, start, toks);
    proof {
        assert(bits@ =~= uint_bits(value as nat));
    }
    bits
}

} // verus!
