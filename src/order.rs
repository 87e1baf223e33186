//! The IEEE 754 total order on 64-bit floating-point values, read from their
//! bit patterns.
use vstd::prelude::*;
use vstd::relations::total_ordering;

verus! {

/// The sign bit of a 64-bit floating-point bit pattern.
pub const SIGN_BIT: u64 = 0x8000_0000_0000_0000;

/// Maps a bit pattern to an unsigned key whose integer order is the IEEE 754
/// total order of the values: negative values (sign bit set) have all bits
/// flipped, so that a larger magnitude gives a smaller key, and non-negative
/// values get the sign bit set, so that they follow every negative value.
/// On finite values this is numeric order, with `-0.0` just before `+0.0`.
pub open spec fn order_key(bits: u64) -> u64 {
    if bits & SIGN_BIT != 0 {
        !bits
    } else {
        bits | SIGN_BIT
    }
}

/// `a` comes no later than `b` in the total order.
pub open spec fn precedes(a: u64, b: u64) -> bool {
    order_key(a) <= order_key(b)
}

/// The total order as a relation, in the form that vstd's sorting speaks of.
pub open spec fn total_order_leq() -> spec_fn(u64, u64) -> bool {
    |a: u64, b: u64| precedes(a, b)
}

/// Computes `order_key`.
pub fn total_order_key(bits: u64) -> (r: u64)
    ensures
        r == order_key(bits),
{
    if bits & SIGN_BIT != 0 {
        !bits
    } else {
        bits | SIGN_BIT
    }
}

/// Distinct bit patterns have distinct keys.
pub proof fn lemma_order_key_injective(a: u64, b: u64)
    ensures
        order_key(a) == order_key(b) ==> a == b,
{
    assert((a & 0x8000_0000_0000_0000u64 != 0 ==> (b & 0x8000_0000_0000_0000u64 != 0 ==> (!a == !b ==> a == b))))
        by (bit_vector);
    assert((a & 0x8000_0000_0000_0000u64 == 0 ==> (b & 0x8000_0000_0000_0000u64 == 0 ==> ((a | 0x8000_0000_0000_0000u64) == (b | 0x8000_0000_0000_0000u64) ==> a == b))))
        by (bit_vector);
    assert((a & 0x8000_0000_0000_0000u64 != 0 ==> (b & 0x8000_0000_0000_0000u64 == 0 ==> !a != (b | 0x8000_0000_0000_0000u64))))
        by (bit_vector);
    assert((a & 0x8000_0000_0000_0000u64 == 0 ==> (b & 0x8000_0000_0000_0000u64 != 0 ==> (a | 0x8000_0000_0000_0000u64) != !b)))
        by (bit_vector);
}

/// `precedes` is a total order on bit patterns.
pub proof fn lemma_total_order()
    ensures
        total_ordering(total_order_leq()),
{
    assert forall|a: u64, b: u64|
        #[trigger] total_order_leq()(a, b) && #[trigger] total_order_leq()(b, a) implies a == b by {
        lemma_order_key_injective(a, b);
    }
}

} // verus!
