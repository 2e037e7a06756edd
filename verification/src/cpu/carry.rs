use vstd::prelude::*;

verus! {

/// True when adding the low nibbles of `left` and `right` carries into bit 4.
pub open spec fn spec_is_half_carry(left: u8, right: u8) -> bool {
    (left & 0x0F) + (right & 0x0F) >= 0x10
}

/// True when subtracting the low nibble of `right` from the low nibble of
/// `left` borrows out of bit 4.
pub open spec fn spec_is_half_borrow(left: u8, right: u8) -> bool {
    (left & 0x0F) < (right & 0x0F)
}

/// The low nibble of a byte is at most 0x0F.
pub proof fn lemma_low_nibble_bound()
    by (bit_vector)
    ensures
        forall|x: u8| #[trigger] (x & 0x0F) < 0x10,
{
}

pub fn is_half_carry(left: u8, right: u8) -> (r: bool)
    ensures
        r == spec_is_half_carry(left, right),
{
    proof {
        lemma_low_nibble_bound();
    }
    let lower_nibble_add = (left & 0x0F) + (right & 0x0F);

    // If the lower nibbles added together carry, bit 4 of the sum is set
    lower_nibble_add >= 0x10
}

pub fn is_half_borrow(left: u8, right: u8) -> (r: bool)
    ensures
        r == spec_is_half_borrow(left, right),
{
    left & 0x0F < right & 0x0F
}

} // verus!
