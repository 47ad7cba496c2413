use vstd::prelude::*;

verus! {

/// A flag as a one-bit field value.
pub open spec fn bit_of(b: bool) -> u32 {
    if b {
        1
    } else {
        0
    }
}

/// Bit `k` of `raw` as a flag.
pub open spec fn flag_at(raw: u32, k: u32) -> bool {
    (raw >> k) & 1 == 1
}

/// Reads bit `k` of `raw` as a flag.
pub fn read_flag(raw: u32, k: u32) -> (r: bool)
    requires
        k < 32,
    ensures
        r == flag_at(raw, k),
{
    (raw >> k) & 1 == 1
}

/// Writes a flag as a one-bit field value.
pub fn flag_bit(b: bool) -> (r: u32)
    ensures
        r == bit_of(b),
        r <= 1,
{
    if b {
        1
    } else {
        0
    }
}

/// Writing a flag read from bit `k` gives that bit back.
pub proof fn lemma_bit_of_flag_at(raw: u32, k: u32)
    ensures
        bit_of(flag_at(raw, k)) == (raw >> k) & 1,
{
    assert((raw >> k) & 1 <= 1) by (bit_vector);
}

} // verus!
