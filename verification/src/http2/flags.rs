//! Single-bit flags of a frame header byte.
use vstd::prelude::*;

verus! {

/// The bit (or bits) of `mask` are all set in `flags`.
pub open spec fn has_bit(flags: u8, mask: u8) -> bool {
    flags & mask == mask
}

/// `flags` with the bits of `mask` set when `on`, cleared otherwise.
pub open spec fn with_bit(flags: u8, mask: u8, on: bool) -> u8 {
    if on {
        flags | mask
    } else {
        flags & !mask
    }
}

/// `mask` is one of the flag bits that HTTP/2 frames use.
pub open spec fn is_flag_bit(mask: u8) -> bool {
    mask == 0x1 || mask == 0x4 || mask == 0x8 || mask == 0x20
}

/// Setting a flag bit and reading it back gives the value that was set,
/// and leaves every other flag bit as it was.
pub proof fn lemma_with_bit(flags: u8, mask: u8, other: u8, on: bool)
    requires
        is_flag_bit(mask),
        is_flag_bit(other),
        other != mask,
    ensures
        has_bit(with_bit(flags, mask, on), mask) == on,
        has_bit(with_bit(flags, mask, on), other) == has_bit(flags, other),
{
    if on {
        assert((flags | mask) & mask == mask) by (bit_vector);
        assert(((flags | mask) & other == other) == (flags & other == other)) by (bit_vector)
            requires
                other != mask,
                mask == 0x1u8 || mask == 0x4u8 || mask == 0x8u8 || mask == 0x20u8,
                other == 0x1u8 || other == 0x4u8 || other == 0x8u8 || other == 0x20u8,
        ;
    } else {
        assert((flags & !mask) & mask != mask) by (bit_vector)
            requires
                mask == 0x1u8 || mask == 0x4u8 || mask == 0x8u8 || mask == 0x20u8,
        ;
        assert(((flags & !mask) & other == other) == (flags & other == other)) by (bit_vector)
            requires
                other != mask,
                mask == 0x1u8 || mask == 0x4u8 || mask == 0x8u8 || mask == 0x20u8,
                other == 0x1u8 || other == 0x4u8 || other == 0x8u8 || other == 0x20u8,
        ;
    }
}

/// Setting a flag bit to the value that it already has changes nothing.
pub proof fn lemma_with_bit_idempotent(flags: u8, mask: u8)
    requires
        is_flag_bit(mask),
    ensures
        with_bit(flags, mask, has_bit(flags, mask)) == flags,
{
    if flags & mask == mask {
        assert(flags & mask == mask ==> flags | mask == flags) by (bit_vector);
    } else {
        assert(flags & mask != mask ==> flags & !mask == flags) by (bit_vector)
            requires
                mask == 0x1u8 || mask == 0x4u8 || mask == 0x8u8 || mask == 0x20u8,
        ;
    }
}

} // verus!
