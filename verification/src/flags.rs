use vstd::prelude::*;

verus! {

/// Bit position of each CPU status flag within the P register.
#[derive(Clone, Copy, PartialEq, Eq, Structural, Debug)]
pub enum FlagPositionOffset {
    Carry,
    Zero,
    Interrupt,
    Decimal,
    Break,
    /// Bit 5 is never read as meaningful.
    Ignored,
    Overflow,
    Negative,
}

impl FlagPositionOffset {
    pub open spec fn spec_position(self) -> u8 {
        match self {
            FlagPositionOffset::Carry => 0u8,
            FlagPositionOffset::Zero => 1u8,
            FlagPositionOffset::Interrupt => 2u8,
            FlagPositionOffset::Decimal => 3u8,
            FlagPositionOffset::Break => 4u8,
            FlagPositionOffset::Ignored => 5u8,
            FlagPositionOffset::Overflow => 6u8,
            FlagPositionOffset::Negative => 7u8,
        }
    }

    #[verifier::when_used_as_spec(spec_position)]
    pub fn position(self) -> (r: u8)
        ensures
            r == self.spec_position(),
            r < 8,
    {
        match self {
            FlagPositionOffset::Carry => 0,
            FlagPositionOffset::Zero => 1,
            FlagPositionOffset::Interrupt => 2,
            FlagPositionOffset::Decimal => 3,
            FlagPositionOffset::Break => 4,
            FlagPositionOffset::Ignored => 5,
            FlagPositionOffset::Overflow => 6,
            FlagPositionOffset::Negative => 7,
        }
    }
}

/// The single-bit mask that selects a flag within the P register.
pub open spec fn flag_mask(f: FlagPositionOffset) -> u8 {
    1u8 << f.spec_position()
}

/// Whether a flag is set in the P register value `p`.
pub open spec fn flag_set(p: u8, f: FlagPositionOffset) -> bool {
    p & flag_mask(f) != 0
}

/// The carry flag read as an arithmetic carry-in value, 0 or 1.
pub open spec fn carry_in(p: u8) -> u8 {
    p & 1
}

/// Relates a P register before and after an operation that recomputed the
/// zero and negative flags from the result byte `v`: zero is set exactly when
/// `v` is zero, negative copies bit 7 of `v`, and every other flag keeps its
/// old value.
pub open spec fn sets_zn(pre_p: u8, post_p: u8, v: u8) -> bool {
    &&& flag_set(post_p, FlagPositionOffset::Zero) == (v == 0)
    &&& flag_set(post_p, FlagPositionOffset::Negative) == (v & 0x80 != 0)
    &&& forall|g: FlagPositionOffset|
        g != FlagPositionOffset::Zero && g != FlagPositionOffset::Negative ==> #[trigger] flag_set(
            post_p,
            g,
        ) == flag_set(pre_p, g)
}

/// Zero and negative always mirror the result byte: zero is set exactly when
/// the 8-bit result is zero, and negative copies bit 7 of the result.
pub proof fn lemma_zero_negative_from_result(pre_p: u8, post_p: u8, v: u8)
    requires
        sets_zn(pre_p, post_p, v),
    ensures
        flag_set(post_p, FlagPositionOffset::Zero) == (v == 0),
        flag_set(post_p, FlagPositionOffset::Negative) == (v & 0x80 != 0),
{
}

/// The abstract flag reads are exactly the literal bits of the P register:
/// bit 0 carry, bit 1 zero, bit 2 interrupt-disable, bit 3 decimal, bit 4
/// break, bit 5 unused, bit 6 overflow, bit 7 negative.
pub proof fn lemma_flag_bit_positions(p: u8)
    ensures
        flag_set(p, FlagPositionOffset::Carry) == (p & 0x01 != 0),
        flag_set(p, FlagPositionOffset::Zero) == (p & 0x02 != 0),
        flag_set(p, FlagPositionOffset::Interrupt) == (p & 0x04 != 0),
        flag_set(p, FlagPositionOffset::Decimal) == (p & 0x08 != 0),
        flag_set(p, FlagPositionOffset::Break) == (p & 0x10 != 0),
        flag_set(p, FlagPositionOffset::Ignored) == (p & 0x20 != 0),
        flag_set(p, FlagPositionOffset::Overflow) == (p & 0x40 != 0),
        flag_set(p, FlagPositionOffset::Negative) == (p & 0x80 != 0),
{
    assert(1u8 << 0u8 == 0x01u8 && 1u8 << 1u8 == 0x02u8 && 1u8 << 2u8 == 0x04u8 && 1u8 << 3u8
        == 0x08u8 && 1u8 << 4u8 == 0x10u8 && 1u8 << 5u8 == 0x20u8 && 1u8 << 6u8 == 0x40u8 && 1u8
        << 7u8 == 0x80u8) by (bit_vector);
}

/// Setting bit `i` of a byte leaves every other bit alone and makes bit `i` one.
pub proof fn lemma_or_bit(p: u8, i: u8, j: u8)
    by (bit_vector)
    requires
        i < 8,
        j < 8,
    ensures
        ((p | (1u8 << i)) & (1u8 << j) != 0) == (i == j || (p & (1u8 << j) != 0)),
{
}

/// Clearing bit `i` of a byte leaves every other bit alone and makes bit `i` zero.
pub proof fn lemma_clear_bit(p: u8, i: u8, j: u8)
    by (bit_vector)
    requires
        i < 8,
        j < 8,
    ensures
        ((p & !(1u8 << i)) & (1u8 << j) != 0) == (i != j && (p & (1u8 << j) != 0)),
{
}

/// Copying bit 7 of `v` into `p` changes only bit 7.
pub proof fn lemma_copy_bit7(p: u8, v: u8, j: u8)
    by (bit_vector)
    requires
        j < 8,
    ensures
        (((p & !(1u8 << 7u8)) | (v & (1u8 << 7u8))) & (1u8 << j) != 0) == (if j == 7u8 {
            v & 0x80u8 != 0
        } else {
            p & (1u8 << j) != 0
        }),
{
}

/// The low bit of a byte is 0 or 1 and agrees with the carry-flag test.
pub proof fn lemma_carry_in_bit(p: u8)
    by (bit_vector)
    ensures
        p & 1 == 0 || p & 1 == 1,
        (p & 1 == 1) == (p & (1u8 << 0u8) != 0),
{
}

} // verus!
