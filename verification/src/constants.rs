use vstd::prelude::*;

verus! {

/// The constant of round `round` of the twelve-round schedule:
/// `((15 - round) << 4) | round`, for `round < 12`.
pub open spec fn round_constant_spec(round: u64) -> u64 {
    (((0xf - round) as u64) << 4) | round
}

/// The twelve round constants as they are published, first round first.
pub open spec fn published_round_constants() -> Seq<u64> {
    seq![0xf0, 0xe1, 0xd2, 0xc3, 0xb4, 0xa5, 0x96, 0x87, 0x78, 0x69, 0x5a, 0x4b]
}

/// The padding mask for `n` bytes, `n <= 7`: the single bit at position
/// `63 - 8 * n`.
pub open spec fn pad_spec(n: usize) -> u64 {
    1u64 << ((63 - 8 * n) as u64)
}

/// The formula gives the published constant for each of the twelve rounds.
pub proof fn lemma_round_constants(round: u64)
    requires
        round < 12,
    ensures
        round_constant_spec(round) == published_round_constants()[round as int],
{
    assert(round_constant_spec(0) == 0xf0) by (bit_vector);
    assert(round_constant_spec(1) == 0xe1) by (bit_vector);
    assert(round_constant_spec(2) == 0xd2) by (bit_vector);
    assert(round_constant_spec(3) == 0xc3) by (bit_vector);
    assert(round_constant_spec(4) == 0xb4) by (bit_vector);
    assert(round_constant_spec(5) == 0xa5) by (bit_vector);
    assert(round_constant_spec(6) == 0x96) by (bit_vector);
    assert(round_constant_spec(7) == 0x87) by (bit_vector);
    assert(round_constant_spec(8) == 0x78) by (bit_vector);
    assert(round_constant_spec(9) == 0x69) by (bit_vector);
    assert(round_constant_spec(10) == 0x5a) by (bit_vector);
    assert(round_constant_spec(11) == 0x4b) by (bit_vector);
}

/// Produce mask for padding.
pub fn pad(n: usize) -> (mask: u64)
    requires
        n <= 7,
    ensures
        mask == pad_spec(n),
{
    let shift: u64 = 56 - 8 * (n as u64);
    assert(0x80u64 << shift == 1u64 << ((shift + 7) as u64)) by (bit_vector)
        requires
            shift <= 56,
    ;
    0x80u64 << shift
}

/// Compute round constant
pub fn round_constant(round: u64) -> (c: u64)
    requires
        round < 12,
    ensures
        c == round_constant_spec(round),
{
    ((0xfu64 - round) << 4) | round
}

} // verus!
