use crate::constants::{lemma_round_constants, published_round_constants, round_constant_spec};
use crate::round::round_spec;
use vstd::prelude::*;

verus! {

/// The state after one round for each constant of `constants`, in order.
pub open spec fn apply_rounds(s: Seq<u64>, constants: Seq<u64>) -> Seq<u64>
    decreases constants.len(),
{
    if constants.len() == 0 {
        s
    } else {
        round_spec(apply_rounds(s, constants.drop_last()), constants.last())
    }
}

/// The constants of the last `rounds` rounds of the twelve-round schedule, as
/// the formula gives them: those of rounds `12 - rounds` to `11`.
pub open spec fn schedule_tail(rounds: nat) -> Seq<u64> {
    Seq::new(rounds, |i: int| round_constant_spec((12 - rounds + i) as u64))
}

/// The constants of the twelve-round permutation: the whole published
/// schedule.
pub open spec fn constants_12() -> Seq<u64> {
    published_round_constants()
}

/// The constants of the eight-round permutation: the last eight of the
/// published schedule, `0xb4` to `0x4b`.
pub open spec fn constants_8() -> Seq<u64> {
    published_round_constants().subrange(4, 12)
}

/// The constants of the six-round permutation: the last six of the published
/// schedule, `0x96` to `0x4b`.
pub open spec fn constants_6() -> Seq<u64> {
    published_round_constants().subrange(6, 12)
}

/// The tail of the schedule holds the published constants of the rounds it
/// covers.
pub proof fn lemma_schedule_tail(rounds: nat)
    requires
        rounds <= 12,
    ensures
        schedule_tail(rounds) == published_round_constants().subrange(12 - rounds, 12),
{
    assert forall|i: int| 0 <= i < rounds implies schedule_tail(rounds)[i]
        == published_round_constants().subrange(12 - rounds, 12)[i] by {
        lemma_round_constants((12 - rounds + i) as u64);
    }
    assert(schedule_tail(rounds) =~= published_round_constants().subrange(12 - rounds, 12));
}

/// For six, eight and twelve rounds, the rounds that the parameterized
/// permutation applies are those of the fixed-count permutation, so both end
/// in the same state.
pub proof fn lemma_parameterized_matches_fixed(s: Seq<u64>)
    ensures
        apply_rounds(s, schedule_tail(6)) == apply_rounds(s, constants_6()),
        apply_rounds(s, schedule_tail(8)) == apply_rounds(s, constants_8()),
        apply_rounds(s, schedule_tail(12)) == apply_rounds(s, constants_12()),
{
    lemma_schedule_tail(6);
    lemma_schedule_tail(8);
    lemma_schedule_tail(12);
    assert(published_round_constants().subrange(0, 12) =~= published_round_constants());
}

} // verus!
