use ascon::{pad, round, round_constant, State};

#[test]
fn pad_0to7() {
    assert_eq!(pad(0), 0x8000000000000000);
    assert_eq!(pad(1), 0x80000000000000);
    assert_eq!(pad(2), 0x800000000000);
    assert_eq!(pad(3), 0x8000000000);
    assert_eq!(pad(4), 0x80000000);
    assert_eq!(pad(5), 0x800000);
    assert_eq!(pad(6), 0x8000);
    assert_eq!(pad(7), 0x80);
}

#[test]
fn round_constants() {
    assert_eq!(round_constant(0), 0xf0);
    assert_eq!(round_constant(1), 0xe1);
    assert_eq!(round_constant(2), 0xd2);
    assert_eq!(round_constant(3), 0xc3);
    assert_eq!(round_constant(4), 0xb4);
    assert_eq!(round_constant(5), 0xa5);
    assert_eq!(round_constant(6), 0x96);
    assert_eq!(round_constant(7), 0x87);
    assert_eq!(round_constant(8), 0x78);
    assert_eq!(round_constant(9), 0x69);
    assert_eq!(round_constant(10), 0x5a);
    assert_eq!(round_constant(11), 0x4b);
}

#[test]
fn one_round() {
    let state = round(
        [
            0x0123456789abcdef,
            0x23456789abcdef01,
            0x456789abcdef0123,
            0x6789abcdef012345,
            0x89abcde01234567f,
        ],
        0x1f,
    );
    assert_eq!(
        state,
        [
            0x3c1748c9be2892ce,
            0x5eafb305cd26164f,
            0xf9470254bb3a4213,
            0xf0428daf0c5d3948,
            0x281375af0b294899
        ]
    );
}

#[test]
fn state_permute_12() {
    let mut state = State::new(
        0x0123456789abcdef,
        0xef0123456789abcd,
        0xcdef0123456789ab,
        0xabcdef0123456789,
        0x89abcdef01234567,
    );
    state.permute_12();
    assert_eq!(state[0], 0x206416dfc624bb14);
    assert_eq!(state[1], 0x1b0c47a601058aab);
    assert_eq!(state[2], 0x8934cfc93814cddd);
    assert_eq!(state[3], 0xa9738d287a748e4b);
    assert_eq!(state[4], 0xddd934f058afc7e1);
}

#[test]
fn state_permute_6() {
    let mut state = State::new(
        0x0123456789abcdef,
        0xef0123456789abcd,
        0xcdef0123456789ab,
        0xabcdef0123456789,
        0x89abcdef01234567,
    );
    state.permute_6();
    assert_eq!(state[0], 0xc27b505c635eb07f);
    assert_eq!(state[1], 0xd388f5d2a72046fa);
    assert_eq!(state[2], 0x9e415c204d7b15e7);
    assert_eq!(state[3], 0xce0d71450fe44581);
    assert_eq!(state[4], 0xdd7c5fef57befe48);
}

#[test]
fn state_permute_8() {
    let mut state = State::new(
        0x0123456789abcdef,
        0xef0123456789abcd,
        0xcdef0123456789ab,
        0xabcdef0123456789,
        0x89abcdef01234567,
    );
    state.permute_8();
    assert_eq!(state[0], 0x67ed228272f46eee);
    assert_eq!(state[1], 0x80bc0b097aad7944);
    assert_eq!(state[2], 0x2fa599382c6db215);
    assert_eq!(state[3], 0x368133fae2f7667a);
    assert_eq!(state[4], 0x28cefb195a7c651c);
}

#[test]
fn state_permute_n() {
    let mut state = State::new(
        0x0123456789abcdef,
        0xef0123456789abcd,
        0xcdef0123456789ab,
        0xabcdef0123456789,
        0x89abcdef01234567,
    );
    let mut state2 = state.clone();

    state.permute_6();
    state2.permute_n(6);
    assert_eq!(state.as_ref(), state2.as_ref());

    state.permute_8();
    state2.permute_n(8);
    assert_eq!(state.as_ref(), state2.as_ref());

    state.permute_12();
    state2.permute_n(12);
    assert_eq!(state.as_ref(), state2.as_ref());
}

fn sample() -> State {
    State::new(
        0x0123456789abcdef,
        0xef0123456789abcd,
        0xcdef0123456789ab,
        0xabcdef0123456789,
        0x89abcdef01234567,
    )
}

#[test]
fn permute_1_is_the_last_round() {
    let mut state = sample();
    state.permute_1();
    let expected = round(
        [
            0x0123456789abcdef,
            0xef0123456789abcd,
            0xcdef0123456789ab,
            0xabcdef0123456789,
            0x89abcdef01234567,
        ],
        0x4b,
    );
    assert_eq!(state.as_ref(), &expected[..]);

    let mut by_count = sample();
    by_count.permute_n(1);
    assert_eq!(state, by_count);
}

#[test]
fn permute_n_of_zero_rounds_changes_nothing() {
    let mut state = sample();
    state.permute_n(0);
    assert_eq!(state, sample());
}

#[test]
fn permute_n_uses_the_tail_of_the_schedule() {
    let mut by_count = sample();
    by_count.permute_n(3);
    let mut x = [
        0x0123456789abcdef,
        0xef0123456789abcd,
        0xcdef0123456789ab,
        0xabcdef0123456789,
        0x89abcdef01234567,
    ];
    x = round(x, 0x69);
    x = round(x, 0x5a);
    x = round(x, 0x4b);
    assert_eq!(by_count.as_ref(), &x[..]);
}

#[test]
fn fixed_counts_are_repeated_single_rounds() {
    let start = [
        0x0123456789abcdef,
        0xef0123456789abcd,
        0xcdef0123456789ab,
        0xabcdef0123456789,
        0x89abcdef01234567,
    ];
    let constants: [u64; 12] = [
        0xf0, 0xe1, 0xd2, 0xc3, 0xb4, 0xa5, 0x96, 0x87, 0x78, 0x69, 0x5a, 0x4b,
    ];
    for rounds in [6usize, 8, 12] {
        let mut x = start;
        for c in &constants[12 - rounds..] {
            x = round(x, *c);
        }
        let mut state = State::from(&start);
        match rounds {
            6 => state.permute_6(),
            8 => state.permute_8(),
            _ => state.permute_12(),
        }
        assert_eq!(state.as_ref(), &x[..]);
    }
}

#[test]
fn parameterized_matches_fixed_on_other_states() {
    let starts: [[u64; 5]; 3] = [
        [0, 0, 0, 0, 0],
        [u64::MAX, u64::MAX, u64::MAX, u64::MAX, u64::MAX],
        [1, 0x8000000000000000, 0x00000000ffffffff, 0xffffffff00000000, 0x5555aaaa5555aaaa],
    ];
    for start in &starts {
        let mut fixed = State::from(start);
        let mut counted = State::from(start);
        fixed.permute_6();
        counted.permute_n(6);
        assert_eq!(fixed, counted);

        let mut fixed = State::from(start);
        let mut counted = State::from(start);
        fixed.permute_8();
        counted.permute_n(8);
        assert_eq!(fixed, counted);

        let mut fixed = State::from(start);
        let mut counted = State::from(start);
        fixed.permute_12();
        counted.permute_n(12);
        assert_eq!(fixed, counted);
    }
}

#[test]
fn round_of_the_zero_state() {
    // With all words zero and the constant zero, every column is zero; the
    // S-box maps it to zero on all bits but word 2, which the diffusion layer
    // complements.
    let out = round([0, 0, 0, 0, 0], 0);
    assert_eq!(out, [0, 0, u64::MAX, 0, 0]);
}

#[test]
fn round_adds_the_constant_into_word_2_only() {
    let a = round([1, 2, 3 ^ 0xf0, 4, 5], 0);
    let b = round([1, 2, 3, 4, 5], 0xf0);
    assert_eq!(a, b);
}

#[test]
fn round_treats_both_halves_of_a_word_alike() {
    // Swapping the halves of every input word swaps the halves of the words
    // after substitution; rotation by 32 undoes the swap in the diffusion.
    let x: [u64; 5] = [
        0x0123456789abcdef,
        0x23456789abcdef01,
        0x456789abcdef0123,
        0x6789abcdef012345,
        0x89abcde01234567f,
    ];
    let swapped = [
        x[0].rotate_right(32),
        x[1].rotate_right(32),
        x[2].rotate_right(32),
        x[3].rotate_right(32),
        x[4].rotate_right(32),
    ];
    let c: u64 = 0x0000001f0000001f;
    let a = round(x, c);
    let b = round(swapped, c);
    for i in 0..5 {
        assert_eq!(a[i].rotate_right(32), b[i]);
    }
}
