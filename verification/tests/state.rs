use ascon::{Error, ScopedState, State};

#[test]
fn state_convert_bytes() {
    let state = State::new(
        0x0123456789abcdef,
        0xef0123456789abcd,
        0xcdef0123456789ab,
        0xabcdef0123456789,
        0x89abcdef01234567,
    );
    let bytes = state.as_bytes();

    // test TryFrom<&[u8]>
    let state2 = State::try_from(&bytes[..]);
    assert_eq!(state2.expect("try_from bytes").as_ref(), state.as_ref());

    let state2 = State::from(&bytes);
    assert_eq!(state2.as_ref(), state.as_ref());
}

#[test]
fn as_bytes_is_big_endian() {
    let state = State::new(0x0123456789abcdef, 0, 1, 0xff00000000000000, 0x00000000000000ff);
    let bytes = state.as_bytes();
    assert_eq!(&bytes[0..8], &[0x01, 0x23, 0x45, 0x67, 0x89, 0xab, 0xcd, 0xef]);
    assert_eq!(&bytes[8..16], &[0; 8]);
    assert_eq!(&bytes[16..24], &[0, 0, 0, 0, 0, 0, 0, 1]);
    assert_eq!(&bytes[24..32], &[0xff, 0, 0, 0, 0, 0, 0, 0]);
    assert_eq!(&bytes[32..40], &[0, 0, 0, 0, 0, 0, 0, 0xff]);
}

#[test]
fn from_bytes_is_big_endian() {
    let mut bytes = [0u8; 40];
    for (i, b) in bytes.iter_mut().enumerate() {
        *b = i as u8;
    }
    let state = State::from(&bytes);
    assert_eq!(state[0], 0x0001020304050607);
    assert_eq!(state[1], 0x08090a0b0c0d0e0f);
    assert_eq!(state[2], 0x1011121314151617);
    assert_eq!(state[3], 0x18191a1b1c1d1e1f);
    assert_eq!(state[4], 0x2021222324252627);
}

#[test]
fn bytes_round_trip() {
    let states = [
        State::default(),
        State::new(u64::MAX, u64::MAX, u64::MAX, u64::MAX, u64::MAX),
        State::new(1, 2, 3, 4, 5),
        State::new(
            0x8000000000000000,
            0x0000000000000001,
            0x7fffffffffffffff,
            0xfedcba9876543210,
            0x00ff00ff00ff00ff,
        ),
    ];
    for state in &states {
        let bytes = state.as_bytes();
        assert_eq!(&State::from(&bytes), state);
        assert_eq!(State::try_from(&bytes[..]), Ok(state.clone()));
    }
}

#[test]
fn bytes_of_wrong_length_are_rejected() {
    let bytes = [0u8; 64];
    for len in [0usize, 1, 8, 39, 41, 64] {
        assert_eq!(State::try_from(&bytes[..len]), Err(Error::InvalidLength));
    }
    assert!(State::try_from(&bytes[..40]).is_ok());
}

#[test]
fn words_of_wrong_length_are_rejected() {
    let words = [7u64; 8];
    for len in [0usize, 1, 4, 6, 8] {
        assert_eq!(State::try_from(&words[..len]), Err(Error::InvalidLength));
    }
}

#[test]
fn five_words_are_taken_as_they_are() {
    let words: [u64; 5] = [10, 20, 30, 40, 50];
    let from_slice = State::try_from(&words[..]).expect("five words");
    assert_eq!(from_slice.as_ref(), &words[..]);
    let from_array = State::from(&words);
    assert_eq!(from_array.as_ref(), &words[..]);
    assert_eq!(from_slice, State::new(10, 20, 30, 40, 50));
}

#[test]
fn default_is_all_zero() {
    let state = State::default();
    assert_eq!(state.as_ref(), &[0u64; 5][..]);
    assert_eq!(state.as_bytes(), [0u8; 40]);
}

#[test]
fn words_are_read_and_written_by_index() {
    let mut state = State::new(1, 2, 3, 4, 5);
    assert_eq!(state[4], 5);
    state[4] = 50;
    state[0] ^= 0xff;
    assert_eq!(state.as_ref(), &[0xfe, 2, 3, 4, 50][..]);
}

#[test]
fn equality_is_word_for_word() {
    let a = State::new(1, 2, 3, 4, 5);
    assert_eq!(a, State::new(1, 2, 3, 4, 5));
    assert_eq!(a, a.clone());
    assert_ne!(a, State::new(0, 2, 3, 4, 5));
    assert_ne!(a, State::new(1, 2, 3, 4, 6));
    assert_ne!(a, State::new(1, 2, 4, 3, 5));
}

#[test]
fn zeroize_leaves_five_zero_words() {
    let mut state = State::new(1, u64::MAX, 3, 0x8000000000000000, 5);
    state.zeroize();
    assert_eq!(state.as_ref(), &[0u64; 5][..]);
    assert_eq!(state, State::default());
}

#[test]
fn scoped_state_gives_the_state_it_holds() {
    let mut scoped = ScopedState::new(State::new(
        0x0123456789abcdef,
        0xef0123456789abcd,
        0xcdef0123456789ab,
        0xabcdef0123456789,
        0x89abcdef01234567,
    ));
    scoped.state_mut().permute_12();
    assert_eq!(scoped.state()[0], 0x206416dfc624bb14);
    assert_eq!(scoped.state()[4], 0xddd934f058afc7e1);
    scoped.state_mut()[4] = 9;
    assert_eq!(scoped.state()[4], 9);
}

#[test]
fn error_can_be_shown() {
    assert_eq!(format!("{:?}", Error::InvalidLength), "InvalidLength");
}
