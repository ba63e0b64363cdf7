use crate::constants::round_constant;
use crate::permutation::{apply_rounds, constants_12, constants_6, constants_8, schedule_tail};
use crate::round::round;
use vstd::prelude::*;

verus! {

/// Why a state could not be made from a collection of bytes or words.
#[derive(Clone, Copy, Debug, PartialEq, Eq, Structural)]
pub enum Error {
    /// The collection does not hold exactly 40 bytes or exactly 5 words.
    InvalidLength,
}

/// Byte `j` of the big-endian encoding of `x`, for `j < 8`.
pub open spec fn be_byte(x: u64, j: int) -> u8 {
    ((x >> ((56 - 8 * j) as u64)) & 0xff) as u8
}

/// The word whose big-endian encoding is the eight bytes of `b` from `at` on.
pub open spec fn be_word(b: Seq<u8>, at: int) -> u64 {
    ((b[at] as u64) << 56) | ((b[at + 1] as u64) << 48) | ((b[at + 2] as u64) << 40) | ((b[at
        + 3] as u64) << 32) | ((b[at + 4] as u64) << 24) | ((b[at + 5] as u64) << 16) | ((b[at
        + 6] as u64) << 8) | (b[at + 7] as u64)
}

/// The 40 bytes of five words, each word in big-endian order.
pub open spec fn words_to_bytes(words: Seq<u64>) -> Seq<u8> {
    Seq::new(40, |i: int| be_byte(words[i / 8], i % 8))
}

/// The five words of 40 bytes, each word read in big-endian order.
pub open spec fn bytes_to_words(bytes: Seq<u8>) -> Seq<u64> {
    Seq::new(5, |i: int| be_word(bytes, 8 * i))
}

/// What reading a state from `bytes` gives: the words of exactly 40 bytes,
/// and `InvalidLength` for every other length.
pub open spec fn words_from_bytes(bytes: Seq<u8>) -> Result<Seq<u64>, Error> {
    if bytes.len() == 40 {
        Ok(bytes_to_words(bytes))
    } else {
        Err(Error::InvalidLength)
    }
}

/// What reading a state from `words` gives: exactly five words themselves,
/// and `InvalidLength` for every other length.
pub open spec fn words_from_words(words: Seq<u64>) -> Result<Seq<u64>, Error> {
    if words.len() == 5 {
        Ok(words)
    } else {
        Err(Error::InvalidLength)
    }
}

/// Five words of zero.
pub open spec fn zero_words() -> Seq<u64> {
    seq![0u64, 0u64, 0u64, 0u64, 0u64]
}

proof fn lemma_be_round_trip(x: u64)
    by (bit_vector)
    ensures
        ((((x >> 56) & 0xff) as u8 as u64) << 56) | ((((x >> 48) & 0xff) as u8 as u64) << 48) | ((((x
            >> 40) & 0xff) as u8 as u64) << 40) | ((((x >> 32) & 0xff) as u8 as u64) << 32) | ((((x
            >> 24) & 0xff) as u8 as u64) << 24) | ((((x >> 16) & 0xff) as u8 as u64) << 16) | ((((x
            >> 8) & 0xff) as u8 as u64) << 8) | (((x >> 0) & 0xff) as u8 as u64) == x,
{
}

/// Decoding the 40 bytes of five words gives the five words back.
pub proof fn lemma_bytes_round_trip(words: Seq<u64>)
    requires
        words.len() == 5,
    ensures
        words_from_bytes(words_to_bytes(words)) == Ok::<Seq<u64>, Error>(words),
{
    let bytes = words_to_bytes(words);
    assert forall|i: int| 0 <= i < 5 implies bytes_to_words(bytes)[i] == words[i] by {
        lemma_be_round_trip(words[i]);
        assert(bytes[8 * i] == be_byte(words[i], 0));
        assert(bytes[8 * i + 1] == be_byte(words[i], 1));
        assert(bytes[8 * i + 2] == be_byte(words[i], 2));
        assert(bytes[8 * i + 3] == be_byte(words[i], 3));
        assert(bytes[8 * i + 4] == be_byte(words[i], 4));
        assert(bytes[8 * i + 5] == be_byte(words[i], 5));
        assert(bytes[8 * i + 6] == be_byte(words[i], 6));
        assert(bytes[8 * i + 7] == be_byte(words[i], 7));
    }
    assert(bytes_to_words(bytes) =~= words);
}

/// The state of Ascon's permutation.
///
/// The permutation operates on a state of 320 bits represented as 5 64 bit words.
#[derive(Debug)]
pub struct State {
    x: [u64; 5],
}

impl View for State {
    type V = Seq<u64>;

    /// The five words of the state, word 0 first.
    closed spec fn view(&self) -> Seq<u64> {
        self.x@
    }
}

/// Reads a word from eight bytes in big-endian order.
fn word_from_be(bytes: &[u8], at: usize) -> (word: u64)
    requires
        at + 8 <= bytes@.len(),
    ensures
        word == be_word(bytes@, at as int),
{
    ((bytes[at] as u64) << 56) | ((bytes[at + 1] as u64) << 48) | ((bytes[at + 2] as u64) << 40) | ((
    bytes[at + 3] as u64) << 32) | ((bytes[at + 4] as u64) << 24) | ((bytes[at + 5] as u64) << 16)
        | ((bytes[at + 6] as u64) << 8) | (bytes[at + 7] as u64)
}

/// Byte `j` of a word in big-endian order.
fn byte_of(word: u64, j: usize) -> (byte: u8)
    requires
        j < 8,
    ensures
        byte == be_byte(word, j as int),
{
    let shift: u64 = 56 - 8 * (j as u64);
    let masked: u64 = (word >> shift) & 0xff;
    assert((word >> shift) & 0xff <= 0xff) by (bit_vector);
    masked as u8
}

/// Applies one round per constant to the five words, in order.
fn permute_with(x: [u64; 5], constants: &[u64]) -> (y: [u64; 5])
    ensures
        y@ == apply_rounds(x@, constants@),
{
    let mut y = x;
    let mut i: usize = 0;
    while i < constants.len()
        invariant
            i <= constants@.len(),
            y@ == apply_rounds(x@, constants@.take(i as int)),
        decreases constants@.len() - i,
    {
        proof {
            assert(constants@.take(i + 1).drop_last() =~= constants@.take(i as int));
        }
        y = round(y, constants[i]);
        i = i + 1;
    }
    proof {
        assert(constants@.take(i as int) =~= constants@);
    }
    y
}

impl State {
    /// Every state holds five words.
    pub proof fn lemma_five_words(&self)
        ensures
            self@.len() == 5,
    {
    }

    /// Instantiate new state from the given values.
    pub fn new(x0: u64, x1: u64, x2: u64, x3: u64, x4: u64) -> (state: Self)
        ensures
            state@ == seq![x0, x1, x2, x3, x4],
    {
        let state = State { x: [x0, x1, x2, x3, x4] };
        assert(state@ =~= seq![x0, x1, x2, x3, x4]);
        state
    }

    /// Perform permutation with 12 rounds.
    pub fn permute_12(&mut self)
        ensures
            final(self)@ == apply_rounds(old(self)@, constants_12()),
    {
        let constants: [u64; 12] = [
            0xf0,
            0xe1,
            0xd2,
            0xc3,
            0xb4,
            0xa5,
            0x96,
            0x87,
            0x78,
            0x69,
            0x5a,
            0x4b,
        ];
        assert(constants@ =~= constants_12());
        self.x = permute_with(self.x, constants.as_slice());
    }

    /// Perform permutation with 8 rounds.
    pub fn permute_8(&mut self)
        ensures
            final(self)@ == apply_rounds(old(self)@, constants_8()),
    {
        let constants: [u64; 8] = [0xb4, 0xa5, 0x96, 0x87, 0x78, 0x69, 0x5a, 0x4b];
        assert(constants@ =~= constants_8());
        self.x = permute_with(self.x, constants.as_slice());
    }

    /// Perform permutation with 6 rounds.
    pub fn permute_6(&mut self)
        ensures
            final(self)@ == apply_rounds(old(self)@, constants_6()),
    {
        let constants: [u64; 6] = [0x96, 0x87, 0x78, 0x69, 0x5a, 0x4b];
        assert(constants@ =~= constants_6());
        self.x = permute_with(self.x, constants.as_slice());
    }

    /// Perform permutation with 1 round
    pub fn permute_1(&mut self)
        ensures
            final(self)@ == crate::round::round_spec(old(self)@, 0x4b),
    {
        self.x = round(self.x, 0x4b);
    }

    /// Perform a given number (up to 12) of permutations
    pub fn permute_n(&mut self, rounds: usize)
        requires
            rounds <= 12,
        ensures
            final(self)@ == apply_rounds(old(self)@, schedule_tail(rounds as nat)),
    {
        let start: usize = 12 - rounds;
        let ghost schedule = schedule_tail(rounds as nat);
        let mut x = self.x;
        let mut index: usize = start;
        while index < 12
            invariant
                start <= index <= 12,
                start == 12 - rounds,
                schedule == schedule_tail(rounds as nat),
                x@ == apply_rounds(old(self)@, schedule.take(index - start)),
            decreases 12 - index,
        {
            proof {
                assert(schedule.take(index - start + 1).drop_last() =~= schedule.take(
                    index - start,
                ));
            }
            x = round(x, round_constant(index as u64));
            index = index + 1;
        }
        proof {
            assert(schedule.take(index - start) =~= schedule);
        }
        self.x = x;
    }

    /// Convert state to bytes.
    pub fn as_bytes(&self) -> (bytes: [u8; 40])
        ensures
            bytes@ == words_to_bytes(self@),
    {
        let mut bytes: [u8; 40] = [0u8;40];
        let mut i: usize = 0;
        while i < 40
            invariant
                i <= 40,
                forall|k: int| 0 <= k < i ==> bytes@[k] == be_byte(self.x@[k / 8], k % 8),
            decreases 40 - i,
        {
            bytes[i] = byte_of(self.x[i / 8], i % 8);
            i = i + 1;
        }
        assert(bytes@ =~= words_to_bytes(self@));
        bytes
    }

    /// Overwrite the five words with zeros.
    pub fn zeroize(&mut self)
        ensures
            final(self)@ == zero_words(),
        opens_invariants none
        no_unwind
    {
        zeroize_words(&mut self.x);
    }
}

/// Calls `zeroize::Zeroize::zeroize` on the five words. The crate writes the
/// default value of each element, which for `u64` is zero, with a volatile
/// store that the compiler may not remove, and has no path that panics. The
/// contract states the value that is left and that the call does not unwind;
/// it states nothing of the volatility.
#[verifier::external_body]
fn zeroize_words(x: &mut [u64; 5])
    ensures
        final(x)@ == zero_words(),
    opens_invariants none
    no_unwind
{
    zeroize::Zeroize::zeroize(x);
}

impl Default for State {
    /// The state of five zero words.
    fn default() -> (state: Self)
        ensures
            state@ == zero_words(),
    {
        let state = State { x: [0, 0, 0, 0, 0] };
        assert(state@ =~= zero_words());
        state
    }
}

impl Clone for State {
    fn clone(&self) -> (copy: Self)
        ensures
            copy@ == self@,
    {
        State { x: self.x }
    }
}

impl PartialEq for State {
    /// Two states are equal when their words are, word for word.
    fn eq(&self, other: &Self) -> (equal: bool) {
        let mut equal = true;
        let mut i: usize = 0;
        while i < 5
            invariant
                i <= 5,
                equal <==> forall|k: int| 0 <= k < i ==> self.x@[k] == other.x@[k],
            decreases 5 - i,
        {
            if self.x[i] != other.x[i] {
                equal = false;
            }
            i = i + 1;
        }
        assert(equal <==> self@ =~= other@);
        equal
    }
}

impl vstd::std_specs::cmp::PartialEqSpecImpl for State {
    open spec fn obeys_eq_spec() -> bool {
        true
    }

    open spec fn eq_spec(&self, other: &Self) -> bool {
        self@ == other@
    }
}

impl core::ops::Index<usize> for State {
    type Output = u64;

    /// Word `index` of the state, for `index < 5`.
    fn index(&self, index: usize) -> (word: &u64)
        ensures
            *word == self@[index as int],
    {
        &self.x[index]
    }
}

impl vstd::std_specs::core::IndexSpecImpl<usize> for State {
    open spec fn index_req(&self, index: &usize) -> bool {
        *index < 5
    }
}

impl core::ops::IndexMut<usize> for State {
    /// Word `index` of the state for writing, for `index < 5`.
    fn index_mut(&mut self, index: usize) -> (word: &mut u64)
        requires
            index < 5,
        ensures
            *word == old(self)@[index as int],
            final(self)@ == old(self)@.update(index as int, *final(word)),
    {
        &mut self.x[index]
    }
}

impl TryFrom<&[u64]> for State {
    type Error = Error;

    fn try_from(value: &[u64]) -> (result: Result<Self, Error>)
        ensures
            match result {
                Ok(state) => words_from_words(value@) == Ok::<Seq<u64>, Error>(state@),
                Err(e) => words_from_words(value@) == Err::<Seq<u64>, Error>(e),
            },
    {
        if value.len() == 5 {
            let state = State::new(value[0], value[1], value[2], value[3], value[4]);
            assert(state@ =~= value@);
            assert(state.x =~= [value@[0], value@[1], value@[2], value@[3], value@[4]]);
            Ok(state)
        } else {
            Err(Error::InvalidLength)
        }
    }
}

impl vstd::std_specs::convert::TryFromSpecImpl<&[u64]> for State {
    open spec fn obeys_try_from_spec() -> bool {
        true
    }

    closed spec fn try_from_spec(v: &[u64]) -> Result<Self, Error> {
        if v@.len() == 5 {
            Ok(State { x: [v@[0], v@[1], v@[2], v@[3], v@[4]] })
        } else {
            Err(Error::InvalidLength)
        }
    }
}

impl From<&[u64; 5]> for State {
    fn from(value: &[u64; 5]) -> (state: Self)
        ensures
            state@ == value@,
    {
        State { x: *value }
    }
}

impl vstd::std_specs::convert::FromSpecImpl<&[u64; 5]> for State {
    open spec fn obeys_from_spec() -> bool {
        true
    }

    closed spec fn from_spec(v: &[u64; 5]) -> Self {
        State { x: *v }
    }
}

/// Reads the five words of 40 bytes.
fn words_from_be(bytes: &[u8]) -> (x: [u64; 5])
    requires
        bytes@.len() == 40,
    ensures
        x@ == bytes_to_words(bytes@),
        x == [
            be_word(bytes@, 0),
            be_word(bytes@, 8),
            be_word(bytes@, 16),
            be_word(bytes@, 24),
            be_word(bytes@, 32),
        ],
{
    let x: [u64; 5] = [
        word_from_be(bytes, 0),
        word_from_be(bytes, 8),
        word_from_be(bytes, 16),
        word_from_be(bytes, 24),
        word_from_be(bytes, 32),
    ];
    assert(x@ =~= bytes_to_words(bytes@));
    assert(x =~= [
        be_word(bytes@, 0),
        be_word(bytes@, 8),
        be_word(bytes@, 16),
        be_word(bytes@, 24),
        be_word(bytes@, 32),
    ]);
    x
}

impl TryFrom<&[u8]> for State {
    type Error = Error;

    fn try_from(value: &[u8]) -> (result: Result<Self, Error>)
        ensures
            match result {
                Ok(state) => words_from_bytes(value@) == Ok::<Seq<u64>, Error>(state@),
                Err(e) => words_from_bytes(value@) == Err::<Seq<u64>, Error>(e),
            },
    {
        if value.len() != 40 {
            return Err(Error::InvalidLength);
        }
        Ok(State { x: words_from_be(value) })
    }
}

impl vstd::std_specs::convert::TryFromSpecImpl<&[u8]> for State {
    open spec fn obeys_try_from_spec() -> bool {
        true
    }

    closed spec fn try_from_spec(v: &[u8]) -> Result<Self, Error> {
        if v@.len() == 40 {
            Ok(
                State {
                    x: [
                        be_word(v@, 0),
                        be_word(v@, 8),
                        be_word(v@, 16),
                        be_word(v@, 24),
                        be_word(v@, 32),
                    ],
                },
            )
        } else {
            Err(Error::InvalidLength)
        }
    }
}

impl From<&[u8; 40]> for State {
    fn from(value: &[u8; 40]) -> (state: Self)
        ensures
            state@ == bytes_to_words(value@),
    {
        State { x: words_from_be(value.as_slice()) }
    }
}

impl vstd::std_specs::convert::FromSpecImpl<&[u8; 40]> for State {
    open spec fn obeys_from_spec() -> bool {
        true
    }

    closed spec fn from_spec(v: &[u8; 40]) -> Self {
        State {
            x: [
                be_word(v@, 0),
                be_word(v@, 8),
                be_word(v@, 16),
                be_word(v@, 24),
                be_word(v@, 32),
            ],
        }
    }
}

impl AsRef<[u64]> for State {
    /// The five words of the state.
    fn as_ref(&self) -> (words: &[u64])
        ensures
            words@ == self@,
    {
        self.x.as_slice()
    }
}

} // verus!
