use crate::sbox::{sbox10, sbox10_lookup};
use vstd::prelude::*;

verus! {

/// `x` rotated right by `n` bits, for `0 < n < 64`.
pub open spec fn rotr(x: u64, n: u32) -> u64 {
    (x >> n) | (x << ((64 - n) as u32))
}

/// The state with the round constant `c` added into word 2.
pub open spec fn add_constant(s: Seq<u64>, c: u64) -> Seq<u64> {
    s.update(2, s[2] ^ c)
}

/// The five words after the substitution layer, computed on whole words.
///
/// Every operation acts on all 64 bit positions alike, so this applies one
/// five-bit S-box to each column of the state (see
/// [`lemma_substitution_is_columnwise`]). Word 2 is given without its final
/// complement, which [`diffusion_layer`] applies.
pub open spec fn substituted(x0: u64, x1: u64, x2: u64, x3: u64, x4: u64) -> (
    u64,
    u64,
    u64,
    u64,
    u64,
) {
    let a0 = x0 ^ x4;
    let a2 = x2 ^ x1;
    let a4 = x4 ^ x3;
    let b0 = a0 ^ (!x1 & a2);
    let b1 = x1 ^ (!a2 & x3);
    let b2 = a2 ^ (!x3 & a4);
    let b3 = x3 ^ (!a4 & a0);
    let b4 = a4 ^ (!a0 & x1);
    (b0 ^ b4, b1 ^ b0, b2, b3 ^ b2, b4)
}

/// The state after the substitution layer.
pub open spec fn substitution_layer(s: Seq<u64>) -> Seq<u64> {
    let t = substituted(s[0], s[1], s[2], s[3], s[4]);
    seq![t.0, t.1, t.2, t.3, t.4]
}

/// One word after the linear diffusion with the rotation amounts `first` and
/// `second`: with `t = x ^ rotr(x, first)`, the word `x ^ rotr(t, second)`.
pub open spec fn diffused(x: u64, first: u32, second: u32) -> u64 {
    x ^ rotr(x ^ rotr(x, first), second)
}

/// The state after the linear diffusion layer. Word 2 alone is complemented.
pub open spec fn diffusion_layer(s: Seq<u64>) -> Seq<u64> {
    seq![
        diffused(s[0], 9, 19),
        diffused(s[1], 22, 39),
        !diffused(s[2], 5, 1),
        diffused(s[3], 7, 10),
        diffused(s[4], 34, 7),
    ]
}

/// One round with the constant `c`: constant addition, substitution, diffusion.
pub open spec fn round_spec(s: Seq<u64>, c: u64) -> Seq<u64> {
    diffusion_layer(substitution_layer(add_constant(s, c)))
}

/// Bit `i` of the word `x`.
pub open spec fn word_bit(x: u64, i: u64) -> bool {
    (x >> i) & 1 == 1
}

/// The substitution layer is the five-bit S-box applied to each of the 64
/// columns on its own: bit `i` of every output word is the matching output of
/// `sbox_column` on bit `i` of the five input words.
pub proof fn lemma_substitution_is_columnwise(x0: u64, x1: u64, x2: u64, x3: u64, x4: u64, i: u64)
    by (bit_vector)
    requires
        i < 64,
    ensures
        ({
            let t = substituted(x0, x1, x2, x3, x4);
            let column = crate::sbox::sbox_column(
                word_bit(x0, i),
                word_bit(x1, i),
                word_bit(x2, i),
                word_bit(x3, i),
                word_bit(x4, i),
            );
            &&& word_bit(t.0, i) == column.0
            &&& word_bit(t.1, i) == column.1
            &&& word_bit(t.2, i) == column.2
            &&& word_bit(t.3, i) == column.3
            &&& word_bit(t.4, i) == column.4
        }),
{
}

/// The diffusion of a word in its published form: the word XORed with two of
/// its own rotations.
pub proof fn lemma_diffusion_rotations(x: u64)
    by (bit_vector)
    ensures
        diffused(x, 9, 19) == x ^ rotr(x, 19) ^ rotr(x, 28),
        diffused(x, 22, 39) == x ^ rotr(x, 39) ^ rotr(x, 61),
        diffused(x, 5, 1) == x ^ rotr(x, 1) ^ rotr(x, 6),
        diffused(x, 7, 10) == x ^ rotr(x, 10) ^ rotr(x, 17),
        diffused(x, 34, 7) == x ^ rotr(x, 7) ^ rotr(x, 41),
{
}

/// The low half of a word.
spec fn low(x: u64) -> u32 {
    (x & 0xffff_ffff) as u32
}

/// The high half of a word.
spec fn high(x: u64) -> u32 {
    (x >> 32) as u32
}

/// Cell `ci` of the ten 32-bit cells of five words: cell `2 * i` is the low
/// half of word `i`, cell `2 * i + 1` its high half.
spec fn cell(x0: u64, x1: u64, x2: u64, x3: u64, x4: u64, ci: u16) -> u32 {
    let word = if ci < 2 {
        x0
    } else if ci < 4 {
        x1
    } else if ci < 6 {
        x2
    } else if ci < 8 {
        x3
    } else {
        x4
    };
    if ci % 2 == 0 {
        low(word)
    } else {
        high(word)
    }
}

/// The ten cells of a state of five words.
spec fn cells_of(s: Seq<u64>) -> Seq<u32> {
    Seq::new(10, |ci: int| cell(s[0], s[1], s[2], s[3], s[4], ci as u16))
}

/// Bit `bit` of a cell, as a key bit.
spec fn cell_bit(c: u32, bit: u32) -> u16 {
    ((c >> bit) & 1) as u16
}

/// Bit `ci` of a key.
spec fn key_bit(key: u16, ci: u16) -> u16 {
    (key >> ci) & 1
}

/// Bit `ci` of a table entry, as a cell bit.
spec fn value_bit(value: u16, ci: u16) -> u32 {
    ((value >> ci) & 1) as u32
}

/// The mask of the bit positions below `bit`, for `bit <= 32`.
spec fn low_mask(bit: u32) -> u32 {
    if bit >= 32 {
        0xffff_ffff
    } else {
        ((1u32 << bit) - 1) as u32
    }
}

/// The key for bit position `bit`: key bit `ci` is bit `bit` of cell `ci`.
spec fn is_key(key: u16, cells: Seq<u32>, bit: u32) -> bool {
    &&& key < 1024
    &&& forall|ci: u16| ci < 10 ==> #[trigger] key_bit(key, ci) == cell_bit(cells[ci as int], bit)
}

proof fn lemma_key_bit_set(key: u16, b: u16, ci: u16)
    by (bit_vector)
    requires
        ci < 10,
        b <= 1,
        key >> ci == 0,
    ensures
        key_bit(key | (b << ci), ci) == b,
        (key | (b << ci)) >> ((ci + 1) as u16) == 0,
{
}

proof fn lemma_key_bit_kept(key: u16, b: u16, ci: u16, j: u16)
    by (bit_vector)
    requires
        j < ci < 10,
    ensures
        key_bit(key | (b << ci), j) == key_bit(key, j),
{
}

proof fn lemma_key_bound(key: u16)
    by (bit_vector)
    requires
        key >> 10 == 0,
    ensures
        key < 1024,
{
}

proof fn lemma_cell_bit_bound(c: u32, bit: u32)
    by (bit_vector)
    requires
        bit < 32,
    ensures
        (c >> bit) & 1 <= 1,
{
}

/// Gathers the lookup key for bit position `bit` from the ten cells.
fn gather_key(cells: &[u32; 10], bit: u32) -> (key: u16)
    requires
        bit < 32,
    ensures
        is_key(key, cells@, bit),
{
    let mut key: u16 = 0;
    let mut ci: u16 = 0;
    proof {
        assert(0u16 >> 0u16 == 0) by (bit_vector);
    }
    while ci < 10
        invariant
            ci <= 10,
            bit < 32,
            key >> ci == 0,
            forall|j: u16| j < ci ==> #[trigger] key_bit(key, j) == cell_bit(cells@[j as int], bit),
        decreases 10 - ci,
    {
        let c: u32 = cells[ci as usize];
        proof {
            lemma_cell_bit_bound(c, bit);
        }
        let b: u16 = ((c >> bit) & 1) as u16;
        let next: u16 = key | (b << ci);
        proof {
            lemma_key_bit_set(key, b, ci);
            assert forall|j: u16| j < ci + 1 implies #[trigger] key_bit(next, j) == cell_bit(
                cells@[j as int],
                bit,
            ) by {
                if j < ci {
                    lemma_key_bit_kept(key, b, ci, j);
                }
            }
        }
        key = next;
        ci = ci + 1;
    }
    proof {
        lemma_key_bound(key);
    }
    key
}

/// Scatters the ten bits of a table entry into the ten cells at bit position
/// `bit`.
fn scatter(out: &mut [u32; 10], value: u16, bit: u32)
    requires
        bit < 32,
    ensures
        forall|ci: int|
            0 <= ci < 10 ==> #[trigger] final(out)@[ci] == old(out)@[ci] | (value_bit(
                value,
                ci as u16,
            ) << bit),
{
    let mut ci: u16 = 0;
    while ci < 10
        invariant
            ci <= 10,
            bit < 32,
            forall|j: int|
                0 <= j < ci ==> #[trigger] out@[j] == old(out)@[j] | (value_bit(value, j as u16)
                    << bit),
            forall|j: int| ci <= j < 10 ==> #[trigger] out@[j] == old(out)@[j],
        decreases 10 - ci,
    {
        let b: u32 = ((value >> ci) & 1) as u32;
        out[ci as usize] = out[ci as usize] | (b << bit);
        ci = ci + 1;
    }
}

/// The word with the low half `lo` and the high half `hi`.
spec fn word_of(lo: u32, hi: u32) -> u64 {
    (lo as u64) | ((hi as u64) << 32)
}

/// `key` is the lookup key of the five words at bit position `bit`, cell by
/// cell.
spec fn key_matches(key: u16, x0: u64, x1: u64, x2: u64, x3: u64, x4: u64, bit: u32) -> bool {
    &&& key < 1024
    &&& key_bit(key, 0) == cell_bit(low(x0), bit)
    &&& key_bit(key, 1) == cell_bit(high(x0), bit)
    &&& key_bit(key, 2) == cell_bit(low(x1), bit)
    &&& key_bit(key, 3) == cell_bit(high(x1), bit)
    &&& key_bit(key, 4) == cell_bit(low(x2), bit)
    &&& key_bit(key, 5) == cell_bit(high(x2), bit)
    &&& key_bit(key, 6) == cell_bit(low(x3), bit)
    &&& key_bit(key, 7) == cell_bit(high(x3), bit)
    &&& key_bit(key, 8) == cell_bit(low(x4), bit)
    &&& key_bit(key, 9) == cell_bit(high(x4), bit)
}

/// One step of the substitution loop, for one cell: with the cell holding the
/// substituted cell below bit position `bit`, OR-ing in bit `ci` of the table
/// entry at that position makes it hold the substituted cell below `bit + 1`.
proof fn lemma_substitution_step(
    x0: u64,
    x1: u64,
    x2: u64,
    x3: u64,
    x4: u64,
    bit: u32,
    ci: u16,
    key: u16,
    value: u16,
    before: u32,
)
    by (bit_vector)
    requires
        bit < 32,
        ci < 10,
        key_matches(key, x0, x1, x2, x3, x4, bit),
        value == sbox10(key),
        ({
            let t = substituted(x0, x1, x2, x3, x4);
            before == cell(t.0, t.1, t.2, t.3, t.4, ci) & low_mask(bit)
        }),
    ensures
        ({
            let t = substituted(x0, x1, x2, x3, x4);
            before | (value_bit(value, ci) << bit) == cell(t.0, t.1, t.2, t.3, t.4, ci) & low_mask(
                (bit + 1) as u32,
            )
        }),
{
}

proof fn lemma_halves(x: u64)
    by (bit_vector)
    ensures
        x & 0xffff_ffff <= 0xffff_ffff,
        x >> 32 <= 0xffff_ffff,
        word_of(low(x), high(x)) == x,
{
}

proof fn lemma_mask_bounds(c: u32)
    by (bit_vector)
    ensures
        0 == c & low_mask(0),
        c & low_mask(32) == c,
{
}

/// `x` rotated right by `n` bits.
fn rotate_right(x: u64, n: u32) -> (r: u64)
    requires
        0 < n < 64,
    ensures
        r == rotr(x, n),
{
    (x >> n) | (x << (64 - n))
}

/// Splits five words into their ten cells.
fn split(x: &[u64; 5]) -> (cells: [u32; 10])
    ensures
        cells@ == cells_of(x@),
{
    proof {
        lemma_halves(x[0]);
        lemma_halves(x[1]);
        lemma_halves(x[2]);
        lemma_halves(x[3]);
        lemma_halves(x[4]);
    }
    let cells: [u32; 10] = [
        (x[0] & 0xffff_ffff) as u32,
        (x[0] >> 32) as u32,
        (x[1] & 0xffff_ffff) as u32,
        (x[1] >> 32) as u32,
        (x[2] & 0xffff_ffff) as u32,
        (x[2] >> 32) as u32,
        (x[3] & 0xffff_ffff) as u32,
        (x[3] >> 32) as u32,
        (x[4] & 0xffff_ffff) as u32,
        (x[4] >> 32) as u32,
    ];
    assert(cells@ =~= cells_of(x@));
    cells
}

/// Joins ten cells into five words.
fn join(cells: &[u32; 10]) -> (x: [u64; 5])
    ensures
        x@ == seq![
            word_of(cells[0], cells[1]),
            word_of(cells[2], cells[3]),
            word_of(cells[4], cells[5]),
            word_of(cells[6], cells[7]),
            word_of(cells[8], cells[9]),
        ],
{
    let x: [u64; 5] = [
        (cells[0] as u64) | ((cells[1] as u64) << 32),
        (cells[2] as u64) | ((cells[3] as u64) << 32),
        (cells[4] as u64) | ((cells[5] as u64) << 32),
        (cells[6] as u64) | ((cells[7] as u64) << 32),
        (cells[8] as u64) | ((cells[9] as u64) << 32),
    ];
    assert(x@ =~= seq![
        word_of(cells[0], cells[1]),
        word_of(cells[2], cells[3]),
        word_of(cells[4], cells[5]),
        word_of(cells[6], cells[7]),
        word_of(cells[8], cells[9]),
    ]);
    x
}

/// The substitution layer: looks two columns at a time up in the ten-bit
/// table, one lookup for each of the 32 bit positions of the ten cells.
fn substitute(x: &[u64; 5]) -> (t: [u64; 5])
    ensures
        t@ == substitution_layer(x@),
{
    let cells = split(x);
    let ghost expected = cells_of(substitution_layer(x@));
    let mut out: [u32; 10] = [0u32;10];
    let mut bit: u32 = 0;
    proof {
        assert forall|ci: int| 0 <= ci < 10 implies #[trigger] out@[ci] == expected[ci] & low_mask(
            0,
        ) by {
            lemma_mask_bounds(expected[ci]);
        }
    }
    while bit < 32
        invariant
            bit <= 32,
            cells@ == cells_of(x@),
            expected == cells_of(substitution_layer(x@)),
            forall|ci: int| 0 <= ci < 10 ==> #[trigger] out@[ci] == expected[ci] & low_mask(bit),
        decreases 32 - bit,
    {
        let key = gather_key(&cells, bit);
        let value = sbox10_lookup(key);
        let ghost before = out@;
        scatter(&mut out, value, bit);
        proof {
            assert(key_matches(key, x[0], x[1], x[2], x[3], x[4], bit));
            assert forall|ci: int| 0 <= ci < 10 implies #[trigger] out@[ci] == expected[ci]
                & low_mask((bit + 1) as u32) by {
                lemma_substitution_step(
                    x[0],
                    x[1],
                    x[2],
                    x[3],
                    x[4],
                    bit,
                    ci as u16,
                    key,
                    value,
                    before[ci],
                );
            }
        }
        bit = bit + 1;
    }
    let t = join(&out);
    proof {
        let s = substitution_layer(x@);
        assert forall|ci: int| 0 <= ci < 10 implies #[trigger] out@[ci] == expected[ci] by {
            lemma_mask_bounds(expected[ci]);
        }
        lemma_halves(s[0]);
        lemma_halves(s[1]);
        lemma_halves(s[2]);
        lemma_halves(s[3]);
        lemma_halves(s[4]);
        assert(t@ =~= s);
    }
    t
}

/// One round of the permutation with the round constant `c`.
pub fn round(x: [u64; 5], c: u64) -> (y: [u64; 5])
    ensures
        y@ == round_spec(x@, c),
{
    let mut a = x;
    a[2] = a[2] ^ c;
    assert(a@ =~= add_constant(x@, c));

    let t = substitute(&a);

    let tx0 = t[0];
    let tx1 = t[1];
    let tx2 = t[2];
    let tx3 = t[3];
    let tx4 = t[4];

    let x0 = tx0 ^ rotate_right(tx0, 9);
    let x1 = tx1 ^ rotate_right(tx1, 22);
    let x2 = tx2 ^ rotate_right(tx2, 5);
    let x3 = tx3 ^ rotate_right(tx3, 7);
    let x4 = tx4 ^ rotate_right(tx4, 34);
    let y: [u64; 5] = [
        tx0 ^ rotate_right(x0, 19),
        tx1 ^ rotate_right(x1, 39),
        !(tx2 ^ rotate_right(x2, 1)),
        tx3 ^ rotate_right(x3, 10),
        tx4 ^ rotate_right(x4, 7),
    ];
    assert(y@ =~= round_spec(x@, c));
    y
}

} // verus!
