//! The MD5 digest state and the per-block compression transform: 16 message
//! words are decoded little-endian from a 64-byte block and mixed into the
//! four accumulators over 64 rounds (RFC 1321).
use crate::tables::{shift_amount, shift_amount_at, sine_constant, sine_constant_at};
use vstd::prelude::*;

verus! {

/// The four 32-bit accumulators of a running MD5 computation.
#[derive(Clone, Copy, Debug, PartialEq, Eq, Structural)]
pub struct State {
    pub a: u32,
    pub b: u32,
    pub c: u32,
    pub d: u32,
}

/// The fixed initial accumulator values of MD5.
pub open spec fn init_state() -> State {
    State { a: 0x67452301, b: 0xefcdab89, c: 0x98badcfe, d: 0x10325476 }
}

/// Returns a fresh digest state, ready to absorb the first block.
pub fn md5_init() -> (st: State)
    ensures
        st == init_state(),
{
    State { a: 0x67452301, b: 0xefcdab89, c: 0x98badcfe, d: 0x10325476 }
}

/// A 32-bit word assembled from four bytes in little-endian order.
pub open spec fn word_le(b0: u8, b1: u8, b2: u8, b3: u8) -> u32 {
    (b0 as u32) | ((b1 as u32) << 8u32) | ((b2 as u32) << 16u32) | ((b3 as u32) << 24u32)
}

fn word_le_exec(b0: u8, b1: u8, b2: u8, b3: u8) -> (r: u32)
    ensures
        r == word_le(b0, b1, b2, b3),
{
    (b0 as u32) | ((b1 as u32) << 8u32) | ((b2 as u32) << 16u32) | ((b3 as u32) << 24u32)
}

/// The 16 little-endian message words of one 64-byte block.
pub open spec fn block_words(block: Seq<u8>) -> Seq<u32> {
    Seq::new(16, |i: int| word_le(block[4 * i], block[4 * i + 1], block[4 * i + 2], block[4 * i + 3]))
}

/// Left rotation of a 32-bit word by `s` places, `0 < s < 32`.
pub open spec fn rotl(x: u32, s: u32) -> u32
    recommends
        0 < s < 32,
{
    (x << s) | (x >> ((32 - s) as u32))
}

fn rotl_exec(x: u32, s: u32) -> (r: u32)
    requires
        0 < s < 32,
    ensures
        r == rotl(x, s),
{
    (x << s) | (x >> (32 - s))
}

/// The nonlinear mixing function of round `i`, chosen by which quarter of the
/// 64 rounds `i` falls into.
pub open spec fn round_f(i: int, b: u32, c: u32, d: u32) -> u32 {
    if i < 16 {
        (b & c) | (!b & d)
    } else if i < 32 {
        (d & b) | (!d & c)
    } else if i < 48 {
        b ^ c ^ d
    } else {
        c ^ (b | !d)
    }
}

/// The index of the message word consumed by round `i`.
pub open spec fn msg_index(i: int) -> int {
    if i < 16 {
        i
    } else if i < 32 {
        (5 * i + 1) % 16
    } else if i < 48 {
        (3 * i + 5) % 16
    } else {
        (7 * i) % 16
    }
}

/// One round of the compression transform on the working variables
/// `(a, b, c, d)`, with message words `m`, at round index `i`.
pub open spec fn round_step(t: (u32, u32, u32, u32), m: Seq<u32>, i: int) -> (u32, u32, u32, u32) {
    let (a, b, c, d) = t;
    let sum = a.wrapping_add(round_f(i, b, c, d)).wrapping_add(sine_constant(i)).wrapping_add(
        m[msg_index(i)],
    );
    (d, b.wrapping_add(rotl(sum, shift_amount(i))), b, c)
}

/// The working variables after the first `n` rounds.
pub open spec fn rounds(t: (u32, u32, u32, u32), m: Seq<u32>, n: int) -> (u32, u32, u32, u32)
    decreases n,
{
    if n <= 0 {
        t
    } else {
        round_step(rounds(t, m, n - 1), m, n - 1)
    }
}

/// The compression transform: the state after absorbing one 64-byte block.
/// Each working variable is added back into its accumulator modulo `2^32`.
pub open spec fn compress(st: State, block: Seq<u8>) -> State {
    let m = block_words(block);
    let (a, b, c, d) = rounds((st.a, st.b, st.c, st.d), m, 64);
    State {
        a: st.a.wrapping_add(a),
        b: st.b.wrapping_add(b),
        c: st.c.wrapping_add(c),
        d: st.d.wrapping_add(d),
    }
}

/// The state after absorbing every full 64-byte block of `bytes`, in order.
/// A trailing fragment shorter than one block is ignored.
pub open spec fn fold_blocks(st: State, bytes: Seq<u8>) -> State
    decreases bytes.len(),
{
    if bytes.len() < 64 {
        st
    } else {
        fold_blocks(compress(st, bytes.take(64)), bytes.skip(64))
    }
}

/// Applies the compression transform to one 64-byte block.
pub fn md5_chunked(state: State, chunk: &[u8; 64]) -> (r: State)
    ensures
        r == compress(state, chunk@),
{
    let mut m: Vec<u32> = Vec::new();
    let mut j: usize = 0;
    while j < 16
        invariant
            j <= 16,
            m@.len() == j,
            forall|q: int| 0 <= q < j ==> m@[q] == block_words(chunk@)[q],
        decreases 16 - j,
    {
        let w = word_le_exec(chunk[4 * j], chunk[4 * j + 1], chunk[4 * j + 2], chunk[4 * j + 3]);
        m.push(w);
        assert(m@[j as int] == block_words(chunk@)[j as int]);
        j += 1;
    }
    assert(m@ =~= block_words(chunk@));

    let mut a = state.a;
    let mut b = state.b;
    let mut c = state.c;
    let mut d = state.d;
    let mut i: usize = 0;
    while i < 64
        invariant
            i <= 64,
            m@ == block_words(chunk@),
            m@.len() == 16,
            (a, b, c, d) == rounds((state.a, state.b, state.c, state.d), m@, i as int),
        decreases 64 - i,
    {
        let f: u32 = if i < 16 {
            (b & c) | (!b & d)
        } else if i < 32 {
            (d & b) | (!d & c)
        } else if i < 48 {
            b ^ c ^ d
        } else {
            c ^ (b | !d)
        };
        let g: usize = if i < 16 {
            i
        } else if i < 32 {
            (5 * i + 1) % 16
        } else if i < 48 {
            (3 * i + 5) % 16
        } else {
            (7 * i) % 16
        };
        assert(g == msg_index(i as int));
        assert(f == round_f(i as int, b, c, d));
        let sum = a.wrapping_add(f).wrapping_add(sine_constant_at(i)).wrapping_add(m[g]);
        let rotated = rotl_exec(sum, shift_amount_at(i));
        a = d;
        d = c;
        c = b;
        b = b.wrapping_add(rotated);
        proof {
            assert((a, b, c, d) == round_step(
                rounds((state.a, state.b, state.c, state.d), m@, i as int),
                m@,
                i as int,
            ));
        }
        i += 1;
    }
    State {
        a: state.a.wrapping_add(a),
        b: state.b.wrapping_add(b),
        c: state.c.wrapping_add(c),
        d: state.d.wrapping_add(d),
    }
}

/// Absorbs every block of `data`, whose length must be a multiple of 64,
/// into the state, front to back.
pub fn md5_blocks(state: State, data: &[u8]) -> (r: State)
    requires
        data@.len() % 64 == 0,
    ensures
        r == fold_blocks(state, data@),
{
    let mut st = state;
    let n = data.len();
    let mut i: usize = 0;
    proof {
        assert(data@.skip(0) =~= data@);
    }
    while i < n
        invariant
            i <= n,
            n == data@.len(),
            i % 64 == 0,
            n % 64 == 0,
            fold_blocks(state, data@) == fold_blocks(st, data@.skip(i as int)),
        decreases n - i,
    {
        proof {
            lemma_block_remainder(i as int, n as int);
        }
        let mut block: [u8; 64] = [0u8; 64];
        let mut j: usize = 0;
        while j < 64
            invariant
                j <= 64,
                i + 64 <= n,
                n == data@.len(),
                forall|q: int| 0 <= q < j ==> block@[q] == data@[i + q],
            decreases 64 - j,
        {
            block[j] = data[i + j];
            j += 1;
        }
        assert(block@ =~= data@.skip(i as int).take(64));
        let next = md5_chunked(st, &block);
        proof {
            assert(data@.skip(i as int).skip(64) =~= data@.skip(i as int + 64));
        }
        st = next;
        i += 64;
    }
    proof {
        assert(data@.skip(i as int) =~= Seq::<u8>::empty());
    }
    st
}

/// The difference of two multiples of 64 is a multiple of 64, and a positive
/// one is at least 64.
proof fn lemma_block_remainder(i: int, n: int)
    by (nonlinear_arith)
    requires
        0 <= i <= n,
        i % 64 == 0,
        n % 64 == 0,
    ensures
        (n - i) % 64 == 0,
        i < n ==> n - i >= 64,
{
}

/// Absorbing the blocks of `a + b` front to back is the same as absorbing
/// those of `a`, then those of `b`, provided `a` ends on a block boundary:
/// the engine is insensitive to where a stream of blocks is split.
pub proof fn lemma_fold_blocks_append(st: State, a: Seq<u8>, b: Seq<u8>)
    requires
        a.len() % 64 == 0,
    ensures
        fold_blocks(st, a + b) == fold_blocks(fold_blocks(st, a), b),
    decreases a.len(),
{
    if a.len() == 0 {
        assert(a + b =~= b);
    } else {
        lemma_block_remainder(0, a.len() as int);
        assert((a + b).take(64) =~= a.take(64));
        assert((a + b).skip(64) =~= a.skip(64) + b);
        lemma_block_remainder(64, a.len() as int);
        lemma_fold_blocks_append(compress(st, a.take(64)), a.skip(64), b);
    }
}

} // verus!
