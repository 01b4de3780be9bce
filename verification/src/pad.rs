//! MD5 padding (RFC 1321): a `0x80` terminator byte, a zero fill, and the
//! bit length of the message as a 64-bit little-endian field, bringing the
//! total length to a multiple of 64 bytes.
use vstd::prelude::*;

verus! {

/// The message length in bits, reduced modulo `2^64` as the length field
/// demands.
pub open spec fn bit_length(len: nat) -> u64 {
    ((len * 8) % 0x1_0000_0000_0000_0000) as u64
}

/// The eight bytes of `x` in little-endian order.
pub open spec fn le64_bytes(x: u64) -> Seq<u8> {
    seq![
        (x & 0xff) as u8,
        ((x >> 8u64) & 0xff) as u8,
        ((x >> 16u64) & 0xff) as u8,
        ((x >> 24u64) & 0xff) as u8,
        ((x >> 32u64) & 0xff) as u8,
        ((x >> 40u64) & 0xff) as u8,
        ((x >> 48u64) & 0xff) as u8,
        ((x >> 56u64) & 0xff) as u8,
    ]
}

/// How many zero bytes stand between the terminator and the length field:
/// exactly enough that the message, the terminator, the fill and the eight
/// length bytes end on a block boundary.
pub open spec fn zero_fill_len(len: nat) -> int {
    (119 - (len % 64)) % 64
}

/// The padded form of a message: the message itself, one `0x80` byte, the
/// zero fill, and the bit length, little-endian.
pub open spec fn padded(s: Seq<u8>) -> Seq<u8> {
    s + seq![0x80u8] + Seq::new(zero_fill_len(s.len()) as nat, |i: int| 0u8) + le64_bytes(
        bit_length(s.len()),
    )
}

/// The zero fill is `55 - r` bytes when the length field still fits in the
/// final fragment's block (`r <= 55`), and `119 - r` bytes — pushing the
/// length field into a second block — when it does not.
proof fn lemma_zero_fill_cases(len: nat)
    by (nonlinear_arith)
    ensures
        len % 64 <= 55 ==> zero_fill_len(len) == 55 - (len % 64),
        len % 64 > 55 ==> zero_fill_len(len) == 119 - (len % 64),
{
}

/// The shape of a padded message: it ends on a block boundary, it begins
/// with the message itself, and it closes with one block when the final
/// fragment holds at most 55 bytes, with two otherwise.
pub proof fn lemma_padded_shape(s: Seq<u8>)
    ensures
        padded(s).len() % 64 == 0,
        padded(s).len() == s.len() + 9 + zero_fill_len(s.len()),
        padded(s).take(s.len() as int) == s,
        s.len() % 64 <= 55 ==> padded(s).len() == s.len() - (s.len() % 64) + 64,
        s.len() % 64 > 55 ==> padded(s).len() == s.len() - (s.len() % 64) + 128,
{
    lemma_zero_fill_cases(s.len());
    assert(padded(s).len() == s.len() + 9 + zero_fill_len(s.len()));
    lemma_len_multiple(s.len());
    assert(padded(s).take(s.len() as int) =~= s);
}

/// `len + 9 + zero_fill_len(len)` is a multiple of 64.
proof fn lemma_len_multiple(len: nat)
    by (nonlinear_arith)
    ensures
        (len + 9 + zero_fill_len(len)) % 64 == 0,
        len % 64 <= 55 ==> len + 9 + zero_fill_len(len) == len - (len % 64) + 64,
        len % 64 > 55 ==> len + 9 + zero_fill_len(len) == len - (len % 64) + 128,
{
}

/// Appends the MD5 padding to a copy of the message.
pub fn pad(message: &[u8]) -> (v: Vec<u8>)
    ensures
        v@ == padded(message@),
{
    let n = message.len();
    let mut v: Vec<u8> = Vec::new();
    let mut i: usize = 0;
    while i < n
        invariant
            i <= n,
            n == message@.len(),
            v@ == message@.take(i as int),
        decreases n - i,
    {
        v.push(message[i]);
        proof {
            assert(message@.take(i + 1) =~= message@.take(i as int).push(message@[i as int]));
        }
        i += 1;
    }
    proof {
        assert(message@.take(n as int) =~= message@);
    }
    v.push(0x80);

    let r = n % 64;
    let fill: usize = if r <= 55 {
        55 - r
    } else {
        119 - r
    };
    proof {
        lemma_zero_fill_cases(n as nat);
    }
    let mut j: usize = 0;
    while j < fill
        invariant
            j <= fill,
            v@ == message@ + seq![0x80u8] + Seq::new(j as nat, |q: int| 0u8),
        decreases fill - j,
    {
        v.push(0u8);
        proof {
            assert(Seq::new((j + 1) as nat, |q: int| 0u8) =~= Seq::new(j as nat, |q: int| 0u8).push(0u8));
            assert(v@ =~= message@ + seq![0x80u8] + Seq::new((j + 1) as nat, |q: int| 0u8));
        }
        j += 1;
    }

    let bits: u64 = (((n as u128) * 8) % 0x1_0000_0000_0000_0000u128) as u64;
    proof {
        assert(bits == bit_length(message@.len()));
        assert((bits & 0xff) < 256 && ((bits >> 8u64) & 0xff) < 256 && ((bits >> 16u64) & 0xff)
            < 256 && ((bits >> 24u64) & 0xff) < 256 && ((bits >> 32u64) & 0xff) < 256 && ((bits
            >> 40u64) & 0xff) < 256 && ((bits >> 48u64) & 0xff) < 256 && ((bits >> 56u64) & 0xff)
            < 256) by (bit_vector);
    }
    v.push((bits & 0xff) as u8);
    v.push(((bits >> 8u64) & 0xff) as u8);
    v.push(((bits >> 16u64) & 0xff) as u8);
    v.push(((bits >> 24u64) & 0xff) as u8);
    v.push(((bits >> 32u64) & 0xff) as u8);
    v.push(((bits >> 40u64) & 0xff) as u8);
    v.push(((bits >> 48u64) & 0xff) as u8);
    v.push(((bits >> 56u64) & 0xff) as u8);
    proof {
        assert(v@ =~= padded(message@));
    }
    v
}

} // verus!
