//! The one-shot MD5 digest: pad the message, absorb every block, and render
//! the accumulators as the 32-character digest string.
use crate::block::{fold_blocks, init_state, md5_blocks, md5_init, State};
use crate::hex::{digest_chars, digest_string, is_lower_hex_digit, lemma_digest_chars_format};
use crate::pad::{lemma_padded_shape, pad, padded};
use vstd::prelude::*;

verus! {

/// The MD5 digest of a byte sequence, as its 32 lowercase hexadecimal
/// characters.
pub open spec fn md5_spec(s: Seq<u8>) -> Seq<char> {
    digest_chars(fold_blocks(init_state(), padded(s)))
}

/// Computes the MD5 digest of `message` and returns it as a 32-character
/// lowercase hexadecimal string.
pub fn md5(message: &[u8]) -> (r: String)
    ensures
        r@ == md5_spec(message@),
{
    let padded_bytes = pad(message);
    proof {
        lemma_padded_shape(message@);
    }
    let st = md5_blocks(md5_init(), padded_bytes.as_slice());
    digest_string(&st)
}

/// A digest is always exactly 32 characters long and made of lowercase
/// hexadecimal digits alone, whatever the message.
pub proof fn lemma_digest_format(s: Seq<u8>)
    ensures
        md5_spec(s).len() == 32,
        forall|i: int| 0 <= i < 32 ==> is_lower_hex_digit(#[trigger] md5_spec(s)[i]),
{
    lemma_digest_chars_format(fold_blocks(init_state(), padded(s)));
}

/// The digest is a function of the message bytes alone: digesting the same
/// bytes twice yields the same string, character for character.
pub proof fn lemma_digest_deterministic(s: Seq<u8>, r1: Seq<char>, r2: Seq<char>)
    requires
        r1 == md5_spec(s),
        r2 == md5_spec(s),
    ensures
        r1 == r2,
{
}

} // verus!
