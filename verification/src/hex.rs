//! Rendering a digest state as the conventional 32-character string: each
//! accumulator is printed as eight lowercase hexadecimal digits, bytes taken
//! in little-endian order (equivalently, the word printed big-endian after a
//! byte swap).
use crate::block::State;
use vstd::prelude::*;
use vstd::string::StringExecFns;

verus! {

/// The lowercase hexadecimal digit for a value below 16.
pub open spec fn hex_digit_char(n: int) -> char {
    if n == 0 {
        '0'
    } else if n == 1 {
        '1'
    } else if n == 2 {
        '2'
    } else if n == 3 {
        '3'
    } else if n == 4 {
        '4'
    } else if n == 5 {
        '5'
    } else if n == 6 {
        '6'
    } else if n == 7 {
        '7'
    } else if n == 8 {
        '8'
    } else if n == 9 {
        '9'
    } else if n == 10 {
        'a'
    } else if n == 11 {
        'b'
    } else if n == 12 {
        'c'
    } else if n == 13 {
        'd'
    } else if n == 14 {
        'e'
    } else {
        'f'
    }
}

/// The two hexadecimal digits of one byte, high nibble first.
pub open spec fn byte_hex(b: u8) -> Seq<char> {
    seq![hex_digit_char(b as int / 16), hex_digit_char(b as int % 16)]
}

/// The eight hexadecimal digits of one accumulator: its bytes in
/// little-endian order, two digits each.
pub open spec fn word_hex(w: u32) -> Seq<char> {
    byte_hex((w & 0xff) as u8) + byte_hex(((w >> 8u32) & 0xff) as u8) + byte_hex(
        ((w >> 16u32) & 0xff) as u8,
    ) + byte_hex(((w >> 24u32) & 0xff) as u8)
}

/// The 32 characters of a finished digest: the four accumulators in order.
pub open spec fn digest_chars(st: State) -> Seq<char> {
    word_hex(st.a) + word_hex(st.b) + word_hex(st.c) + word_hex(st.d)
}

/// True of the characters a digest string may hold.
pub open spec fn is_lower_hex_digit(c: char) -> bool {
    ('0' <= c && c <= '9') || ('a' <= c && c <= 'f')
}

fn hex_digit_str(n: u8) -> (r: &'static str)
    requires
        n < 16,
    ensures
        r@.len() == 1,
        r@[0] == hex_digit_char(n as int),
{
    if n == 0 {
        proof {
            reveal_strlit("0");
        }
        "0"
    } else if n == 1 {
        proof {
            reveal_strlit("1");
        }
        "1"
    } else if n == 2 {
        proof {
            reveal_strlit("2");
        }
        "2"
    } else if n == 3 {
        proof {
            reveal_strlit("3");
        }
        "3"
    } else if n == 4 {
        proof {
            reveal_strlit("4");
        }
        "4"
    } else if n == 5 {
        proof {
            reveal_strlit("5");
        }
        "5"
    } else if n == 6 {
        proof {
            reveal_strlit("6");
        }
        "6"
    } else if n == 7 {
        proof {
            reveal_strlit("7");
        }
        "7"
    } else if n == 8 {
        proof {
            reveal_strlit("8");
        }
        "8"
    } else if n == 9 {
        proof {
            reveal_strlit("9");
        }
        "9"
    } else if n == 10 {
        proof {
            reveal_strlit("a");
        }
        "a"
    } else if n == 11 {
        proof {
            reveal_strlit("b");
        }
        "b"
    } else if n == 12 {
        proof {
            reveal_strlit("c");
        }
        "c"
    } else if n == 13 {
        proof {
            reveal_strlit("d");
        }
        "d"
    } else if n == 14 {
        proof {
            reveal_strlit("e");
        }
        "e"
    } else {
        proof {
            reveal_strlit("f");
        }
        "f"
    }
}

fn push_byte_hex(s: &mut String, b: u8)
    ensures
        final(s)@ == old(s)@ + byte_hex(b),
{
    let hi = b / 16;
    let lo = b % 16;
    s.append(hex_digit_str(hi));
    s.append(hex_digit_str(lo));
    proof {
        assert(s@ =~= old(s)@ + byte_hex(b));
    }
}

fn push_word_hex(s: &mut String, w: u32)
    ensures
        final(s)@ == old(s)@ + word_hex(w),
{
    proof {
        assert((w & 0xff) < 256 && ((w >> 8u32) & 0xff) < 256 && ((w >> 16u32) & 0xff) < 256 && ((w
            >> 24u32) & 0xff) < 256) by (bit_vector);
    }
    push_byte_hex(s, (w & 0xff) as u8);
    push_byte_hex(s, ((w >> 8u32) & 0xff) as u8);
    push_byte_hex(s, ((w >> 16u32) & 0xff) as u8);
    push_byte_hex(s, ((w >> 24u32) & 0xff) as u8);
    proof {
        assert(s@ =~= old(s)@ + word_hex(w));
    }
}

/// Renders a finished digest state as its 32-character string.
pub fn digest_string(st: &State) -> (r: String)
    ensures
        r@ == digest_chars(*st),
{
    let mut s = String::new();
    push_word_hex(&mut s, st.a);
    push_word_hex(&mut s, st.b);
    push_word_hex(&mut s, st.c);
    push_word_hex(&mut s, st.d);
    proof {
        assert(s@ =~= digest_chars(*st));
    }
    s
}

/// Every character that `hex_digit_char` can yield for a nibble is a
/// lowercase hexadecimal digit.
proof fn lemma_hex_digit_char_range(n: int)
    requires
        0 <= n < 16,
    ensures
        is_lower_hex_digit(hex_digit_char(n)),
{
}

/// A digest string always holds exactly 32 characters, each a lowercase
/// hexadecimal digit.
pub proof fn lemma_digest_chars_format(st: State)
    ensures
        digest_chars(st).len() == 32,
        forall|i: int| 0 <= i < 32 ==> is_lower_hex_digit(#[trigger] digest_chars(st)[i]),
{
    assert forall|i: int| 0 <= i < 32 implies is_lower_hex_digit(
        #[trigger] digest_chars(st)[i],
    ) by {
        lemma_word_hex_format(st.a);
        lemma_word_hex_format(st.b);
        lemma_word_hex_format(st.c);
        lemma_word_hex_format(st.d);
    }
}

/// Each accumulator contributes eight lowercase hexadecimal digits.
proof fn lemma_word_hex_format(w: u32)
    ensures
        word_hex(w).len() == 8,
        forall|i: int| 0 <= i < 8 ==> is_lower_hex_digit(#[trigger] word_hex(w)[i]),
{
    assert forall|i: int| 0 <= i < 8 implies is_lower_hex_digit(#[trigger] word_hex(w)[i]) by {
        lemma_byte_hex_format((w & 0xff) as u8);
        lemma_byte_hex_format(((w >> 8u32) & 0xff) as u8);
        lemma_byte_hex_format(((w >> 16u32) & 0xff) as u8);
        lemma_byte_hex_format(((w >> 24u32) & 0xff) as u8);
    }
}

/// Both digits of a byte are lowercase hexadecimal digits.
proof fn lemma_byte_hex_format(b: u8)
    ensures
        byte_hex(b).len() == 2,
        forall|i: int| 0 <= i < 2 ==> is_lower_hex_digit(#[trigger] byte_hex(b)[i]),
{
    lemma_hex_digit_char_range(b as int / 16);
    lemma_hex_digit_char_range(b as int % 16);
}

} // verus!
