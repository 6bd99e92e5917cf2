//! Percent-encoding of query-string components.
//!
//! Every byte of the UTF-8 encoding of the input is written as `%XX` with
//! upper-case hexadecimal digits, except the unreserved characters
//! `A`-`Z`, `a`-`z`, `0`-`9`, `-`, `.`, `_` and `~`, which pass through
//! unchanged.

use vstd::prelude::*;
use vstd::utf8::encode_scalar;
use vstd::utf8::has_width_3_encoding;
use vstd::utf8::char_is_scalar;
use crate::strutil::digit_char;
use crate::strutil::hex_upper_char;
use crate::strutil::push_char;

verus! {

/// True for the characters that percent-encoding leaves as they are.
pub open spec fn is_unreserved(c: char) -> bool {
    let u = c as int;
    (0x30 <= u && u <= 0x39)  // 0-9
     || (0x41 <= u && u <= 0x5A)  // A-Z
     || (0x61 <= u && u <= 0x7A)  // a-z
     || u == 0x2D  // -
     || u == 0x2E  // .
     || u == 0x5F  // _
     || u == 0x7E  // ~

}

/// The three characters `%XX` that stand for one escaped byte.
pub open spec fn percent_byte(b: u8) -> Seq<char> {
    seq!['%', digit_char(b as int / 16), digit_char(b as int % 16)]
}

/// The escape sequence for a run of bytes, each written as `%XX`.
pub open spec fn percent_bytes(bs: Seq<u8>) -> Seq<char>
    decreases bs.len(),
{
    if bs.len() == 0 {
        Seq::empty()
    } else {
        percent_bytes(bs.drop_last()) + percent_byte(bs.last())
    }
}

/// What one character contributes to the encoded output: itself when
/// unreserved, otherwise the escape of its UTF-8 bytes.
pub open spec fn percent_encoded_char(c: char) -> Seq<char> {
    if is_unreserved(c) {
        seq![c]
    } else {
        percent_bytes(encode_scalar(c as u32))
    }
}

/// The percent-encoding of a character sequence.
pub open spec fn percent_encoded(s: Seq<char>) -> Seq<char>
    decreases s.len(),
{
    if s.len() == 0 {
        Seq::empty()
    } else {
        percent_encoded(s.drop_last()) + percent_encoded_char(s.last())
    }
}

proof fn lemma_percent_bytes_one(b1: u8)
    ensures
        percent_bytes(seq![b1]) == percent_byte(b1),
{
    assert(seq![b1].drop_last() =~= Seq::<u8>::empty());
    assert(seq![b1].last() == b1);
    assert(percent_bytes(Seq::<u8>::empty()) == Seq::<char>::empty());
    assert(percent_bytes(seq![b1]) =~= percent_byte(b1));
}

proof fn lemma_percent_bytes_two(b1: u8, b2: u8)
    ensures
        percent_bytes(seq![b1, b2]) == percent_byte(b1) + percent_byte(b2),
{
    lemma_percent_bytes_one(b1);
    assert(seq![b1, b2].drop_last() =~= seq![b1]);
    assert(seq![b1, b2].last() == b2);
    assert(percent_bytes(seq![b1, b2]) =~= percent_byte(b1) + percent_byte(b2));
}

proof fn lemma_percent_bytes_three(b1: u8, b2: u8, b3: u8)
    ensures
        percent_bytes(seq![b1, b2, b3]) == percent_byte(b1) + percent_byte(b2) + percent_byte(b3),
{
    lemma_percent_bytes_two(b1, b2);
    assert(seq![b1, b2, b3].drop_last() =~= seq![b1, b2]);
    assert(seq![b1, b2, b3].last() == b3);
    assert(percent_bytes(seq![b1, b2, b3]) =~= percent_byte(b1) + percent_byte(b2) + percent_byte(
        b3,
    ));
}

proof fn lemma_percent_bytes_four(b1: u8, b2: u8, b3: u8, b4: u8)
    ensures
        percent_bytes(seq![b1, b2, b3, b4]) == percent_byte(b1) + percent_byte(b2) + percent_byte(
            b3,
        ) + percent_byte(b4),
{
    lemma_percent_bytes_three(b1, b2, b3);
    assert(seq![b1, b2, b3, b4].drop_last() =~= seq![b1, b2, b3]);
    assert(seq![b1, b2, b3, b4].last() == b4);
    assert(percent_bytes(seq![b1, b2, b3, b4]) =~= percent_byte(b1) + percent_byte(b2)
        + percent_byte(b3) + percent_byte(b4));
}

/// Appends `%XX` for one byte.
fn push_percent_byte(out: &mut String, b: u8)
    ensures
        final(out)@ == old(out)@ + percent_byte(b),
{
    let v = b as u32;
    push_char(out, '%');
    push_char(out, hex_upper_char(v / 16));
    push_char(out, hex_upper_char(v % 16));
    proof {
        assert(out@ =~= old(out)@ + percent_byte(b));
    }
}

/// Appends the encoding of one character.
fn push_percent_encoded_char(out: &mut String, c: char)
    ensures
        final(out)@ == old(out)@ + percent_encoded_char(c),
{
    let u = c as u32;
    proof {
        char_is_scalar(c);
    }
    if (0x30 <= u && u <= 0x39) || (0x41 <= u && u <= 0x5A) || (0x61 <= u && u <= 0x7A) || u
        == 0x2D || u == 0x2E || u == 0x5F || u == 0x7E {
        push_char(out, c);
        proof {
            assert(out@ =~= old(out)@ + percent_encoded_char(c));
        }
    } else if u < 0x80 {
        let b1: u8 = (u & 0x7F) as u8;
        proof {
            assert(!is_unreserved(c));
            assert(encode_scalar(u) == seq![b1]);
            lemma_percent_bytes_one(b1);
        }
        push_percent_byte(out, b1);
        proof {
            assert(out@ =~= old(out)@ + percent_encoded_char(c));
        }
    } else if u < 0x800 {
        let b1: u8 = 0xC0 | ((u >> 6) & 0x1F) as u8;
        let b2: u8 = 0x80 | (u & 0x3F) as u8;
        proof {
            assert(!is_unreserved(c));
            assert(encode_scalar(u) == seq![b1, b2]);
            lemma_percent_bytes_two(b1, b2);
        }
        push_percent_byte(out, b1);
        push_percent_byte(out, b2);
        proof {
            assert(out@ =~= old(out)@ + percent_encoded_char(c));
        }
    } else if u < 0x10000 {
        let b1: u8 = 0xE0 | ((u >> 12) & 0x0F) as u8;
        let b2: u8 = 0x80 | ((u >> 6) & 0x3F) as u8;
        let b3: u8 = 0x80 | (u & 0x3F) as u8;
        proof {
            assert(!is_unreserved(c));
            assert(has_width_3_encoding(u));
            assert(encode_scalar(u) == seq![b1, b2, b3]);
            lemma_percent_bytes_three(b1, b2, b3);
        }
        push_percent_byte(out, b1);
        push_percent_byte(out, b2);
        push_percent_byte(out, b3);
        proof {
            assert(out@ =~= old(out)@ + percent_encoded_char(c));
        }
    } else {
        let b1: u8 = 0xF0 | ((u >> 18) & 0x7) as u8;
        let b2: u8 = 0x80 | ((u >> 12) & 0x3F) as u8;
        let b3: u8 = 0x80 | ((u >> 6) & 0x3F) as u8;
        let b4: u8 = 0x80 | (u & 0x3F) as u8;
        proof {
            assert(!is_unreserved(c));
            assert(encode_scalar(u) == seq![b1, b2, b3, b4]);
            lemma_percent_bytes_four(b1, b2, b3, b4);
        }
        push_percent_byte(out, b1);
        push_percent_byte(out, b2);
        push_percent_byte(out, b3);
        push_percent_byte(out, b4);
        proof {
            assert(out@ =~= old(out)@ + percent_encoded_char(c));
        }
    }
}

/// Percent-encodes a string for use as one value in a URL query string.
pub fn percent_encode(s: &str) -> (r: String)
    ensures
        r@ == percent_encoded(s@),
{
    let n = s.unicode_len();
    let mut out = String::new();
    let mut i: usize = 0;
    while i < n
        invariant
            i <= n,
            n == s@.len(),
            out@ == percent_encoded(s@.take(i as int)),
        decreases n - i,
    {
        let c = s.get_char(i);
        push_percent_encoded_char(&mut out, c);
        proof {
            assert(s@.take(i + 1).drop_last() =~= s@.take(i as int));
            assert(s@.take(i + 1).last() == c);
        }
        i = i + 1;
    }
    proof {
        assert(s@.take(n as int) =~= s@);
    }
    out
}

} // verus!
