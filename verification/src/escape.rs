//! Verified percent-escaping for URL path segments and
//! form-urlencoded query components, over vstd's UTF-8 model.

use crate::text::{hex_digit, spec_hex_digit};
use vstd::prelude::*;
use vstd::utf8::{char_is_scalar, encode_scalar};

verus! {

/// Unreserved characters kept verbatim in an escaped path segment.
pub open spec fn path_safe(c: char) -> bool {
    let v = c as u32;
    (65 <= v <= 90) || (97 <= v <= 122) || (48 <= v <= 57) || v == 45 || v == 46 || v == 95 || v
        == 126
}

/// Characters kept verbatim in a form-urlencoded query component.
pub open spec fn query_safe(c: char) -> bool {
    let v = c as u32;
    (65 <= v <= 90) || (97 <= v <= 122) || (48 <= v <= 57) || v == 42 || v == 45 || v == 46 || v
        == 95
}

/// The three characters of one percent-escaped byte.
pub open spec fn spec_pct_byte(b: u8) -> Seq<char> {
    seq!['%', spec_hex_digit(b / 16), spec_hex_digit(b % 16)]
}

/// The percent-escaping of a byte sequence.
pub open spec fn spec_pct_bytes(bs: Seq<u8>) -> Seq<char>
    decreases bs.len(),
{
    if bs.len() == 0 {
        Seq::empty()
    } else {
        spec_pct_bytes(bs.drop_last()) + spec_pct_byte(bs.last())
    }
}

/// One character of a path segment after escaping: kept when unreserved,
/// else each byte of its UTF-8 encoding percent-escaped.
pub open spec fn spec_path_escape_char(c: char) -> Seq<char> {
    if path_safe(c) {
        seq![c]
    } else {
        spec_pct_bytes(encode_scalar(c as u32))
    }
}

/// A path segment after percent-escaping.
pub open spec fn spec_path_escape(s: Seq<char>) -> Seq<char>
    decreases s.len(),
{
    if s.len() == 0 {
        Seq::empty()
    } else {
        spec_path_escape(s.drop_last()) + spec_path_escape_char(s.last())
    }
}

/// One character of a query component after escaping: kept when safe,
/// a space as a plus sign, else percent-escaped bytewise.
pub open spec fn spec_query_escape_char(c: char) -> Seq<char> {
    if query_safe(c) {
        seq![c]
    } else if c == ' ' {
        seq!['+']
    } else {
        spec_pct_bytes(encode_scalar(c as u32))
    }
}

/// A query key or value after form-urlencoded escaping.
pub open spec fn spec_query_escape(s: Seq<char>) -> Seq<char>
    decreases s.len(),
{
    if s.len() == 0 {
        Seq::empty()
    } else {
        spec_query_escape(s.drop_last()) + spec_query_escape_char(s.last())
    }
}

/// The UTF-8 bytes of one character, per vstd's scalar encoding.
pub fn char_utf8_bytes(c: char) -> (r: Vec<u8>)
    ensures
        r@ == encode_scalar(c as u32),
{
    proof {
        char_is_scalar(c);
    }
    let v = c as u32;
    let mut r: Vec<u8> = Vec::new();
    if v <= 0x7F {
        proof {
            assert((v & 0x7F) <= 0x7F) by (bit_vector);
        }
        r.push((v & 0x7F) as u8);
        proof {
            assert(r@ =~= encode_scalar(v));
        }
    } else if v <= 0x7FF {
        proof {
            assert(((v >> 6) & 0x1F) <= 0x1F) by (bit_vector);
            assert((v & 0x3F) <= 0x3F) by (bit_vector);
        }
        r.push(0xC0 | ((v >> 6) & 0x1F) as u8);
        r.push(0x80 | (v & 0x3F) as u8);
        proof {
            assert(r@ =~= encode_scalar(v));
        }
    } else if v <= 0xFFFF {
        proof {
            assert(((v >> 12) & 0x0F) <= 0x0F) by (bit_vector);
            assert(((v >> 6) & 0x3F) <= 0x3F) by (bit_vector);
            assert((v & 0x3F) <= 0x3F) by (bit_vector);
        }
        r.push(0xE0 | ((v >> 12) & 0x0F) as u8);
        r.push(0x80 | ((v >> 6) & 0x3F) as u8);
        r.push(0x80 | (v & 0x3F) as u8);
        proof {
            assert(r@ =~= encode_scalar(v));
        }
    } else {
        proof {
            assert(((v >> 18) & 0x7) <= 0x7) by (bit_vector);
            assert(((v >> 12) & 0x3F) <= 0x3F) by (bit_vector);
            assert(((v >> 6) & 0x3F) <= 0x3F) by (bit_vector);
            assert((v & 0x3F) <= 0x3F) by (bit_vector);
        }
        r.push(0xF0 | ((v >> 18) & 0x7) as u8);
        r.push(0x80 | ((v >> 12) & 0x3F) as u8);
        r.push(0x80 | ((v >> 6) & 0x3F) as u8);
        r.push(0x80 | (v & 0x3F) as u8);
        proof {
            assert(r@ =~= encode_scalar(v));
        }
    }
    r
}

/// Appends the percent-escaping of each byte to the output.
fn push_pct_bytes(out: &mut String, bs: &Vec<u8>)
    ensures
        final(out)@ == old(out)@ + spec_pct_bytes(bs@),
{
    let mut i: usize = 0;
    while i < bs.len()
        invariant
            i <= bs@.len(),
            out@ =~= old(out)@ + spec_pct_bytes(bs@.take(i as int)),
        decreases bs@.len() - i,
    {
        let b = bs[i];
        out.push('%');
        out.push(hex_digit(b / 16));
        out.push(hex_digit(b % 16));
        proof {
            assert(bs@.take(i as int + 1).drop_last() =~= bs@.take(i as int));
            assert(bs@.take(i as int + 1).last() == b);
            assert(out@ =~= old(out)@ + spec_pct_bytes(bs@.take(i as int + 1)));
        }
        i = i + 1;
    }
    proof {
        assert(bs@.take(bs@.len() as int) =~= bs@);
    }
}

/// Whether a character stays verbatim in a path segment.
fn is_path_safe(c: char) -> (r: bool)
    ensures
        r == path_safe(c),
{
    let v = c as u32;
    (65 <= v && v <= 90) || (97 <= v && v <= 122) || (48 <= v && v <= 57) || v == 45 || v == 46
        || v == 95 || v == 126
}

/// Whether a character stays verbatim in a query component.
fn is_query_safe(c: char) -> (r: bool)
    ensures
        r == query_safe(c),
{
    let v = c as u32;
    (65 <= v && v <= 90) || (97 <= v && v <= 122) || (48 <= v && v <= 57) || v == 42 || v == 45
        || v == 46 || v == 95
}

/// Percent-escapes one URL path segment.
pub fn path_escape(s: &str) -> (r: String)
    ensures
        r@ == spec_path_escape(s@),
{
    let n = s.unicode_len();
    let mut out = String::new();
    let mut i: usize = 0;
    while i < n
        invariant
            i <= n,
            n == s@.len(),
            out@ =~= spec_path_escape(s@.take(i as int)),
        decreases n - i,
    {
        let c = s.get_char(i);
        proof {
            assert(s@.take(i as int + 1).drop_last() =~= s@.take(i as int));
            assert(s@.take(i as int + 1).last() == c);
        }
        if is_path_safe(c) {
            out.push(c);
        } else {
            let bs = char_utf8_bytes(c);
            push_pct_bytes(&mut out, &bs);
        }
        proof {
            assert(out@ =~= spec_path_escape(s@.take(i as int + 1)));
        }
        i = i + 1;
    }
    proof {
        assert(s@.take(n as int) =~= s@);
    }
    out
}

/// Form-urlencodes one query key or value.
pub fn query_escape(s: &str) -> (r: String)
    ensures
        r@ == spec_query_escape(s@),
{
    let n = s.unicode_len();
    let mut out = String::new();
    let mut i: usize = 0;
    while i < n
        invariant
            i <= n,
            n == s@.len(),
            out@ =~= spec_query_escape(s@.take(i as int)),
        decreases n - i,
    {
        let c = s.get_char(i);
        proof {
            assert(s@.take(i as int + 1).drop_last() =~= s@.take(i as int));
            assert(s@.take(i as int + 1).last() == c);
        }
        if is_query_safe(c) {
            out.push(c);
        } else if c == ' ' {
            out.push('+');
        } else {
            let bs = char_utf8_bytes(c);
            push_pct_bytes(&mut out, &bs);
        }
        proof {
            assert(out@ =~= spec_query_escape(s@.take(i as int + 1)));
        }
        i = i + 1;
    }
    proof {
        assert(s@.take(n as int) =~= s@);
    }
    out
}

} // verus!
