//! Verified string utilities: splitting, joining, bracket stripping,
//! line extraction and decimal rendering, each against a sequence-level
//! specification.

use vstd::prelude::*;

verus! {

/// Relies on std's `String::push`: appends exactly the given character.
/// vstd specifies `append` for string slices but not `push` for a char.
pub assume_specification[ String::push ](s: &mut String, c: char)
    ensures
        final(s)@ == old(s)@.push(c),
;

/// The character sequences of a sequence of owned strings.
pub open spec fn seq_views(v: Seq<String>) -> Seq<Seq<char>> {
    v.map_values(|s: String| s@)
}

/// The character sequences of a sequence of string slices.
pub open spec fn seq_views_ref(v: Seq<&str>) -> Seq<Seq<char>> {
    v.map_values(|s: &str| s@)
}

/// Character-wise string equality; equal views exactly when equal strings.
pub fn str_eq(a: &str, b: &str) -> (r: bool)
    ensures
        r == (a@ == b@),
{
    let alen = a.unicode_len();
    let blen = b.unicode_len();
    if alen != blen {
        return false;
    }
    let mut i: usize = 0;
    while i < alen
        invariant
            i <= alen,
            alen == a@.len(),
            alen == b@.len(),
            forall|j: int| 0 <= j < i ==> a@[j] == b@[j],
        decreases alen - i,
    {
        if a.get_char(i) != b.get_char(i) {
            return false;
        }
        i = i + 1;
    }
    proof {
        assert(a@ =~= b@);
    }
    true
}

/// Splitting a character sequence on a separator.  Splitting the empty
/// sequence yields one empty segment, so the result always has at least
/// one segment and joining the segments with the separator is the inverse.
pub open spec fn spec_split(s: Seq<char>, sep: char) -> Seq<Seq<char>>
    decreases s.len(),
{
    if s.len() == 0 {
        seq![Seq::<char>::empty()]
    } else {
        let pre = spec_split(s.drop_last(), sep);
        if s.last() == sep {
            pre.push(Seq::empty())
        } else {
            pre.update(pre.len() - 1, pre.last().push(s.last()))
        }
    }
}

pub proof fn lemma_spec_split_len(s: Seq<char>, sep: char)
    ensures
        spec_split(s, sep).len() >= 1,
    decreases s.len(),
{
    if s.len() > 0 {
        lemma_spec_split_len(s.drop_last(), sep);
    }
}

/// Splits a string on a separator character.
pub fn split_str(s: &str, sep: char) -> (r: Vec<String>)
    ensures
        seq_views(r@) == spec_split(s@, sep),
{
    let n = s.unicode_len();
    let mut out: Vec<String> = Vec::new();
    let mut cur: String = String::new();
    let mut i: usize = 0;
    while i < n
        invariant
            i <= n,
            n == s@.len(),
            seq_views(out@).push(cur@) =~= spec_split(s@.take(i as int), sep),
        decreases n - i,
    {
        let ghost prev_out = out@;
        let ghost prev_cur = cur@;
        let c = s.get_char(i);
        proof {
            assert(s@.take(i as int + 1).drop_last() =~= s@.take(i as int));
            assert(s@.take(i as int + 1).last() == s@[i as int]);
        }
        if c == sep {
            out.push(cur);
            cur = String::new();
            proof {
                assert(seq_views(out@).push(cur@) =~= seq_views(prev_out).push(prev_cur).push(
                    Seq::empty(),
                ));
            }
        } else {
            cur.push(c);
            proof {
                let pre = seq_views(prev_out).push(prev_cur);
                assert(seq_views(out@).push(cur@) =~= pre.update(
                    pre.len() - 1,
                    pre.last().push(c),
                ));
            }
        }
        i = i + 1;
    }
    proof {
        assert(s@.take(n as int) =~= s@);
    }
    out.push(cur);
    proof {
        assert(seq_views(out@) =~= spec_split(s@, sep));
    }
    out
}

/// Joining segments with a separator sequence; the inverse of `spec_split`
/// when the separator occurs in no segment.
pub open spec fn spec_join(parts: Seq<Seq<char>>, sep: Seq<char>) -> Seq<char>
    decreases parts.len(),
{
    if parts.len() == 0 {
        Seq::empty()
    } else if parts.len() == 1 {
        parts[0]
    } else {
        spec_join(parts.drop_last(), sep) + sep + parts.last()
    }
}

/// Joins owned strings with a separator.
pub fn join_strings(parts: &Vec<String>, sep: &str) -> (r: String)
    ensures
        r@ == spec_join(seq_views(parts@), sep@),
{
    let mut out: String = String::new();
    let mut i: usize = 0;
    while i < parts.len()
        invariant
            i <= parts@.len(),
            out@ =~= spec_join(seq_views(parts@).take(i as int), sep@),
        decreases parts@.len() - i,
    {
        proof {
            let views = seq_views(parts@);
            assert(views.take(i as int + 1).drop_last() =~= views.take(i as int));
            assert(views.take(i as int + 1).last() == views[i as int]);
        }
        if i > 0 {
            out.append(sep);
        }
        out.append(parts[i].as_str());
        i = i + 1;
    }
    proof {
        assert(seq_views(parts@).take(parts@.len() as int) =~= seq_views(parts@));
    }
    out
}

/// A segment with a matching pair of surrounding brackets stripped.
pub open spec fn spec_strip_brackets(s: Seq<char>) -> Seq<char> {
    if s.len() >= 2 && s[0] == '[' && s.last() == ']' {
        s.subrange(1, s.len() - 1)
    } else {
        s
    }
}

/// Strips one matching pair of surrounding brackets, if present.
pub fn strip_brackets(s: &str) -> (r: String)
    ensures
        r@ == spec_strip_brackets(s@),
{
    let n = s.unicode_len();
    if n >= 2 && s.get_char(0) == '[' && s.get_char(n - 1) == ']' {
        s.substring_char(1, n - 1).to_owned()
    } else {
        s.to_owned()
    }
}

/// The lines of a text: split on a line feed, with a final empty segment
/// from a trailing line feed dropped and a trailing carriage return
/// stripped from each line.
pub open spec fn spec_lines(s: Seq<char>) -> Seq<Seq<char>> {
    let parts = spec_split(s, '\n');
    let parts = if s.len() > 0 && s.last() == '\n' {
        parts.drop_last()
    } else {
        parts
    };
    parts.map_values(
        |l: Seq<char>|
            if l.len() > 0 && l.last() == '\r' {
                l.drop_last()
            } else {
                l
            },
    )
}

/// At most the first two lines of a text, joined by a line feed.
pub open spec fn spec_first_two_lines(s: Seq<char>) -> Seq<char> {
    let ls = spec_lines(s);
    if ls.len() <= 2 {
        spec_join(ls, "\n"@)
    } else {
        spec_join(ls.take(2), "\n"@)
    }
}

/// One line with a trailing carriage return stripped.
fn strip_cr(l: &str) -> (r: String)
    ensures
        r@ == (if l@.len() > 0 && l@.last() == '\r' {
            l@.drop_last()
        } else {
            l@
        }),
{
    let n = l.unicode_len();
    if n > 0 && l.get_char(n - 1) == '\r' {
        proof {
            assert(l@.subrange(0, n - 1) =~= l@.drop_last());
        }
        l.substring_char(0, n - 1).to_owned()
    } else {
        l.to_owned()
    }
}

/// At most the first two lines of a text, joined by a line feed.
pub fn first_two_lines(s: &str) -> (r: String)
    ensures
        r@ == spec_first_two_lines(s@),
{
    let mut parts = split_str(s, '\n');
    let ghost raw = seq_views(parts@);
    let n = s.unicode_len();
    if n > 0 && s.get_char(n - 1) == '\n' {
        proof {
            lemma_spec_split_len(s@, '\n');
        }
        let _ = parts.pop();
        proof {
            assert(seq_views(parts@) =~= raw.drop_last());
        }
    }
    let ghost kept = seq_views(parts@);
    let ghost stripped = spec_lines(s@);
    proof {
        assert(stripped =~= kept.map_values(
            |l: Seq<char>|
                if l.len() > 0 && l.last() == '\r' {
                    l.drop_last()
                } else {
                    l
                },
        ));
    }
    if parts.len() == 0 {
        String::new()
    } else if parts.len() == 1 {
        let first = strip_cr(parts[0].as_str());
        proof {
            assert(stripped.len() == 1);
            assert(stripped[0] == first@);
        }
        first
    } else {
        let mut out = strip_cr(parts[0].as_str());
        out.push('\n');
        let second = strip_cr(parts[1].as_str());
        out.append(second.as_str());
        proof {
            reveal_strlit("\n");
            assert("\n"@ =~= seq!['\n']);
            let two = if stripped.len() <= 2 {
                stripped
            } else {
                stripped.take(2)
            };
            assert(two.len() == 2);
            assert(two.drop_last() =~= seq![stripped[0]]);
            assert(spec_join(seq![stripped[0]], "\n"@) == stripped[0]);
            assert(spec_join(two, "\n"@) == spec_join(two.drop_last(), "\n"@) + "\n"@
                + two.last());
            assert(two.last() == stripped[1]);
            assert(out@ =~= stripped[0] + "\n"@ + stripped[1]);
            assert(out@ =~= spec_join(two, "\n"@));
        }
        out
    }
}

/// The decimal digit or upper-case hexadecimal digit for a value below 16.
pub open spec fn spec_hex_digit(n: u8) -> char {
    if n < 10 {
        ((48 + n) as u8) as char
    } else {
        ((55 + n) as u8) as char
    }
}

/// Renders one digit value below 16.
pub fn hex_digit(n: u8) -> (c: char)
    requires
        n < 16,
    ensures
        c == spec_hex_digit(n),
{
    if n < 10 {
        (48 + n) as char
    } else {
        (55 + n) as char
    }
}

/// The decimal rendering of a non-negative integer, most significant
/// digit first, with no leading zeros.
pub open spec fn spec_dec_nat(n: int) -> Seq<char>
    decreases n,
{
    if n < 0 {
        Seq::empty()
    } else if n < 10 {
        seq![spec_hex_digit(n as u8)]
    } else {
        spec_dec_nat(n / 10).push(spec_hex_digit((n % 10) as u8))
    }
}

/// The decimal rendering of a signed integer.
pub open spec fn spec_dec_int(n: int) -> Seq<char> {
    if n < 0 {
        seq!['-'] + spec_dec_nat(-n)
    } else {
        spec_dec_nat(n)
    }
}

/// The digit characters of collected low-order-first digits, rendered in
/// output order.
spec fn digits_rev(ds: Seq<u8>) -> Seq<char>
    decreases ds.len(),
{
    if ds.len() == 0 {
        Seq::empty()
    } else {
        seq![spec_hex_digit(ds.last())] + digits_rev(ds.drop_last())
    }
}

/// Renders an unsigned integer in decimal.
pub fn u64_to_string(n: u64) -> (r: String)
    ensures
        r@ == spec_dec_nat(n as int),
{
    let mut ds: Vec<u8> = Vec::new();
    let mut m: u64 = n;
    while m >= 10
        invariant
            spec_dec_nat(n as int) =~= spec_dec_nat(m as int) + digits_rev(ds@),
            forall|j: int| 0 <= j < ds@.len() ==> ds@[j] < 10,
        decreases m,
    {
        let ghost prev = ds@;
        let d = (m % 10) as u8;
        ds.push(d);
        proof {
            assert(ds@.drop_last() =~= prev);
            assert(spec_dec_nat(m as int) =~= spec_dec_nat(m as int / 10).push(
                spec_hex_digit((m as int % 10) as u8),
            ));
            assert(spec_dec_nat(m as int) + digits_rev(prev) =~= spec_dec_nat(m as int / 10)
                + digits_rev(ds@));
        }
        m = m / 10;
    }
    let mut out = String::new();
    out.push(hex_digit(m as u8));
    let mut i: usize = ds.len();
    proof {
        assert(ds@.take(i as int) =~= ds@);
        assert(out@ =~= Seq::empty().push(spec_hex_digit(m as u8)));
        assert(out@ + digits_rev(ds@.take(i as int)) =~= spec_dec_nat(n as int));
    }
    while i > 0
        invariant
            i <= ds@.len(),
            forall|j: int| 0 <= j < ds@.len() ==> ds@[j] < 10,
            out@ + digits_rev(ds@.take(i as int)) =~= spec_dec_nat(n as int),
        decreases i,
    {
        let d = ds[i - 1];
        out.push(hex_digit(d));
        proof {
            assert(ds@.take(i as int).drop_last() =~= ds@.take(i as int - 1));
            assert(ds@.take(i as int).last() == d);
        }
        i = i - 1;
    }
    proof {
        assert(ds@.take(0) =~= Seq::<u8>::empty());
        assert(out@ =~= spec_dec_nat(n as int));
    }
    out
}

/// Renders a signed integer in decimal.
pub fn i64_to_string(n: i64) -> (r: String)
    ensures
        r@ == spec_dec_int(n as int),
{
    if n >= 0 {
        u64_to_string(n as u64)
    } else {
        let m: u64 = ((-(n + 1)) as u64) + 1;
        proof {
            assert(m as int == -(n as int));
        }
        let mut out = String::new();
        out.push('-');
        let digits = u64_to_string(m);
        out.append(digits.as_str());
        proof {
            assert(out@ =~= seq!['-'] + spec_dec_nat(-(n as int)));
        }
        out
    }
}

/// The literal text of a boolean.
pub open spec fn spec_bool_str(b: bool) -> Seq<char> {
    if b {
        "true"@
    } else {
        "false"@
    }
}

/// Renders a boolean as its literal text.
pub fn bool_to_string(b: bool) -> (r: String)
    ensures
        r@ == spec_bool_str(b),
{
    if b {
        String::from_str("true")
    } else {
        String::from_str("false")
    }
}

} // verus!
