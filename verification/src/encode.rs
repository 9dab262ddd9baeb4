//! Byte-level JSON emission for request bodies: strings with escaping,
//! decimal integers, and comma-joined arrays, each pinned to a spec-level
//! byte sequence.

use vstd::prelude::*;
use vstd::utf8::encode_utf8;

verus! {

/// The bytes of a string literal key, as UTF-8.
pub open spec fn lit_bytes(s: &str) -> Seq<u8> {
    encode_utf8(s@)
}

/// A hexadecimal digit, lower case.
pub open spec fn hex_digit(d: int) -> u8 {
    if d < 10 {
        (48 + d) as u8
    } else {
        (87 + d) as u8
    }
}

/// How one byte of string content is emitted: quote and backslash get a
/// backslash escape, control bytes a `\u00..` escape, all else stands as is.
pub open spec fn esc_byte(b: u8) -> Seq<u8> {
    if b == 34 {
        seq![92u8, 34u8]
    } else if b == 92 {
        seq![92u8, 92u8]
    } else if b < 32 {
        seq![92u8, 117u8, 48u8, 48u8, hex_digit(b as int / 16), hex_digit(b as int % 16)]
    } else {
        seq![b]
    }
}

/// String content, escaped byte by byte.
pub open spec fn esc_bytes(bs: Seq<u8>) -> Seq<u8>
    decreases bs.len(),
{
    if bs.len() == 0 {
        Seq::empty()
    } else {
        esc_bytes(bs.drop_last()) + esc_byte(bs.last())
    }
}

/// A JSON string: quoted, escaped UTF-8.
pub open spec fn jstr(s: Seq<char>) -> Seq<u8> {
    seq![34u8] + esc_bytes(encode_utf8(s)) + seq![34u8]
}

/// A decimal numeral, most significant digit first.
pub open spec fn dec_bytes(n: nat) -> Seq<u8>
    decreases n,
{
    if n < 10 {
        seq![(48 + n) as u8]
    } else {
        dec_bytes(n / 10) + seq![(48 + n % 10) as u8]
    }
}

/// A JSON integer, with a leading minus sign where negative.
pub open spec fn int_bytes(i: int) -> Seq<u8> {
    if i < 0 {
        seq![45u8] + dec_bytes((-i) as nat)
    } else {
        dec_bytes(i as nat)
    }
}

/// Items joined by commas.
pub open spec fn comma_join(items: Seq<Seq<u8>>) -> Seq<u8>
    decreases items.len(),
{
    if items.len() == 0 {
        Seq::empty()
    } else if items.len() == 1 {
        items[0]
    } else {
        comma_join(items.drop_last()) + seq![44u8] + items.last()
    }
}

/// A JSON array of the given item encodings.
pub open spec fn jarr(items: Seq<Seq<u8>>) -> Seq<u8> {
    seq![91u8] + comma_join(items) + seq![93u8]
}

/// A JSON array of strings.
pub open spec fn jstr_arr(ss: Seq<Seq<char>>) -> Seq<u8> {
    jarr(ss.map_values(|s: Seq<char>| jstr(s)))
}

/// A JSON array of arrays of strings.
pub open spec fn jstr_arr_arr(gs: Seq<Seq<Seq<char>>>) -> Seq<u8> {
    jarr(gs.map_values(|g: Seq<Seq<char>>| jstr_arr(g)))
}

/// A decimal digit, as a character.
pub open spec fn dec_digit_char(d: int) -> char {
    seq!['0', '1', '2', '3', '4', '5', '6', '7', '8', '9'][d]
}

/// A decimal numeral, as characters, most significant digit first.
pub open spec fn dec_chars(n: nat) -> Seq<char>
    decreases n,
{
    if n < 10 {
        seq![dec_digit_char(n as int)]
    } else {
        dec_chars(n / 10) + seq![dec_digit_char((n % 10) as int)]
    }
}

/// A decimal integer, as characters, with a leading minus where negative.
pub open spec fn int_chars(i: int) -> Seq<char> {
    if i < 0 {
        seq!['-'] + dec_chars((-i) as nat)
    } else {
        dec_chars(i as nat)
    }
}

/// One decimal digit as a string slice.
fn digit_str(d: u64) -> (r: &'static str)
    requires
        d < 10,
    ensures
        r@ == seq![dec_digit_char(d as int)],
{
    let r = if d == 0 {
        "0"
    } else if d == 1 {
        "1"
    } else if d == 2 {
        "2"
    } else if d == 3 {
        "3"
    } else if d == 4 {
        "4"
    } else if d == 5 {
        "5"
    } else if d == 6 {
        "6"
    } else if d == 7 {
        "7"
    } else if d == 8 {
        "8"
    } else {
        "9"
    };
    proof {
        reveal_strlit("0");
        reveal_strlit("1");
        reveal_strlit("2");
        reveal_strlit("3");
        reveal_strlit("4");
        reveal_strlit("5");
        reveal_strlit("6");
        reveal_strlit("7");
        reveal_strlit("8");
        reveal_strlit("9");
        assert(r@ =~= seq![dec_digit_char(d as int)]);
    }
    r
}

/// Appends the decimal numeral of `n` to `s`.
pub(crate) fn append_dec(s: &mut String, n: u64)
    ensures
        final(s)@ == old(s)@ + dec_chars(n as nat),
    decreases n,
{
    if n < 10 {
        s.append(digit_str(n));
    } else {
        append_dec(s, n / 10);
        s.append(digit_str(n % 10));
    }
    proof {
        assert(final(s)@ =~= old(s)@ + dec_chars(n as nat));
    }
}

/// Appends the decimal form of `n`, signed, to `s`.
pub(crate) fn append_i64(s: &mut String, n: i64)
    ensures
        final(s)@ == old(s)@ + int_chars(n as int),
{
    if n >= 0 {
        append_dec(s, n as u64);
    } else {
        s.append("-");
        let m: u64 = if n == i64::MIN {
            9223372036854775808u64
        } else {
            (-n) as u64
        };
        assert(m as nat == (-(n as int)) as nat);
        append_dec(s, m);
        proof {
            reveal_strlit("-");
            assert(final(s)@ =~= old(s)@ + int_chars(n as int));
        }
    }
}

/// Appends a JSON string for `s` to `out`.
pub(crate) fn push_json_string(out: &mut Vec<u8>, s: &str)
    ensures
        final(out)@ == old(out)@ + jstr(s@),
{
    let ghost pre = out@;
    out.push(34);
    let bs = s.as_bytes();
    let mut i: usize = 0;
    while i < bs.len()
        invariant
            i <= bs@.len(),
            bs@ == encode_utf8(s@),
            out@ == pre + seq![34u8] + esc_bytes(bs@.take(i as int)),
        decreases bs@.len() - i,
    {
        let ghost done = bs@.take(i as int);
        let b = bs[i];
        if b == 34 {
            out.push(92);
            out.push(34);
        } else if b == 92 {
            out.push(92);
            out.push(92);
        } else if b < 32 {
            out.push(92);
            out.push(117);
            out.push(48);
            out.push(48);
            let hi = b / 16;
            let lo = b % 16;
            out.push(if hi < 10 { 48 + hi } else { 87 + hi });
            out.push(if lo < 10 { 48 + lo } else { 87 + lo });
        } else {
            out.push(b);
        }
        proof {
            let next = bs@.take(i + 1 as int);
            assert(next.drop_last() =~= done);
            assert(next.last() == bs@[i as int]);
            assert(out@ =~= pre + seq![34u8] + esc_bytes(next));
        }
        i = i + 1;
    }
    out.push(34);
    proof {
        assert(bs@.take(bs@.len() as int) =~= bs@);
        assert(out@ =~= pre + jstr(s@));
    }
}

/// Appends the decimal numeral of `n` to `out`.
pub(crate) fn push_dec(out: &mut Vec<u8>, n: u64)
    ensures
        final(out)@ == old(out)@ + dec_bytes(n as nat),
    decreases n,
{
    if n < 10 {
        out.push(48 + n as u8);
    } else {
        push_dec(out, n / 10);
        out.push(48 + (n % 10) as u8);
    }
    proof {
        assert(final(out)@ =~= old(out)@ + dec_bytes(n as nat));
    }
}

/// Appends the decimal form of `n`, signed, to `out`.
pub(crate) fn push_i64(out: &mut Vec<u8>, n: i64)
    ensures
        final(out)@ == old(out)@ + int_bytes(n as int),
{
    if n >= 0 {
        push_dec(out, n as u64);
    } else {
        out.push(45);
        let m: u64 = if n == i64::MIN {
            9223372036854775808u64
        } else {
            (-n) as u64
        };
        assert(m as nat == (-(n as int)) as nat);
        push_dec(out, m);
        proof {
            assert(final(out)@ =~= old(out)@ + int_bytes(n as int));
        }
    }
}

/// Appends a JSON array of the strings in `xs` to `out`.
pub(crate) fn push_string_array(out: &mut Vec<u8>, xs: &Vec<String>)
    ensures
        final(out)@ == old(out)@ + jstr_arr(xs.deep_view()),
{
    let ghost pre = out@;
    let ghost items = xs.deep_view().map_values(|s: Seq<char>| jstr(s));
    out.push(91);
    let mut i: usize = 0;
    while i < xs.len()
        invariant
            i <= xs@.len(),
            items == xs.deep_view().map_values(|s: Seq<char>| jstr(s)),
            items.len() == xs@.len(),
            out@ == pre + seq![91u8] + comma_join(items.take(i as int)),
        decreases xs@.len() - i,
    {
        if i > 0 {
            out.push(44);
        }
        push_json_string(out, xs[i].as_str());
        proof {
            let next = items.take(i + 1 as int);
            assert(next.drop_last() =~= items.take(i as int));
            assert(next.last() == items[i as int]);
            assert(items[i as int] == jstr(xs.deep_view()[i as int]));
            assert(out@ =~= pre + seq![91u8] + comma_join(next));
        }
        i = i + 1;
    }
    out.push(93);
    proof {
        assert(items.take(items.len() as int) =~= items);
        assert(out@ =~= pre + jstr_arr(xs.deep_view()));
    }
}

/// Appends a JSON array of arrays of strings (the facet-filter shape).
pub(crate) fn push_string_array_array(out: &mut Vec<u8>, gs: &Vec<Vec<String>>)
    ensures
        final(out)@ == old(out)@ + jstr_arr_arr(gs.deep_view()),
{
    let ghost pre = out@;
    let ghost items = gs.deep_view().map_values(|g: Seq<Seq<char>>| jstr_arr(g));
    out.push(91);
    let mut i: usize = 0;
    while i < gs.len()
        invariant
            i <= gs@.len(),
            items == gs.deep_view().map_values(|g: Seq<Seq<char>>| jstr_arr(g)),
            items.len() == gs@.len(),
            out@ == pre + seq![91u8] + comma_join(items.take(i as int)),
        decreases gs@.len() - i,
    {
        if i > 0 {
            out.push(44);
        }
        push_string_array(out, &gs[i]);
        proof {
            let next = items.take(i + 1 as int);
            assert(next.drop_last() =~= items.take(i as int));
            assert(next.last() == items[i as int]);
            assert(items[i as int] == jstr_arr(gs.deep_view()[i as int]));
            assert(out@ =~= pre + seq![91u8] + comma_join(next));
        }
        i = i + 1;
    }
    out.push(93);
    proof {
        assert(items.take(items.len() as int) =~= items);
        assert(out@ =~= pre + jstr_arr_arr(gs.deep_view()));
    }
}

} // verus!
