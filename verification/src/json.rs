//! Building blocks for the library's serialized output: decimal rendering of
//! integers and JSON string escaping, each specified exactly at the level of
//! character sequences.

use vstd::prelude::*;
use vstd::string::StringExecFns;
use vstd::string::StrSliceExecFns;

verus! {

/// Relies on `String::push`: appends exactly the given character.
pub assume_specification[ String::push ](s: &mut String, c: char)
    ensures
        final(s)@ == old(s)@.push(c),
;

/// The decimal digit character for a value in `0..10`.
pub open spec fn digit_char(d: int) -> char {
    ((48 + d) as char)
}

/// The lower-case hexadecimal digit character for a value in `0..16`.
pub open spec fn hex_char(d: int) -> char {
    if d < 10 {
        ((48 + d) as char)
    } else {
        ((87 + d) as char)
    }
}

/// The decimal digit string of a non-negative integer, most significant
/// digit first, with no leading zeros (a lone `0` for zero).
pub open spec fn dec_digits(n: nat) -> Seq<char>
    decreases n,
{
    if n < 10 {
        seq![digit_char(n as int)]
    } else {
        dec_digits(n / 10).push(digit_char((n % 10) as int))
    }
}

/// The decimal string of an integer: a leading `-` for negative values.
pub open spec fn dec_str(n: int) -> Seq<char> {
    if n < 0 {
        seq!['-'] + dec_digits((-n) as nat)
    } else {
        dec_digits(n as nat)
    }
}

/// How one character appears inside a JSON string literal: quotes and
/// backslashes are escaped, control characters take the `\u00XX` form, and
/// every other character stands for itself.
pub open spec fn escape_char(c: char) -> Seq<char> {
    if c == '"' {
        seq!['\\', '"']
    } else if c == '\\' {
        seq!['\\', '\\']
    } else if (c as u32) < 32 {
        seq!['\\', 'u', '0', '0', hex_char(c as u32 as int / 16), hex_char(c as u32 as int % 16)]
    } else {
        seq![c]
    }
}

/// The body of a JSON string literal holding the given characters.
pub open spec fn escape_seq(s: Seq<char>) -> Seq<char>
    decreases s.len(),
{
    if s.len() == 0 {
        Seq::empty()
    } else {
        escape_char(s[0]) + escape_seq(s.skip(1))
    }
}

/// Escaping a sequence extended by one character escapes the sequence and
/// then the character.
pub proof fn lemma_escape_seq_snoc(s: Seq<char>, c: char)
    ensures
        escape_seq(s.push(c)) == escape_seq(s) + escape_char(c),
    decreases s.len(),
{
    if s.len() == 0 {
        assert(s.push(c).skip(1) =~= s);
        assert(s.push(c)[0] == c);
        assert(escape_seq(s.push(c)) == escape_char(c) + escape_seq(s));
        assert(escape_seq(s.push(c)) =~= escape_seq(s) + escape_char(c));
    } else {
        let t = s.push(c);
        assert(t[0] == s[0]);
        assert(t.skip(1) =~= s.skip(1).push(c));
        lemma_escape_seq_snoc(s.skip(1), c);
        assert(escape_seq(t) == escape_char(s[0]) + escape_seq(t.skip(1)));
        assert(escape_seq(s) == escape_char(s[0]) + escape_seq(s.skip(1)));
        assert(escape_seq(t) =~= escape_seq(s) + escape_char(c));
    }
}

/// The lower-case hexadecimal digit character of a value below 16.
fn hex_digit(d: u8) -> (c: char)
    requires
        d < 16,
    ensures
        c == hex_char(d as int),
{
    if d < 10 {
        (48 + d) as char
    } else {
        (87 + d) as char
    }
}

/// Appends the decimal digits of `n` to `s`.
pub fn push_dec_u64(s: &mut String, n: u64)
    ensures
        final(s)@ == old(s)@ + dec_digits(n as nat),
    decreases n,
{
    if n >= 10 {
        proof {
            assert(n / 10 < n) by (nonlinear_arith)
                requires
                    n >= 10,
            ;
        }
        push_dec_u64(s, n / 10);
    }
    let d: u8 = (n % 10) as u8;
    s.push((48 + d) as char);
    proof {
        assert(final(s)@ =~= old(s)@ + dec_digits(n as nat));
    }
}

/// Appends the decimal string of `n` to `s`, with a leading `-` when `n`
/// is negative.
pub fn push_dec_i32(s: &mut String, n: i32)
    ensures
        final(s)@ == old(s)@ + dec_str(n as int),
{
    if n < 0 {
        s.push('-');
        let m: u64 = (-(n as i64)) as u64;
        push_dec_u64(s, m);
        proof {
            assert(m as nat == (-(n as int)) as nat);
            assert(final(s)@ =~= old(s)@ + dec_str(n as int));
        }
    } else {
        push_dec_u64(s, n as u64);
    }
}

/// Appends the JSON-escaped form of `t` to `s`.
pub fn push_escaped(s: &mut String, t: &str)
    ensures
        final(s)@ == old(s)@ + escape_seq(t@),
{
    let n = t.unicode_len();
    let mut i: usize = 0;
    while i < n
        invariant
            n == t@.len(),
            i <= n,
            s@ == old(s)@ + escape_seq(t@.subrange(0, i as int)),
        decreases n - i,
    {
        let c = t.get_char(i);
        let ghost done = t@.subrange(0, i as int);
        let ghost prev = s@;
        if c == '"' {
            s.push('\\');
            s.push('"');
        } else if c == '\\' {
            s.push('\\');
            s.push('\\');
        } else {
            let v = c as u32;
            if v < 32 {
                s.push('\\');
                s.push('u');
                s.push('0');
                s.push('0');
                s.push(hex_digit((v / 16) as u8));
                s.push(hex_digit((v % 16) as u8));
            } else {
                s.push(c);
            }
        }
        proof {
            assert(s@ =~= prev + escape_char(c));
            lemma_escape_seq_snoc(done, c);
            assert(t@.subrange(0, i + 1 as int) =~= done.push(c));
            assert(s@ =~= old(s)@ + escape_seq(t@.subrange(0, i + 1 as int)));
        }
        i = i + 1;
    }
    proof {
        assert(t@.subrange(0, n as int) =~= t@);
    }
}

/// Whether `c` is a decimal digit character.
pub open spec fn is_digit(c: char) -> bool {
    '0' <= c && c <= '9'
}

/// The value of a decimal digit character.
pub open spec fn digit_val(c: char) -> int {
    c as int - 48
}

/// Whether `c` is a lower-case hexadecimal digit character.
pub open spec fn is_hex(c: char) -> bool {
    ('0' <= c && c <= '9') || ('a' <= c && c <= 'f')
}

/// The value of a lower-case hexadecimal digit character.
pub open spec fn hex_val(c: char) -> int {
    if '0' <= c && c <= '9' {
        c as int - 48
    } else {
        c as int - 87
    }
}

/// Reads the body of a JSON string literal up to and including its closing
/// quote, undoing the escapes of `escape_char`: the decoded body and the
/// remainder after the quote, or `None` where the input is not a
/// well-formed literal body.
pub open spec fn scan_string(s: Seq<char>) -> Option<(Seq<char>, Seq<char>)>
    decreases s.len(),
{
    if s.len() == 0 {
        None
    } else if s[0] == '"' {
        Some((Seq::empty(), s.skip(1)))
    } else if s[0] == '\\' {
        if s.len() >= 2 && s[1] == '"' {
            match scan_string(s.skip(2)) {
                Some((body, rest)) => Some((seq!['"'] + body, rest)),
                None => None,
            }
        } else if s.len() >= 2 && s[1] == '\\' {
            match scan_string(s.skip(2)) {
                Some((body, rest)) => Some((seq!['\\'] + body, rest)),
                None => None,
            }
        } else if s.len() >= 6 && s[1] == 'u' && s[2] == '0' && s[3] == '0' && is_hex(s[4])
            && is_hex(s[5]) {
            match scan_string(s.skip(6)) {
                Some((body, rest)) => Some(
                    (seq![((16 * hex_val(s[4]) + hex_val(s[5])) as char)] + body, rest),
                ),
                None => None,
            }
        } else {
            None
        }
    } else if (s[0] as u32) < 32 {
        None
    } else {
        match scan_string(s.skip(1)) {
            Some((body, rest)) => Some((seq![s[0]] + body, rest)),
            None => None,
        }
    }
}

/// Scanning a string literal built by escaping `x`, closed by a quote and
/// followed by anything, recovers exactly `x` and the remainder: escaping
/// loses nothing.
pub proof fn lemma_scan_escaped(x: Seq<char>, rest: Seq<char>)
    ensures
        scan_string(escape_seq(x) + seq!['"'] + rest) == Some((x, rest)),
    decreases x.len(),
{
    let s = escape_seq(x) + seq!['"'] + rest;
    if x.len() == 0 {
        assert(s =~= seq!['"'] + rest);
        assert(s[0] == '"');
        assert(s.skip(1) =~= rest);
    } else {
        let c = x[0];
        let tail = x.skip(1);
        lemma_scan_escaped(tail, rest);
        let s2 = escape_seq(tail) + seq!['"'] + rest;
        assert(escape_seq(x) == escape_char(c) + escape_seq(tail));
        if c == '"' {
            assert(s =~= seq!['\\', '"'] + s2);
            assert(s.skip(2) =~= s2);
            assert(seq!['"'] + tail =~= x);
        } else if c == '\\' {
            assert(s =~= seq!['\\', '\\'] + s2);
            assert(s.skip(2) =~= s2);
            assert(seq!['\\'] + tail =~= x);
        } else if (c as u32) < 32 {
            let v = c as u32 as int;
            assert(s =~= seq!['\\', 'u', '0', '0', hex_char(v / 16), hex_char(v % 16)] + s2);
            assert(s.skip(6) =~= s2);
            assert(s[4] == hex_char(v / 16));
            assert(s[5] == hex_char(v % 16));
            assert(is_hex(hex_char(v / 16)) && hex_val(hex_char(v / 16)) == v / 16);
            assert(is_hex(hex_char(v % 16)) && hex_val(hex_char(v % 16)) == v % 16);
            assert(16 * (v / 16) + v % 16 == v);
            assert(16 * hex_val(s[4]) + hex_val(s[5]) == v);
            vstd::utf8::char_u32_cast(c, c as u32);
            assert((v as char) == c);
            assert(((16 * hex_val(s[4]) + hex_val(s[5])) as char) == c);
            assert(seq![c] + tail =~= x);
        } else {
            assert(s[0] == c);
            assert(s.skip(1) =~= s2);
            assert(seq![c] + tail =~= x);
        }
    }
}

/// Reads a run of decimal digits from the front of `s`, folding them onto
/// `acc`: the accumulated value and the remainder after the run.
pub open spec fn scan_digits(s: Seq<char>, acc: int) -> (int, Seq<char>)
    decreases s.len(),
{
    if s.len() > 0 && is_digit(s[0]) {
        scan_digits(s.skip(1), 10 * acc + digit_val(s[0]))
    } else {
        (acc, s)
    }
}

/// Reads a decimal integer: an optional leading `-`, then at least one
/// digit, up to the first non-digit.
pub open spec fn scan_int(s: Seq<char>) -> Option<(int, Seq<char>)> {
    if s.len() >= 1 && s[0] == '-' {
        if s.len() >= 2 && is_digit(s[1]) {
            Some(((-scan_digits(s.skip(1), 0).0), scan_digits(s.skip(1), 0).1))
        } else {
            None
        }
    } else if s.len() >= 1 && is_digit(s[0]) {
        Some(scan_digits(s, 0))
    } else {
        None
    }
}

/// Ten to the `k`.
pub open spec fn pow10(k: nat) -> int
    decreases k,
{
    if k == 0 {
        1
    } else {
        10 * pow10((k - 1) as nat)
    }
}

/// Every character of a decimal digit string is a digit, and there is at
/// least one.
pub proof fn lemma_dec_digits_are_digits(n: nat)
    ensures
        dec_digits(n).len() >= 1,
        forall|i: int| 0 <= i < dec_digits(n).len() ==> is_digit(#[trigger] dec_digits(n)[i]),
    decreases n,
{
    if n >= 10 {
        lemma_dec_digits_are_digits(n / 10);
    }
}

/// Scanning past the digit string of `n` folds `n` onto the accumulator,
/// scaled past the digits consumed, and goes on with the remainder.
proof fn lemma_scan_digits_dec(n: nat, rest: Seq<char>, acc: int)
    ensures
        scan_digits(dec_digits(n) + rest, acc) == scan_digits(
            rest,
            acc * pow10(dec_digits(n).len() as nat) + n,
        ),
    decreases n,
{
    lemma_dec_digits_are_digits(n);
    let s = dec_digits(n) + rest;
    assert(pow10(0) == 1);
    assert(pow10(1) == 10);
    if n < 10 {
        assert(s[0] == digit_char(n as int));
        assert(digit_val(digit_char(n as int)) == n);
        assert(s.skip(1) =~= rest);
        assert(scan_digits(s, acc) == scan_digits(rest, 10 * acc + n));
        assert(dec_digits(n).len() == 1);
        assert(acc * pow10(1nat) + n == 10 * acc + n);
        assert(scan_digits(s, acc) == scan_digits(rest, acc * pow10(dec_digits(n).len() as nat) + n));
    } else {
        let hi = n / 10;
        let lo = n % 10;
        let d = dec_digits(hi);
        let p = pow10(d.len() as nat);
        let rest2 = seq![digit_char(lo as int)] + rest;
        assert(dec_digits(n) == d.push(digit_char(lo as int)));
        assert(s =~= d + rest2);
        lemma_scan_digits_dec(hi, rest2, acc);
        let mid = acc * p + hi;
        assert(scan_digits(s, acc) == scan_digits(rest2, mid));
        assert(rest2[0] == digit_char(lo as int));
        assert(is_digit(rest2[0]) && digit_val(rest2[0]) == lo);
        assert(rest2.skip(1) =~= rest);
        assert(scan_digits(rest2, mid) == scan_digits(rest, 10 * mid + lo));
        assert(10 * (hi as int) + lo == n);
        assert(dec_digits(n).len() == d.len() + 1);
        assert(pow10(dec_digits(n).len() as nat) == 10 * p);
        assert(10 * (acc * p) == acc * (10 * p)) by (nonlinear_arith);
        assert(10 * mid + lo == acc * pow10(dec_digits(n).len() as nat) + n);
        assert(scan_digits(s, acc) == scan_digits(rest, acc * pow10(dec_digits(n).len() as nat) + n));
    }
}

/// Scanning the decimal string of `n` followed by a non-digit recovers
/// exactly `n` and the remainder: decimal rendering loses nothing.
pub proof fn lemma_scan_int_dec_str(n: int, rest: Seq<char>)
    requires
        rest.len() == 0 || !is_digit(rest[0]),
    ensures
        scan_int(dec_str(n) + rest) == Some((n, rest)),
{
    let s = dec_str(n) + rest;
    if n < 0 {
        let m = (-n) as nat;
        lemma_dec_digits_are_digits(m);
        assert(s[0] == '-');
        assert(!is_digit('-'));
        assert(s.skip(1) =~= dec_digits(m) + rest);
        lemma_scan_digits_dec(m, rest, 0);
        let p = pow10(dec_digits(m).len() as nat);
        assert(0 * p == 0) by (nonlinear_arith);
        assert(scan_digits(s.skip(1), 0) == scan_digits(rest, m as int));
        assert(scan_digits(rest, m as int) == (m as int, rest));
        assert(s[1] == dec_digits(m)[0]);
        assert(is_digit(s[1]));
    } else {
        let m = n as nat;
        lemma_dec_digits_are_digits(m);
        assert(s =~= dec_digits(m) + rest);
        assert(s[0] == dec_digits(m)[0]);
        assert(s[0] != '-');
        lemma_scan_digits_dec(m, rest, 0);
        let p = pow10(dec_digits(m).len() as nat);
        assert(0 * p == 0) by (nonlinear_arith);
        assert(scan_digits(s, 0) == scan_digits(rest, n));
        assert(scan_digits(rest, n) == (n, rest));
    }
}

/// The remainder of `s` after the expected prefix `p`, where `s` starts
/// with it.
pub open spec fn strip_prefix(s: Seq<char>, p: Seq<char>) -> Option<Seq<char>> {
    if p.len() <= s.len() && s.subrange(0, p.len() as int) == p {
        Some(s.skip(p.len() as int))
    } else {
        None
    }
}

/// Stripping a prefix off itself leaves the remainder.
pub proof fn lemma_strip_prefix(p: Seq<char>, t: Seq<char>)
    ensures
        strip_prefix(p + t, p) == Some(t),
{
    assert((p + t).subrange(0, p.len() as int) =~= p);
    assert((p + t).skip(p.len() as int) =~= t);
}

} // verus!
