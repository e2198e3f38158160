//! Character and string helpers shared by the validator, the tables and
//! the response builders: ASCII case mapping, decimal rendering of
//! integers and of fixed-point coordinates, substring search and trim.

use vstd::prelude::*;

verus! {

// ---------------------------------------------------------------------------
// ASCII character classes and case mapping
// ---------------------------------------------------------------------------

pub open spec fn spec_is_digit(c: char) -> bool {
    '0' <= c && c <= '9'
}

pub open spec fn spec_digit_val(c: char) -> nat {
    (c as nat - '0' as nat) as nat
}

pub open spec fn spec_is_hex_digit(c: char) -> bool {
    spec_is_digit(c) || ('a' <= c && c <= 'f') || ('A' <= c && c <= 'F')
}

pub open spec fn spec_hex_val(c: char) -> nat {
    if spec_is_digit(c) {
        spec_digit_val(c)
    } else if 'a' <= c && c <= 'f' {
        (c as nat - 'a' as nat + 10) as nat
    } else {
        (c as nat - 'A' as nat + 10) as nat
    }
}

/// ASCII uppercase of one character; other characters are unchanged.
pub open spec fn spec_upper_char(c: char) -> char {
    if 'a' <= c && c <= 'z' {
        ((c as u8) - 32) as char
    } else {
        c
    }
}

/// ASCII lowercase of one character; other characters are unchanged.
pub open spec fn spec_lower_char(c: char) -> char {
    if 'A' <= c && c <= 'Z' {
        ((c as u8) + 32) as char
    } else {
        c
    }
}

pub fn upper_char(c: char) -> (r: char)
    ensures
        r == spec_upper_char(c),
{
    if 'a' <= c && c <= 'z' {
        ((c as u8) - 32) as char
    } else {
        c
    }
}

pub fn lower_char(c: char) -> (r: char)
    ensures
        r == spec_lower_char(c),
{
    if 'A' <= c && c <= 'Z' {
        ((c as u8) + 32) as char
    } else {
        c
    }
}

// ---------------------------------------------------------------------------
// Building strings one character at a time
// ---------------------------------------------------------------------------

/// Relies on `String::push` from std: appends exactly one character.
#[verifier::external_body]
pub fn push_char(s: &mut String, c: char)
    ensures
        final(s)@ == old(s)@.push(c),
{
    s.push(c);
}

/// ASCII lowercase of a whole string.
pub open spec fn spec_lower(s: Seq<char>) -> Seq<char> {
    s.map_values(|c: char| spec_lower_char(c))
}

pub fn lower_string(s: &str) -> (r: String)
    ensures
        r@ == spec_lower(s@),
{
    let n = s.unicode_len();
    let mut r = String::new();
    let mut i: usize = 0;
    while i < n
        invariant
            n == s@.len(),
            0 <= i <= n,
            r@ == spec_lower(s@.subrange(0, i as int)),
        decreases n - i,
    {
        let c = s.get_char(i);
        push_char(&mut r, lower_char(c));
        proof {
            assert(s@.subrange(0, i + 1) =~= s@.subrange(0, i as int).push(s@[i as int]));
            assert(spec_lower(s@.subrange(0, i + 1)) =~= spec_lower(
                s@.subrange(0, i as int),
            ).push(spec_lower_char(s@[i as int])));
        }
        i = i + 1;
    }
    proof {
        assert(s@.subrange(0, n as int) =~= s@);
    }
    r
}

// ---------------------------------------------------------------------------
// Decimal rendering of unsigned and signed integers
// ---------------------------------------------------------------------------

pub open spec fn spec_digit_char(d: nat) -> char {
    ((d + 0x30) as u8) as char
}

/// Decimal digits of `n`, most significant first, no leading zeros
/// (`0` renders as the single digit `0`).
pub open spec fn spec_dec(n: nat) -> Seq<char>
    decreases n,
{
    if n < 10 {
        seq![spec_digit_char(n)]
    } else {
        spec_dec(n / 10).push(spec_digit_char(n % 10))
    }
}

/// Decimal rendering of a signed value: a `-` sign before the digits of
/// the magnitude.
pub open spec fn spec_dec_signed(v: int) -> Seq<char> {
    if v < 0 {
        seq!['-'] + spec_dec((-v) as nat)
    } else {
        spec_dec(v as nat)
    }
}

pub fn u64_to_string(n: u64) -> (r: String)
    ensures
        r@ == spec_dec(n as nat),
{
    let mut digits: Vec<char> = Vec::new();
    let mut m: u64 = n;
    let mut r = String::new();
    if n == 0 {
        push_char(&mut r, '0');
        proof {
            assert(r@ =~= spec_dec(0));
        }
        return r;
    }
    while m > 0
        invariant
            spec_dec(n as nat) =~= if m > 0 {
                spec_dec(m as nat) + Seq::new(digits@.len(), |j: int| digits@[digits@.len() - 1 - j])
            } else {
                Seq::new(digits@.len(), |j: int| digits@[digits@.len() - 1 - j])
            },
        decreases m,
    {
        let d = (m % 10) as u8;
        let c = (d + 0x30) as char;
        proof {
            let rev0 = Seq::new(digits@.len(), |j: int| digits@[digits@.len() - 1 - j]);
            let pushed = digits@.push(spec_digit_char((m % 10) as nat));
            let rev1 = Seq::new(pushed.len(), |j: int| pushed[pushed.len() - 1 - j]);
            assert(rev1 =~= seq![spec_digit_char((m % 10) as nat)] + rev0);
            if m >= 10 {
                assert(spec_dec(m as nat) == spec_dec((m / 10) as nat).push(
                    spec_digit_char((m % 10) as nat),
                ));
                assert(spec_dec((m / 10) as nat) + rev1 =~= spec_dec(m as nat) + rev0);
            } else {
                assert(spec_dec(m as nat) =~= seq![spec_digit_char((m % 10) as nat)]);
                assert(rev1 =~= spec_dec(m as nat) + rev0);
            }
        }
        digits.push(c);
        m = m / 10;
    }
    let k = digits.len();
    let mut i: usize = 0;
    while i < k
        invariant
            k == digits@.len(),
            0 <= i <= k,
            spec_dec(n as nat) =~= Seq::new(digits@.len(), |j: int| digits@[digits@.len() - 1 - j]),
            r@ =~= Seq::new(i as nat, |j: int| digits@[digits@.len() - 1 - j]),
        decreases k - i,
    {
        let c = digits[k - 1 - i];
        push_char(&mut r, c);
        i = i + 1;
    }
    proof {
        assert(r@ =~= spec_dec(n as nat));
    }
    r
}

pub fn u32_to_string(n: u32) -> (r: String)
    ensures
        r@ == spec_dec(n as nat),
{
    u64_to_string(n as u64)
}

pub fn i64_to_string(v: i64) -> (r: String)
    ensures
        r@ == spec_dec_signed(v as int),
{
    if v >= 0 {
        u64_to_string(v as u64)
    } else {
        let mag: u64 = if v == i64::MIN {
            9223372036854775808u64
        } else {
            (-v) as u64
        };
        let mut r = String::new();
        push_char(&mut r, '-');
        let digits = u64_to_string(mag);
        r.append(digits.as_str());
        proof {
            assert(r@ =~= seq!['-'] + spec_dec((-(v as int)) as nat));
        }
        r
    }
}

// ---------------------------------------------------------------------------
// Fixed-point coordinates
//
// Coordinates are carried as signed integers in ten-millionths of a degree
// (an `E7` value): 59.329504 degrees is 593295040.  The range of a latitude
// or longitude therefore fits comfortably in an `i64`.
// ---------------------------------------------------------------------------

/// The seven fractional digits of an E7 magnitude, zero padded.
pub open spec fn spec_frac7(f: nat) -> Seq<char> {
    seq![
        spec_digit_char(f / 1_000_000 % 10),
        spec_digit_char(f / 100_000 % 10),
        spec_digit_char(f / 10_000 % 10),
        spec_digit_char(f / 1_000 % 10),
        spec_digit_char(f / 100 % 10),
        spec_digit_char(f / 10 % 10),
        spec_digit_char(f % 10),
    ]
}

/// Drop trailing `'0'` characters.
pub open spec fn spec_trim_zeros(s: Seq<char>) -> Seq<char>
    decreases s.len(),
{
    if s.len() > 0 && s.last() == '0' {
        spec_trim_zeros(s.drop_last())
    } else {
        s
    }
}

/// Shortest decimal rendering of an E7 value, the way `Display` renders
/// the corresponding real number: no decimal point when the fraction is
/// zero, otherwise the fraction with trailing zeros removed.
pub open spec fn spec_e7_display(v: int) -> Seq<char> {
    let mag = if v < 0 {
        (-v) as nat
    } else {
        v as nat
    };
    let sign: Seq<char> = if v < 0 {
        seq!['-']
    } else {
        Seq::empty()
    };
    let whole = spec_dec(mag / 10_000_000);
    let frac = (mag % 10_000_000) as nat;
    if frac == 0 {
        sign + whole
    } else {
        sign + whole + seq!['.'] + spec_trim_zeros(spec_frac7(frac))
    }
}

/// Five fractional digits of an E5 magnitude, zero padded.
pub open spec fn spec_frac5(f: nat) -> Seq<char> {
    seq![
        spec_digit_char(f / 10_000 % 10),
        spec_digit_char(f / 1_000 % 10),
        spec_digit_char(f / 100 % 10),
        spec_digit_char(f / 10 % 10),
        spec_digit_char(f % 10),
    ]
}

/// Rendering of an E7 value with exactly five decimal places, rounding
/// the sixth and seventh fractional digits half up on the magnitude.
pub open spec fn spec_e7_fixed5(v: int) -> Seq<char> {
    let mag = if v < 0 {
        (-v) as nat
    } else {
        v as nat
    };
    let sign: Seq<char> = if v < 0 {
        seq!['-']
    } else {
        Seq::empty()
    };
    let rounded = ((mag + 50) / 100) as nat;
    sign + spec_dec(rounded / 100_000) + seq!['.'] + spec_frac5((rounded % 100_000) as nat)
}

fn push_frac7(r: &mut String, f: u64)
    requires
        f < 10_000_000,
    ensures
        final(r)@ == old(r)@ + spec_frac7(f as nat),
{
    push_char(r, ((f / 1_000_000 % 10) as u8 + 0x30) as char);
    push_char(r, ((f / 100_000 % 10) as u8 + 0x30) as char);
    push_char(r, ((f / 10_000 % 10) as u8 + 0x30) as char);
    push_char(r, ((f / 1_000 % 10) as u8 + 0x30) as char);
    push_char(r, ((f / 100 % 10) as u8 + 0x30) as char);
    push_char(r, ((f / 10 % 10) as u8 + 0x30) as char);
    push_char(r, ((f % 10) as u8 + 0x30) as char);
    proof {
        assert(r@ =~= old(r)@ + spec_frac7(f as nat));
    }
}

/// Render an E7 coordinate the way the real number would display:
/// `910000000` becomes `91`, `593295040` becomes `59.329504`.
pub fn e7_display(v: i64) -> (r: String)
    ensures
        r@ == spec_e7_display(v as int),
{
    let mag: u64 = if v < 0 {
        if v == i64::MIN {
            9223372036854775808u64
        } else {
            (-v) as u64
        }
    } else {
        v as u64
    };
    let mut r = String::new();
    if v < 0 {
        push_char(&mut r, '-');
    }
    let whole = u64_to_string(mag / 10_000_000);
    r.append(whole.as_str());
    let frac: u64 = mag % 10_000_000;
    if frac > 0 {
        push_char(&mut r, '.');
        let mut tail = String::new();
        push_frac7(&mut tail, frac);
        // drop the trailing zeros of the fraction
        let mut keep: usize = 7;
        proof {
            assert(tail@.subrange(0, 7) =~= tail@);
        }
        while keep > 0 && tail.as_str().get_char(keep - 1) == '0'
            invariant
                tail@ == spec_frac7(frac as nat),
                tail@.len() == 7,
                0 <= keep <= 7,
                spec_trim_zeros(spec_frac7(frac as nat)) == spec_trim_zeros(
                    tail@.subrange(0, keep as int),
                ),
            decreases keep,
        {
            proof {
                assert(tail@.subrange(0, keep as int).last() == '0');
                assert(tail@.subrange(0, keep as int).drop_last() =~= tail@.subrange(
                    0,
                    keep - 1,
                ));
            }
            keep = keep - 1;
        }
        proof {
            if keep > 0 {
                assert(tail@.subrange(0, keep as int).last() != '0');
            }
            assert(spec_trim_zeros(tail@.subrange(0, keep as int)) =~= tail@.subrange(
                0,
                keep as int,
            ));
        }
        let mut i: usize = 0;
        while i < keep
            invariant
                tail@.len() == 7,
                0 <= i <= keep <= 7,
                r@ == spec_e7_prefix(v as int) + tail@.subrange(0, i as int),
            decreases keep - i,
        {
            let c = tail.as_str().get_char(i);
            push_char(&mut r, c);
            proof {
                assert(tail@.subrange(0, i + 1) =~= tail@.subrange(0, i as int).push(
                    tail@[i as int],
                ));
            }
            i = i + 1;
        }
        proof {
            assert(r@ =~= spec_e7_display(v as int));
        }
        r
    } else {
        proof {
            assert(r@ =~= spec_e7_display(v as int));
        }
        r
    }
}

/// The sign and whole part of an E7 display rendering, up to and
/// including the decimal point.
pub open spec fn spec_e7_prefix(v: int) -> Seq<char> {
    let mag = if v < 0 {
        (-v) as nat
    } else {
        v as nat
    };
    let sign: Seq<char> = if v < 0 {
        seq!['-']
    } else {
        Seq::empty()
    };
    sign + spec_dec(mag / 10_000_000) + seq!['.']
}

/// Render an E7 coordinate with exactly five decimal places, as the
/// full-format location strings carry it.
pub fn e7_fixed5(v: i64) -> (r: String)
    ensures
        r@ == spec_e7_fixed5(v as int),
{
    let mag: u64 = if v < 0 {
        if v == i64::MIN {
            9223372036854775808u64
        } else {
            (-v) as u64
        }
    } else {
        v as u64
    };
    let rounded: u64 = (mag + 50) / 100;
    let mut r = String::new();
    if v < 0 {
        push_char(&mut r, '-');
    }
    let whole = u64_to_string(rounded / 100_000);
    r.append(whole.as_str());
    push_char(&mut r, '.');
    let f = rounded % 100_000;
    push_char(&mut r, ((f / 10_000 % 10) as u8 + 0x30) as char);
    push_char(&mut r, ((f / 1_000 % 10) as u8 + 0x30) as char);
    push_char(&mut r, ((f / 100 % 10) as u8 + 0x30) as char);
    push_char(&mut r, ((f / 10 % 10) as u8 + 0x30) as char);
    push_char(&mut r, ((f % 10) as u8 + 0x30) as char);
    proof {
        assert(r@ =~= spec_e7_fixed5(v as int));
    }
    r
}

// ---------------------------------------------------------------------------
// Substring search and trim
// ---------------------------------------------------------------------------

/// `needle` occurs contiguously somewhere in `hay`.
pub open spec fn spec_contains(hay: Seq<char>, needle: Seq<char>) -> bool {
    exists|i: int|
        0 <= i && i + needle.len() <= hay.len() && #[trigger] hay.subrange(i, i + needle.len())
            == needle
}

pub fn str_contains(hay: &str, needle: &str) -> (r: bool)
    ensures
        r == spec_contains(hay@, needle@),
{
    let hn = hay.unicode_len();
    let nn = needle.unicode_len();
    if nn > hn {
        return false;
    }
    if nn == 0 {
        proof {
            assert(hay@.subrange(0, 0 + needle@.len() as int) =~= needle@);
        }
        return true;
    }
    let mut i: usize = 0;
    while i <= hn - nn
        invariant
            hn == hay@.len(),
            nn == needle@.len(),
            nn <= hn,
            1 <= nn,
            0 <= i <= hn - nn + 1,
            forall|k: int|
                0 <= k < i ==> #[trigger] hay@.subrange(k, k + needle@.len()) != needle@,
        decreases hn - nn - i + 1,
    {
        let mut j: usize = 0;
        let mut matched = true;
        while j < nn
            invariant
                hn == hay@.len(),
                nn == needle@.len(),
                i + nn <= hn,
                0 <= j <= nn,
                matched ==> hay@.subrange(i as int, i + j) == needle@.subrange(0, j as int),
                !matched ==> hay@.subrange(i as int, i + nn) != needle@,
            decreases nn - j,
    {
            let hc = hay.get_char(i + j);
            let nc = needle.get_char(j);
            if hc != nc {
                proof {
                    assert(hay@.subrange(i as int, i + nn)[j as int] == hay@[i + j]);
                }
                matched = false;
                j = nn;
            } else {
                proof {
                    assert(hay@.subrange(i as int, i + j + 1) =~= hay@.subrange(
                        i as int,
                        i + j,
                    ).push(hay@[i + j]));
                    assert(needle@.subrange(0, j + 1) =~= needle@.subrange(0, j as int).push(
                        needle@[j as int],
                    ));
                }
                j = j + 1;
            }
        }
        if matched {
            proof {
                assert(needle@.subrange(0, nn as int) =~= needle@);
                assert(hay@.subrange(i as int, i + needle@.len()) == needle@);
            }
            return true;
        }
        proof {
            assert(hay@.subrange(i as int, i + needle@.len()) != needle@);
        }
        i = i + 1;
    }
    false
}

/// `p` is an initial segment of `s`.
pub open spec fn spec_has_prefix(s: Seq<char>, p: Seq<char>) -> bool {
    p.len() <= s.len() && s.subrange(0, p.len() as int) == p
}

/// A concatenation starts with its left part.
pub proof fn lemma_prefix_of_concat(p: Seq<char>, d: Seq<char>)
    ensures
        spec_has_prefix(p + d, p),
{
    assert((p + d).subrange(0, p.len() as int) =~= p);
}

/// Whether two string slices hold the same characters.
pub fn str_eq(a: &str, b: &str) -> (r: bool)
    ensures
        r == (a@ == b@),
{
    let x = a.to_owned();
    let y = b.to_owned();
    x == y
}

pub open spec fn spec_is_ws(c: char) -> bool {
    c == ' ' || c == '\t' || c == '\n' || c == '\r'
}

pub open spec fn spec_trim_front(s: Seq<char>) -> Seq<char>
    decreases s.len(),
{
    if s.len() > 0 && spec_is_ws(s.first()) {
        spec_trim_front(s.drop_first())
    } else {
        s
    }
}

pub open spec fn spec_trim_back(s: Seq<char>) -> Seq<char>
    decreases s.len(),
{
    if s.len() > 0 && spec_is_ws(s.last()) {
        spec_trim_back(s.drop_last())
    } else {
        s
    }
}

/// ASCII whitespace removed from both ends.
pub open spec fn spec_trim(s: Seq<char>) -> Seq<char> {
    spec_trim_back(spec_trim_front(s))
}

fn is_ws(c: char) -> (r: bool)
    ensures
        r == spec_is_ws(c),
{
    c == ' ' || c == '\t' || c == '\n' || c == '\r'
}

proof fn lemma_trim_front_skip(s: Seq<char>, i: int)
    requires
        0 <= i < s.len(),
        spec_is_ws(s[i]),
    ensures
        spec_trim_front(s.skip(i)) == spec_trim_front(s.skip(i + 1)),
{
    assert(s.skip(i).first() == s[i]);
    assert(s.skip(i).drop_first() =~= s.skip(i + 1));
}

proof fn lemma_trim_back_sub(s: Seq<char>, j: int)
    requires
        0 < j <= s.len(),
        spec_is_ws(s[j - 1]),
    ensures
        spec_trim_back(s.subrange(0, j)) == spec_trim_back(s.subrange(0, j - 1)),
{
    assert(s.subrange(0, j).last() == s[j - 1]);
    assert(s.subrange(0, j).drop_last() =~= s.subrange(0, j - 1));
}

/// ASCII-whitespace trim of a string.
pub fn trim(s: &str) -> (r: String)
    ensures
        r@ == spec_trim(s@),
{
    let n = s.unicode_len();
    let mut from: usize = 0;
    proof {
        assert(s@.skip(0) =~= s@);
    }
    while from < n && is_ws(s.get_char(from))
        invariant
            n == s@.len(),
            0 <= from <= n,
            spec_trim_front(s@) == spec_trim_front(s@.skip(from as int)),
        decreases n - from,
    {
        proof {
            lemma_trim_front_skip(s@, from as int);
        }
        from = from + 1;
    }
    proof {
        if from < n {
            assert(s@.skip(from as int).first() == s@[from as int]);
        }
        assert(spec_trim_front(s@) =~= s@.skip(from as int));
    }
    let mut to: usize = n;
    proof {
        assert(s@.skip(from as int).subrange(0, n - from) =~= s@.skip(from as int));
    }
    while to > from && is_ws(s.get_char(to - 1))
        invariant
            n == s@.len(),
            0 <= from <= to <= n,
            spec_trim_front(s@) == s@.skip(from as int),
            spec_trim_back(s@.skip(from as int)) == spec_trim_back(
                s@.skip(from as int).subrange(0, to - from),
            ),
        decreases to,
    {
        proof {
            let t = s@.skip(from as int);
            lemma_trim_back_sub(t.subrange(0, to - from), to - from);
            assert(t.subrange(0, to - from).subrange(0, to - from - 1) =~= t.subrange(
                0,
                to - 1 - from,
            ));
        }
        to = to - 1;
    }
    proof {
        let t = s@.skip(from as int);
        if to > from {
            assert(t.subrange(0, to - from).last() == s@[to - 1]);
        }
        assert(spec_trim_back(t.subrange(0, to - from)) =~= t.subrange(0, to - from));
        assert(t.subrange(0, to - from) =~= s@.subrange(from as int, to as int));
    }
    let piece = s.substring_char(from, to);
    piece.to_owned()
}

} // verus!
