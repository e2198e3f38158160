//! Syntax and classification of IP address literals.
//!
//! The accepted grammar follows the textual address forms: an IPv4
//! address is four decimal octets (no leading zeros, each at most 255)
//! joined by `.`; an IPv6 address is hexadecimal groups of one to four
//! digits joined by `:`, with one optional `::` gap standing for at
//! least one zero group, and an optional trailing IPv4 literal taking
//! the place of the last two groups.

use vstd::prelude::*;

use crate::strutil::spec_digit_val;
use crate::strutil::spec_hex_val;
use crate::strutil::spec_is_digit;
use crate::strutil::spec_is_hex_digit;

verus! {

// ---------------------------------------------------------------------------
// Splitting on a separator character
// ---------------------------------------------------------------------------

/// The groups of `s` between occurrences of `sep`; always at least one
/// group, and empty groups where separators touch.
pub open spec fn spec_split(s: Seq<char>, sep: char) -> Seq<Seq<char>>
    decreases s.len(),
{
    if s.len() == 0 {
        seq![s]
    } else if s[0] == sep {
        seq![Seq::<char>::empty()] + spec_split(s.drop_first(), sep)
    } else {
        let rest = spec_split(s.drop_first(), sep);
        seq![seq![s[0]] + rest[0]] + rest.drop_first()
    }
}

pub proof fn lemma_split_len(s: Seq<char>, sep: char)
    ensures
        spec_split(s, sep).len() >= 1,
    decreases s.len(),
{
    if s.len() > 0 {
        lemma_split_len(s.drop_first(), sep);
    }
}

/// A separator-free string splits into the single group that is itself.
pub proof fn lemma_split_whole(s: Seq<char>, sep: char)
    requires
        forall|i: int| 0 <= i < s.len() ==> s[i] != sep,
    ensures
        spec_split(s, sep) =~~= seq![s],
    decreases s.len(),
{
    if s.len() > 0 {
        lemma_split_whole(s.drop_first(), sep);
        assert(seq![s[0]] + s.drop_first() =~= s);
    }
}

/// Splitting cuts at the first separator: a separator-free prefix
/// becomes the first group.
pub proof fn lemma_split_cut(a: Seq<char>, b: Seq<char>, sep: char)
    requires
        forall|i: int| 0 <= i < a.len() ==> a[i] != sep,
    ensures
        spec_split(a + seq![sep] + b, sep) =~~= seq![a] + spec_split(b, sep),
    decreases a.len(),
{
    let s = a + seq![sep] + b;
    if a.len() == 0 {
        assert(s[0] == sep);
        assert(s.drop_first() =~= b);
    } else {
        assert(s[0] == a[0]);
        assert(s.drop_first() =~= a.drop_first() + seq![sep] + b);
        lemma_split_cut(a.drop_first(), b, sep);
        let rest = spec_split(s.drop_first(), sep);
        assert(rest[0] == a.drop_first());
        assert(seq![s[0]] + rest[0] =~= a);
    }
}

/// The views of a vector of owned strings.
pub open spec fn views_of(gs: Seq<String>) -> Seq<Seq<char>> {
    gs.map_values(|g: String| g@)
}

/// Split a string on a separator character.
pub fn split_str(s: &str, sep: char) -> (r: Vec<String>)
    ensures
        views_of(r@) == spec_split(s@, sep),
{
    let n = s.unicode_len();
    let mut groups: Vec<String> = Vec::new();
    let mut start: usize = 0;
    let mut i: usize = 0;
    proof {
        assert(s@.skip(0) =~= s@);
    }
    while i < n
        invariant
            n == s@.len(),
            0 <= start <= i <= n,
            forall|k: int| start <= k < i ==> s@[k] != sep,
            spec_split(s@, sep) =~~= views_of(groups@) + spec_split(s@.skip(start as int), sep),
        decreases n - i,
    {
        let c = s.get_char(i);
        if c == sep {
            let piece = s.substring_char(start, i);
            let owned = piece.to_owned();
            proof {
                let seg = s@.subrange(start as int, i as int);
                assert(s@.skip(start as int) =~= seg + seq![sep] + s@.skip(i + 1));
                lemma_split_cut(seg, s@.skip(i + 1), sep);
                assert(views_of(groups@.push(owned)) =~= views_of(groups@).push(seg));
                assert(views_of(groups@).push(seg) + spec_split(s@.skip(i + 1), sep) =~~= views_of(
                    groups@,
                ) + (seq![seg] + spec_split(s@.skip(i + 1), sep)));
            }
            groups.push(owned);
            start = i + 1;
        }
        i = i + 1;
    }
    let piece = s.substring_char(start, n);
    let owned = piece.to_owned();
    proof {
        let seg = s@.subrange(start as int, n as int);
        assert(s@.skip(start as int) =~= seg);
        lemma_split_whole(seg, sep);
        assert(views_of(groups@.push(owned)) =~= views_of(groups@).push(seg));
        assert(views_of(groups@) + seq![seg] =~= views_of(groups@).push(seg));
    }
    groups.push(owned);
    groups
}

// ---------------------------------------------------------------------------
// IPv4
// ---------------------------------------------------------------------------

/// The decimal value of a digit string.
pub open spec fn spec_dec_val(g: Seq<char>) -> nat
    decreases g.len(),
{
    if g.len() == 0 {
        0
    } else {
        spec_dec_val(g.drop_last()) * 10 + spec_digit_val(g.last())
    }
}

/// One decimal octet: one to three digits, no leading zero, at most 255.
pub open spec fn spec_is_octet(g: Seq<char>) -> bool {
    &&& 1 <= g.len() <= 3
    &&& forall|i: int| 0 <= i < g.len() ==> spec_is_digit(#[trigger] g[i])
    &&& g.len() > 1 ==> g[0] != '0'
    &&& spec_dec_val(g) <= 255
}

pub open spec fn spec_valid_ipv4(s: Seq<char>) -> bool {
    let gs = spec_split(s, '.');
    gs.len() == 4 && (forall|i: int| 0 <= i < 4 ==> spec_is_octet(#[trigger] gs[i]))
}

/// The four octet values of a valid IPv4 literal.
pub open spec fn spec_ipv4_octets(s: Seq<char>) -> Seq<nat> {
    spec_split(s, '.').map_values(|g: Seq<char>| spec_dec_val(g))
}

/// Parse one decimal octet group.
fn parse_octet(g: &String) -> (r: Option<u8>)
    ensures
        r is Some <==> spec_is_octet(g@),
        r matches Some(v) ==> v as nat == spec_dec_val(g@),
{
    let n = g.as_str().unicode_len();
    if n < 1 || n > 3 {
        return None;
    }
    let first = g.as_str().get_char(0);
    if n > 1 && first == '0' {
        return None;
    }
    let mut val: u32 = 0;
    let mut i: usize = 0;
    proof {
        assert(g@.subrange(0, 0) =~= Seq::<char>::empty());
    }
    while i < n
        invariant
            n == g@.len(),
            n <= 3,
            0 <= i <= n,
            forall|k: int| 0 <= k < i ==> spec_is_digit(#[trigger] g@[k]),
            val as nat == spec_dec_val(g@.subrange(0, i as int)),
            val < if i == 0 { 1u32 } else if i == 1 { 10u32 } else if i == 2 { 100u32 } else { 1000u32 },
        decreases n - i,
    {
        let c = g.as_str().get_char(i);
        if c < '0' || c > '9' {
            return None;
        }
        proof {
            assert(g@.subrange(0, i + 1).drop_last() =~= g@.subrange(0, i as int));
            assert(g@.subrange(0, i + 1).last() == g@[i as int]);
        }
        val = val * 10 + ((c as u8) - 0x30) as u32;
        i = i + 1;
    }
    proof {
        assert(g@.subrange(0, n as int) =~= g@);
    }
    if val > 255 {
        return None;
    }
    Some(val as u8)
}

/// Parse an IPv4 literal into its four octets.
pub fn parse_ipv4(s: &str) -> (r: Option<(u8, u8, u8, u8)>)
    ensures
        r is Some <==> spec_valid_ipv4(s@),
        r matches Some(v) ==> spec_ipv4_octets(s@) =~= seq![
            v.0 as nat,
            v.1 as nat,
            v.2 as nat,
            v.3 as nat,
        ],
{
    let gs = split_str(s, '.');
    if gs.len() != 4 {
        return None;
    }
    let a = parse_octet(&gs[0]);
    let b = parse_octet(&gs[1]);
    let c = parse_octet(&gs[2]);
    let d = parse_octet(&gs[3]);
    match (a, b, c, d) {
        (Some(a), Some(b), Some(c), Some(d)) => {
            proof {
                let sv = spec_split(s@, '.');
                assert(views_of(gs@)[0] == sv[0]);
                assert(views_of(gs@)[1] == sv[1]);
                assert(views_of(gs@)[2] == sv[2]);
                assert(views_of(gs@)[3] == sv[3]);
                assert(forall|i: int| 0 <= i < 4 ==> spec_is_octet(#[trigger] sv[i]));
            }
            Some((a, b, c, d))
        },
        _ => {
            proof {
                let sv = spec_split(s@, '.');
                assert(views_of(gs@)[0] == sv[0]);
                assert(views_of(gs@)[1] == sv[1]);
                assert(views_of(gs@)[2] == sv[2]);
                assert(views_of(gs@)[3] == sv[3]);
            }
            None
        },
    }
}

// ---------------------------------------------------------------------------
// IPv6
// ---------------------------------------------------------------------------

/// The value of a hexadecimal digit string.
pub open spec fn spec_hex_group_val(g: Seq<char>) -> nat
    decreases g.len(),
{
    if g.len() == 0 {
        0
    } else {
        spec_hex_group_val(g.drop_last()) * 16 + spec_hex_val(g.last())
    }
}

/// One hexadecimal group: one to four hex digits.
pub open spec fn spec_is_hex_group(g: Seq<char>) -> bool {
    1 <= g.len() <= 4 && (forall|i: int| 0 <= i < g.len() ==> spec_is_hex_digit(#[trigger] g[i]))
}

pub open spec fn spec_all_hex(gs: Seq<Seq<char>>) -> bool {
    forall|i: int| 0 <= i < gs.len() ==> spec_is_hex_group(#[trigger] gs[i])
}

/// The groups after an optional `::` gap: hexadecimal groups, the last
/// of which may instead be an IPv4 literal.
pub open spec fn spec_tail_ok(gs: Seq<Seq<char>>) -> bool {
    &&& forall|i: int| 0 <= i < gs.len() - 1 ==> spec_is_hex_group(#[trigger] gs[i])
    &&& gs.len() > 0 ==> (spec_is_hex_group(gs.last()) || spec_valid_ipv4(gs.last()))
}

/// How many 16-bit segments a tail stands for: an IPv4 literal at the
/// end takes two.
pub open spec fn spec_tail_count(gs: Seq<Seq<char>>) -> nat {
    if gs.len() == 0 {
        0
    } else if spec_valid_ipv4(gs.last()) {
        gs.len() + 1
    } else {
        gs.len()
    }
}

pub open spec fn spec_hex_vals(gs: Seq<Seq<char>>) -> Seq<nat> {
    gs.map_values(|g: Seq<char>| spec_hex_group_val(g))
}

/// The two segments an embedded IPv4 literal stands for.
pub open spec fn spec_v4_pair(g: Seq<char>) -> Seq<nat> {
    let o = spec_ipv4_octets(g);
    seq![o[0] * 256 + o[1], o[2] * 256 + o[3]]
}

pub open spec fn spec_tail_vals(gs: Seq<Seq<char>>) -> Seq<nat> {
    if gs.len() > 0 && spec_valid_ipv4(gs.last()) {
        spec_hex_vals(gs.drop_last()) + spec_v4_pair(gs.last())
    } else {
        spec_hex_vals(gs)
    }
}

/// Index of the first empty group, or the length when none is empty.
pub open spec fn spec_first_empty(gs: Seq<Seq<char>>) -> int
    decreases gs.len(),
{
    if gs.len() == 0 {
        0
    } else if gs[0].len() == 0 {
        0
    } else {
        1 + spec_first_empty(gs.drop_first())
    }
}

pub proof fn lemma_first_empty_at(gs: Seq<Seq<char>>, i: int)
    requires
        0 <= i <= gs.len(),
        forall|j: int| 0 <= j < i ==> (#[trigger] gs[j]).len() > 0,
        i < gs.len() ==> gs[i].len() == 0,
    ensures
        spec_first_empty(gs) == i,
    decreases gs.len(),
{
    if gs.len() > 0 {
        if i == 0 {
        } else {
            assert(gs[0].len() > 0);
            lemma_first_empty_at(gs.drop_first(), i - 1);
        }
    }
}

/// Validity of an IPv6 literal, by the shape of its `:`-split groups.
/// The five disjuncts are: no gap and exactly eight segments; an
/// interior `::`; a leading `::`; a trailing `::`; and `::` alone.
pub open spec fn spec_valid_ipv6(s: Seq<char>) -> bool {
    let gs = spec_split(s, ':');
    let n = gs.len() as int;
    let k = spec_first_empty(gs);
    ||| (k == n && spec_tail_ok(gs) && spec_tail_count(gs) == 8)
    ||| (1 <= k <= n - 2 && gs[k].len() == 0 && !(k == n - 2 && gs[n - 1].len() == 0)
        && spec_all_hex(gs.take(k)) && spec_tail_ok(gs.skip(k + 1)) && k + spec_tail_count(
        gs.skip(k + 1),
    ) <= 7)
    ||| (n == 3 && gs[0].len() == 0 && gs[1].len() == 0 && gs[2].len() == 0)
    ||| (n >= 3 && gs[0].len() == 0 && gs[1].len() == 0 && !(n == 3 && gs[2].len() == 0)
        && spec_tail_ok(gs.skip(2)) && spec_tail_count(gs.skip(2)) <= 7)
    ||| (n >= 3 && gs[n - 1].len() == 0 && gs[n - 2].len() == 0 && !(n == 3 && gs[0].len() == 0)
        && spec_all_hex(gs.take(n - 2)) && n - 2 <= 7)
}

/// The eight 16-bit segment values of a valid IPv6 literal.
pub open spec fn spec_ipv6_segs(s: Seq<char>) -> Seq<nat> {
    let gs = spec_split(s, ':');
    let n = gs.len() as int;
    let k = spec_first_empty(gs);
    if k == n {
        spec_tail_vals(gs)
    } else if n == 3 && gs[0].len() == 0 && gs[1].len() == 0 && gs[2].len() == 0 {
        Seq::new(8, |i: int| 0nat)
    } else if n >= 3 && gs[0].len() == 0 && gs[1].len() == 0 {
        let tc = spec_tail_count(gs.skip(2));
        Seq::new((8 - tc) as nat, |i: int| 0nat) + spec_tail_vals(gs.skip(2))
    } else if n >= 3 && gs[n - 1].len() == 0 && gs[n - 2].len() == 0 && k == n - 2 {
        spec_hex_vals(gs.take(n - 2)) + Seq::new((8 - (n - 2)) as nat, |i: int| 0nat)
    } else {
        let tc = spec_tail_count(gs.skip(k + 1));
        spec_hex_vals(gs.take(k)) + Seq::new((8 - k - tc) as nat, |i: int| 0nat) + spec_tail_vals(
            gs.skip(k + 1),
        )
    }
}

/// Parse one hexadecimal group.
fn parse_hex_group(g: &String) -> (r: Option<u16>)
    ensures
        r is Some <==> spec_is_hex_group(g@),
        r matches Some(v) ==> v as nat == spec_hex_group_val(g@),
{
    let n = g.as_str().unicode_len();
    if n < 1 || n > 4 {
        return None;
    }
    let mut val: u32 = 0;
    let mut i: usize = 0;
    proof {
        assert(g@.subrange(0, 0) =~= Seq::<char>::empty());
    }
    while i < n
        invariant
            n == g@.len(),
            n <= 4,
            0 <= i <= n,
            forall|k: int| 0 <= k < i ==> spec_is_hex_digit(#[trigger] g@[k]),
            val as nat == spec_hex_group_val(g@.subrange(0, i as int)),
            val < if i == 0 {
                1u32
            } else if i == 1 {
                16u32
            } else if i == 2 {
                256u32
            } else if i == 3 {
                4096u32
            } else {
                65536u32
            },
        decreases n - i,
    {
        let c = g.as_str().get_char(i);
        let d: u32 = if c >= '0' && c <= '9' {
            ((c as u8) - 0x30) as u32
        } else if c >= 'a' && c <= 'f' {
            ((c as u8) - 0x61 + 10) as u32
        } else if c >= 'A' && c <= 'F' {
            ((c as u8) - 0x41 + 10) as u32
        } else {
            return None;
        };
        proof {
            assert(g@.subrange(0, i + 1).drop_last() =~= g@.subrange(0, i as int));
            assert(g@.subrange(0, i + 1).last() == g@[i as int]);
        }
        val = val * 16 + d;
        i = i + 1;
    }
    proof {
        assert(g@.subrange(0, n as int) =~= g@);
    }
    Some(val as u16)
}

/// Parse the groups of `gs` from `from` on as a tail: hexadecimal
/// groups with an optional IPv4 literal in the last place.
fn parse_tail(gs: &Vec<String>, from: usize) -> (r: Option<Vec<u16>>)
    requires
        from <= gs@.len(),
    ensures
        r is Some <==> spec_tail_ok(views_of(gs@).skip(from as int)),
        r matches Some(v) ==> {
            &&& v@.map_values(|x: u16| x as nat) == spec_tail_vals(views_of(gs@).skip(from as int))
            &&& v@.len() == spec_tail_count(views_of(gs@).skip(from as int))
        },
{
    let ghost tail = views_of(gs@).skip(from as int);
    let n = gs.len();
    let mut vals: Vec<u16> = Vec::new();
    if from == n {
        proof {
            assert(tail =~= Seq::<Seq<char>>::empty());
            assert(vals@.map_values(|x: u16| x as nat) =~= spec_tail_vals(tail));
        }
        return Some(vals);
    }
    let mut i: usize = from;
    while i < n - 1
        invariant
            from <= i <= n - 1,
            n == gs@.len(),
            from < n,
            tail == views_of(gs@).skip(from as int),
            forall|j: int| 0 <= j < i - from ==> spec_is_hex_group(#[trigger] tail[j]),
            vals@.map_values(|x: u16| x as nat) =~= spec_hex_vals(tail.take(i - from)),
        decreases n - i,
    {
        match parse_hex_group(&gs[i]) {
            Some(v) => {
                proof {
                    assert(tail[i - from] == gs@[i as int]@);
                    assert(tail.take(i + 1 - from) =~= tail.take(i - from).push(tail[i - from]));
                    assert(vals@.push(v).map_values(|x: u16| x as nat) =~= vals@.map_values(
                        |x: u16| x as nat,
                    ).push(v as nat));
                    assert(spec_hex_vals(tail.take(i + 1 - from)) =~= spec_hex_vals(
                        tail.take(i - from),
                    ).push(spec_hex_group_val(tail[i - from])));
                }
                vals.push(v);
            },
            None => {
                proof {
                    assert(tail[i - from] == gs@[i as int]@);
                    assert(!spec_is_hex_group(tail[i - from]));
                }
                return None;
            },
        }
        i = i + 1;
    }
    // the last group may be a hexadecimal group or an IPv4 literal
    proof {
        assert(tail.last() == gs@[n - 1]@);
        assert(tail.take(n - 1 - from) =~= tail.drop_last());
    }
    match parse_hex_group(&gs[n - 1]) {
        Some(v) => {
            proof {
                assert(!spec_valid_ipv4(tail.last())) by {
                    if spec_valid_ipv4(tail.last()) {
                        let gg = tail.last();
                        lemma_split_len(gg, '.');
                        let parts = spec_split(gg, '.');
                        lemma_hex_group_no_dot(gg);
                    }
                }
                assert(vals@.push(v).map_values(|x: u16| x as nat) =~= vals@.map_values(
                    |x: u16| x as nat,
                ).push(v as nat));
                assert(tail =~= tail.drop_last().push(tail.last()));
                assert(spec_hex_vals(tail) =~= spec_hex_vals(tail.drop_last()).push(
                    spec_hex_group_val(tail.last()),
                ));
            }
            vals.push(v);
            Some(vals)
        },
        None => {
            match parse_ipv4(gs[n - 1].as_str()) {
                Some((a, b, c, d)) => {
                    proof {
                        assert(spec_v4_pair(tail.last()) =~= seq![
                            a as nat * 256 + b as nat,
                            c as nat * 256 + d as nat,
                        ]);
                    }
                    let s0: u16 = (a as u16) * 256 + (b as u16);
                    let s1: u16 = (c as u16) * 256 + (d as u16);
                    vals.push(s0);
                    proof {
                        assert(vals@.map_values(|x: u16| x as nat) =~= spec_hex_vals(
                            tail.drop_last(),
                        ).push(s0 as nat));
                    }
                    vals.push(s1);
                    proof {
                        assert(vals@.map_values(|x: u16| x as nat) =~= spec_hex_vals(
                            tail.drop_last(),
                        ) + spec_v4_pair(tail.last()));
                    }
                    Some(vals)
                },
                None => {
                    None
                },
            }
        },
    }
}

/// Parse the first `to` groups of `gs` as hexadecimal groups.
fn parse_hex_run(gs: &Vec<String>, to: usize) -> (r: Option<Vec<u16>>)
    requires
        to <= gs@.len(),
    ensures
        r is Some <==> spec_all_hex(views_of(gs@).take(to as int)),
        r matches Some(v) ==> {
            &&& v@.map_values(|x: u16| x as nat) == spec_hex_vals(views_of(gs@).take(to as int))
            &&& v@.len() == to
        },
{
    let ghost head = views_of(gs@).take(to as int);
    let mut vals: Vec<u16> = Vec::new();
    let mut i: usize = 0;
    while i < to
        invariant
            0 <= i <= to <= gs@.len(),
            head == views_of(gs@).take(to as int),
            forall|j: int| 0 <= j < i ==> spec_is_hex_group(#[trigger] head[j]),
            vals@.map_values(|x: u16| x as nat) =~= spec_hex_vals(head.take(i as int)),
            vals@.len() == i,
        decreases to - i,
    {
        match parse_hex_group(&gs[i]) {
            Some(v) => {
                proof {
                    assert(head[i as int] == gs@[i as int]@);
                    assert(head.take(i + 1) =~= head.take(i as int).push(head[i as int]));
                    assert(vals@.push(v).map_values(|x: u16| x as nat) =~= vals@.map_values(
                        |x: u16| x as nat,
                    ).push(v as nat));
                    assert(spec_hex_vals(head.take(i + 1)) =~= spec_hex_vals(
                        head.take(i as int),
                    ).push(spec_hex_group_val(head[i as int])));
                }
                vals.push(v);
            },
            None => {
                proof {
                    assert(head[i as int] == gs@[i as int]@);
                }
                return None;
            },
        }
        i = i + 1;
    }
    proof {
        assert(head.take(to as int) =~= head);
    }
    Some(vals)
}

/// Append `m` zero segments.
fn push_zeros(v: &mut Vec<u16>, m: usize)
    ensures
        final(v)@.len() == old(v)@.len() + m,
        final(v)@.map_values(|x: u16| x as nat) == old(v)@.map_values(|x: u16| x as nat) + Seq::new(
            m as nat,
            |i: int| 0nat,
        ),
{
    let mut j: usize = 0;
    while j < m
        invariant
            0 <= j <= m,
            v@.len() == old(v)@.len() + j,
            v@.map_values(|x: u16| x as nat) =~= old(v)@.map_values(|x: u16| x as nat) + Seq::new(
                j as nat,
                |i: int| 0nat,
            ),
        decreases m - j,
    {
        proof {
            assert(v@.push(0u16).map_values(|x: u16| x as nat) =~= v@.map_values(
                |x: u16| x as nat,
            ).push(0nat));
            assert(Seq::new((j + 1) as nat, |i: int| 0nat) =~= Seq::new(j as nat, |i: int| 0nat).push(
                0nat,
            ));
        }
        v.push(0u16);
        j = j + 1;
    }
    proof {
        assert(v@.map_values(|x: u16| x as nat) =~= old(v)@.map_values(|x: u16| x as nat)
            + Seq::new(m as nat, |i: int| 0nat));
    }
}

/// Parse an IPv6 literal into its eight 16-bit segments.
pub fn parse_ipv6(s: &str) -> (r: Option<Vec<u16>>)
    ensures
        r is Some <==> spec_valid_ipv6(s@),
        r matches Some(v) ==> v@.len() == 8 && v@.map_values(|x: u16| x as nat) == spec_ipv6_segs(
            s@,
        ),
{
    let gs = split_str(s, ':');
    let ghost gv = views_of(gs@);
    let n = gs.len();
    proof {
        lemma_split_len(s@, ':');
    }
    // find the first empty group, which marks a `::` gap
    let mut k: usize = 0;
    while k < n && gs[k].as_str().is_empty() == false
        invariant
            n == gs@.len(),
            gv == views_of(gs@),
            0 <= k <= n,
            forall|j: int| 0 <= j < k ==> (#[trigger] gv[j]).len() > 0,
        decreases n - k,
    {
        proof {
            assert(gv[k as int] == gs@[k as int]@);
        }
        k = k + 1;
    }
    proof {
        if k < n {
            assert(gv[k as int] == gs@[k as int]@);
        }
        lemma_first_empty_at(gv, k as int);
    }
    if k == n {
        // no gap: the groups must stand for exactly eight segments
        proof {
            assert(gv[0].len() > 0);
            assert(gv[n - 1].len() > 0);
        }
        match parse_tail(&gs, 0) {
            Some(v) => {
                proof {
                    assert(gv.skip(0) =~= gv);
                }
                if v.len() == 8 {
                    Some(v)
                } else {
                    None
                }
            },
            None => {
                proof {
                    assert(gv.skip(0) =~= gv);
                }
                None
            },
        }
    } else if k == 0 {
        if n >= 2 && gs[1].as_str().is_empty() {
            proof {
                assert(gv[1] == gs@[1]@);
            }
            if n == 2 {
                // the bare string `:`
                None
            } else if n == 3 && gs[2].as_str().is_empty() {
                // the bare string `::`
                proof {
                    assert(gv[2] == gs@[2]@);
                }
                let mut v: Vec<u16> = Vec::new();
                push_zeros(&mut v, 8);
                proof {
                    assert(v@.map_values(|x: u16| x as nat) =~= Seq::new(8, |i: int| 0nat));
                }
                Some(v)
            } else {
                // leading `::`
                proof {
                    if n == 3 {
                        assert(gv[2] == gs@[2]@);
                    }
                }
                proof {
                    if n - 2 >= 1 {
                        assert(gv.take(n - 2)[0] == gv[0]);
                    }
                }
                match parse_tail(&gs, 2) {
                    Some(tv) => {
                        if tv.len() <= 7 {
                            let mut v: Vec<u16> = Vec::new();
                            push_zeros(&mut v, 8 - tv.len());
                            let ghost tvals = tv@.map_values(|x: u16| x as nat);
                            let mut tail_vec = tv;
                            v.append(&mut tail_vec);
                            proof {
                                assert(v@.map_values(|x: u16| x as nat) =~= Seq::new(
                                    (8 - spec_tail_count(gv.skip(2))) as nat,
                                    |i: int| 0nat,
                                ) + spec_tail_vals(gv.skip(2)));
                            }
                            Some(v)
                        } else {
                            None
                        }
                    },
                    None => None,
                }
            }
        } else {
            // a single leading `:`
            proof {
                if n >= 2 {
                    assert(gv[1] == gs@[1]@);
                }
                if n > 3 {
                    assert(gv.take(n - 2)[0] == gv[0]);
                }
                assert(!spec_valid_ipv6(s@));
            }
            None
        }
    } else if k == n - 1 {
        // a single trailing `:`
        proof {
            assert(gv[0].len() > 0);
            assert(gv[n - 2].len() > 0);
            assert(!spec_valid_ipv6(s@));
        }
        None
    } else if k == n - 2 && gs[n - 1].as_str().is_empty() {
        // trailing `::`
        proof {
            assert(gv[n - 1] == gs@[n - 1]@);
        }
        proof {
            assert(gv[0].len() > 0);
        }
        if n - 2 > 7 {
            None
        } else {
            match parse_hex_run(&gs, n - 2) {
                Some(mut v) => {
                    let hc = v.len();
                    push_zeros(&mut v, 8 - hc);
                    proof {
                        assert(v@.map_values(|x: u16| x as nat) =~= spec_hex_vals(
                            gv.take(n - 2),
                        ) + Seq::new((8 - (n - 2)) as nat, |i: int| 0nat));
                    }
                    Some(v)
                },
                None => None,
            }
        }
    } else {
        // interior `::`
        proof {
            assert(gv[0].len() > 0);
            assert(gv[n - 1] == gs@[n - 1]@);
            if k < n - 2 {
                assert(gv.take(n - 2)[k as int] == gv[k as int]);
            }
        }
        match parse_hex_run(&gs, k) {
            Some(mut v) => {
                match parse_tail(&gs, k + 1) {
                    Some(tv) => {
                        if k + tv.len() <= 7 {
                            let zc = 8 - k - tv.len();
                            push_zeros(&mut v, zc);
                            let mut tail_vec = tv;
                            let ghost mid = v@.map_values(|x: u16| x as nat);
                            v.append(&mut tail_vec);
                            proof {
                                assert(v@.map_values(|x: u16| x as nat) =~= spec_hex_vals(
                                    gv.take(k as int),
                                ) + Seq::new((8 - k - spec_tail_count(gv.skip(k + 1))) as nat, |i: int| 0nat)
                                    + spec_tail_vals(gv.skip(k + 1)));
                            }
                            Some(v)
                        } else {
                            None
                        }
                    },
                    None => None,
                }
            },
            None => None,
        }
    }
}

/// A hexadecimal group never reads as an IPv4 literal: it holds no dot,
/// so its dot-split is itself, one group rather than four.
proof fn lemma_hex_group_no_dot(g: Seq<char>)
    requires
        spec_is_hex_group(g),
    ensures
        !spec_valid_ipv4(g),
{
    assert(forall|i: int| 0 <= i < g.len() ==> g[i] != '.') by {
        assert forall|i: int| 0 <= i < g.len() implies g[i] != '.' by {
            assert(spec_is_hex_digit(g[i]));
        }
    }
    lemma_split_whole(g, '.');
}

// ---------------------------------------------------------------------------
// Parsed addresses and their classification
// ---------------------------------------------------------------------------

/// A parsed IP address: four octets, or eight 16-bit segments.
pub enum IpParsed {
    V4 { a: u8, b: u8, c: u8, d: u8 },
    V6 { segs: Vec<u16> },
}

/// A string is an IP address literal when it is an IPv4 or an IPv6 one.
pub open spec fn spec_valid_ip(s: Seq<char>) -> bool {
    spec_valid_ipv4(s) || spec_valid_ipv6(s)
}

/// The parsed value matches the literal it came from.
pub open spec fn spec_parsed_of(s: Seq<char>, p: IpParsed) -> bool {
    match p {
        IpParsed::V4 { a, b, c, d } => spec_valid_ipv4(s) && spec_ipv4_octets(s) == seq![
            a as nat,
            b as nat,
            c as nat,
            d as nat,
        ],
        IpParsed::V6 { segs } => {
            &&& spec_valid_ipv6(s)
            &&& !spec_valid_ipv4(s)
            &&& segs@.len() == 8
            &&& segs@.map_values(|x: u16| x as nat) == spec_ipv6_segs(s)
        },
    }
}

/// Parse an IP address literal of either family.
pub fn parse_ip(s: &str) -> (r: Option<IpParsed>)
    ensures
        r is Some <==> spec_valid_ip(s@),
        r matches Some(p) ==> spec_parsed_of(s@, p),
{
    match parse_ipv4(s) {
        Some((a, b, c, d)) => Some(IpParsed::V4 { a, b, c, d }),
        None => {
            match parse_ipv6(s) {
                Some(v) => Some(IpParsed::V6 { segs: v }),
                None => None,
            }
        },
    }
}

/// Addresses with no public location: IPv4 loopback, private,
/// link-local, broadcast and unspecified ranges, and the IPv6 loopback
/// and unspecified addresses.
pub open spec fn spec_is_private(p: IpParsed) -> bool {
    match p {
        IpParsed::V4 { a, b, c, d } => {
            ||| a == 127
            ||| a == 10
            ||| (a == 172 && 16 <= b <= 31)
            ||| (a == 192 && b == 168)
            ||| (a == 169 && b == 254)
            ||| (a == 255 && b == 255 && c == 255 && d == 255)
            ||| (a == 0 && b == 0 && c == 0 && d == 0)
        },
        IpParsed::V6 { segs } => {
            &&& segs@.len() == 8
            &&& forall|i: int| 0 <= i < 7 ==> #[trigger] segs@[i] == 0
            &&& (segs@[7] == 0 || segs@[7] == 1)
        },
    }
}

pub fn is_private_ip(p: &IpParsed) -> (r: bool)
    ensures
        r == spec_is_private(*p),
{
    match p {
        IpParsed::V4 { a, b, c, d } => {
            *a == 127 || *a == 10 || (*a == 172 && 16 <= *b && *b <= 31) || (*a == 192 && *b
                == 168) || (*a == 169 && *b == 254) || (*a == 255 && *b == 255 && *c == 255 && *d
                == 255) || (*a == 0 && *b == 0 && *c == 0 && *d == 0)
        },
        IpParsed::V6 { segs } => {
            if segs.len() != 8 {
                return false;
            }
            let mut i: usize = 0;
            let mut all_zero = true;
            while i < 7
                invariant
                    segs@.len() == 8,
                    0 <= i <= 7,
                    all_zero <==> (forall|j: int| 0 <= j < i ==> #[trigger] segs@[j] == 0),
                decreases 7 - i,
            {
                if segs[i] != 0 {
                    all_zero = false;
                    proof {
                        assert(segs@[i as int] != 0);
                    }
                    i = 7;
                } else {
                    i = i + 1;
                }
            }
            all_zero && (segs[7] == 0 || segs[7] == 1)
        },
    }
}

/// The private IPv4 ranges, over the four octet values.
pub open spec fn spec_private_v4(o: Seq<nat>) -> bool {
    &&& o.len() == 4
    &&& {
        ||| o[0] == 127
        ||| o[0] == 10
        ||| (o[0] == 172 && 16 <= o[1] <= 31)
        ||| (o[0] == 192 && o[1] == 168)
        ||| (o[0] == 169 && o[1] == 254)
        ||| (o[0] == 255 && o[1] == 255 && o[2] == 255 && o[3] == 255)
        ||| (o[0] == 0 && o[1] == 0 && o[2] == 0 && o[3] == 0)
    }
}

/// The private IPv6 addresses, over the eight segment values: the
/// unspecified and the loopback address.
pub open spec fn spec_private_v6(v: Seq<nat>) -> bool {
    &&& v.len() == 8
    &&& forall|i: int| 0 <= i < 7 ==> #[trigger] v[i] == 0
    &&& (v[7] == 0 || v[7] == 1)
}

/// Whether an address literal denotes a private or otherwise
/// unroutable address.
pub open spec fn spec_private_addr(s: Seq<char>) -> bool {
    if spec_valid_ipv4(s) {
        spec_private_v4(spec_ipv4_octets(s))
    } else if spec_valid_ipv6(s) {
        spec_private_v6(spec_ipv6_segs(s))
    } else {
        false
    }
}

/// The classification of a parsed value agrees with the classification
/// of the literal it was parsed from.
pub proof fn lemma_private_matches(s: Seq<char>, p: IpParsed)
    requires
        spec_parsed_of(s, p),
    ensures
        spec_is_private(p) == spec_private_addr(s),
{
    match p {
        IpParsed::V4 { a, b, c, d } => {
            let o = spec_ipv4_octets(s);
            assert(o[0] == a as nat && o[1] == b as nat && o[2] == c as nat && o[3] == d as nat);
        },
        IpParsed::V6 { segs } => {
            let v = spec_ipv6_segs(s);
            let m = segs@.map_values(|x: u16| x as nat);
            assert(forall|i: int| 0 <= i < 8 ==> #[trigger] v[i] == segs@[i] as nat) by {
                assert(forall|i: int| 0 <= i < 8 ==> #[trigger] m[i] == segs@[i] as nat);
            }
            if spec_is_private(p) {
                assert forall|i: int| 0 <= i < 7 implies #[trigger] v[i] == 0 by {
                    assert(segs@[i] == 0);
                    assert(v[i] == segs@[i] as nat);
                }
            }
            if spec_private_addr(s) {
                assert forall|i: int| 0 <= i < 7 implies #[trigger] segs@[i] == 0 by {
                    assert(v[i] == 0);
                    assert(v[i] == segs@[i] as nat);
                }
            }
        },
    }
}

} // verus!
