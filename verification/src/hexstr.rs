//! The inline byte syntax of scenarios and of the command line.
//!
//! A UDS command is written as space-separated hex bytes, each optionally
//! followed by `*N` to repeat the byte `N` times: `22 ff ff*12`.  This
//! module parses that syntax, renders bytes back into it, and proves the
//! two inverse: parsing what was rendered gives the bytes back.

use vstd::prelude::*;

verus! {

/// The value of a hex digit, or `None` for any other character.
pub open spec fn hex_digit_val(c: char) -> Option<u8> {
    match c {
        '0' => Some(0u8),
        '1' => Some(1u8),
        '2' => Some(2u8),
        '3' => Some(3u8),
        '4' => Some(4u8),
        '5' => Some(5u8),
        '6' => Some(6u8),
        '7' => Some(7u8),
        '8' => Some(8u8),
        '9' => Some(9u8),
        'a' => Some(10u8),
        'b' => Some(11u8),
        'c' => Some(12u8),
        'd' => Some(13u8),
        'e' => Some(14u8),
        'f' => Some(15u8),
        'A' => Some(10u8),
        'B' => Some(11u8),
        'C' => Some(12u8),
        'D' => Some(13u8),
        'E' => Some(14u8),
        'F' => Some(15u8),
        _ => None,
    }
}

/// The value of a decimal digit, or `None` for any other character.
pub open spec fn dec_digit_val(c: char) -> Option<u8> {
    match c {
        '0' => Some(0u8),
        '1' => Some(1u8),
        '2' => Some(2u8),
        '3' => Some(3u8),
        '4' => Some(4u8),
        '5' => Some(5u8),
        '6' => Some(6u8),
        '7' => Some(7u8),
        '8' => Some(8u8),
        '9' => Some(9u8),
        _ => None,
    }
}

pub open spec fn all_hex(s: Seq<char>) -> bool {
    forall|i: int| 0 <= i < s.len() ==> hex_digit_val(s[i]) is Some
}

pub open spec fn all_dec(s: Seq<char>) -> bool {
    forall|i: int| 0 <= i < s.len() ==> dec_digit_val(s[i]) is Some
}

/// The number written by a string of hex digits (most significant first).
pub open spec fn hex_num(s: Seq<char>) -> nat
    decreases s.len(),
{
    if s.len() == 0 {
        0
    } else {
        (hex_num(s.drop_last()) * 16 + (match hex_digit_val(s.last()) {
            Some(v) => v as nat,
            None => 0,
        })) as nat
    }
}

/// The number written by a string of decimal digits.
pub open spec fn dec_num(s: Seq<char>) -> nat
    decreases s.len(),
{
    if s.len() == 0 {
        0
    } else {
        (dec_num(s.drop_last()) * 10 + (match dec_digit_val(s.last()) {
            Some(v) => v as nat,
            None => 0,
        })) as nat
    }
}

/// A hex byte: one or more hex digits whose value fits in eight bits.
pub open spec fn spec_parse_hex_u8(s: Seq<char>) -> Option<u8> {
    if s.len() >= 1 && all_hex(s) && hex_num(s) <= 0xff {
        Some(hex_num(s) as u8)
    } else {
        None
    }
}

/// A decimal count: one or more decimal digits whose value fits the
/// machine's word.
pub open spec fn spec_parse_usize(s: Seq<char>) -> Option<usize> {
    if s.len() >= 1 && all_dec(s) && dec_num(s) <= usize::MAX {
        Some(dec_num(s) as usize)
    } else {
        None
    }
}

/// The first index of `c` in `s`, or `s.len()` when `c` does not occur.
pub open spec fn find_first(s: Seq<char>, c: char) -> nat
    decreases s.len(),
{
    if s.len() == 0 {
        0
    } else if s[0] == c {
        0
    } else {
        (1 + find_first(s.drop_first(), c)) as nat
    }
}

pub proof fn lemma_find_first(s: Seq<char>, c: char)
    ensures
        find_first(s, c) <= s.len(),
        find_first(s, c) < s.len() ==> s[find_first(s, c) as int] == c,
        forall|j: int| 0 <= j < find_first(s, c) ==> s[j] != c,
    decreases s.len(),
{
    if s.len() > 0 && s[0] != c {
        lemma_find_first(s.drop_first(), c);
        assert forall|j: int| 0 <= j < find_first(s, c) implies s[j] != c by {
            if j > 0 {
                assert(s.drop_first()[j - 1] != c);
            }
        }
    }
}

/// A position that starts no occurrence of `c` and sits right before one
/// (or at the end) is where `find_first` points.
pub proof fn lemma_find_first_unique(s: Seq<char>, c: char, k: int)
    requires
        0 <= k <= s.len(),
        forall|j: int| 0 <= j < k ==> s[j] != c,
        k == s.len() || s[k] == c,
    ensures
        find_first(s, c) == k,
{
    lemma_find_first(s, c);
    let f = find_first(s, c) as int;
    if f < k {
        assert(s[f] != c);
    }
    if f > k {
        assert(k < s.len());
        assert(s[k] != c);
    }
}

/// One atom of the byte syntax: `XY` or `XY*N`, as a byte and a count.
pub open spec fn spec_parse_atom(t: Seq<char>) -> Option<(u8, usize)> {
    let i = find_first(t, '*') as int;
    if i == t.len() {
        match spec_parse_hex_u8(t) {
            Some(v) => Some((v, 1usize)),
            None => None,
        }
    } else {
        let head = t.subrange(0, i);
        let tail = t.subrange(i + 1, t.len() as int);
        if find_first(tail, '*') != tail.len() {
            None
        } else {
            match (spec_parse_hex_u8(head), spec_parse_usize(tail)) {
                (Some(v), Some(n)) => Some((v, n)),
                _ => None,
            }
        }
    }
}

/// `n` copies of `v`.
pub open spec fn repeat_byte(v: u8, n: nat) -> Seq<u8> {
    Seq::new(n, |i: int| v)
}

/// The first space at or after `pos`, or the end of the string.
pub open spec fn find_from(s: Seq<char>, pos: nat) -> nat {
    pos + find_first(s.subrange(pos as int, s.len() as int), ' ')
}

/// The bytes written by the atoms from `pos` on, atoms separated by single
/// spaces; `None` as soon as one atom is malformed (so an empty atom, as
/// between two consecutive spaces, fails the whole command).
pub open spec fn spec_parse_cmd_from(s: Seq<char>, pos: nat) -> Option<Seq<u8>>
    decreases s.len() - pos,
{
    let i = find_from(s, pos);
    if i < s.len() {
        match (spec_parse_atom(s.subrange(pos as int, i as int)), spec_parse_cmd_from(
            s,
            (i + 1) as nat,
        )) {
            (Some((v, n)), Some(rest)) => Some(repeat_byte(v, n as nat) + rest),
            _ => None,
        }
    } else {
        match spec_parse_atom(s.subrange(pos as int, s.len() as int)) {
            Some((v, n)) => Some(repeat_byte(v, n as nat)),
            None => None,
        }
    }
}

/// The bytes a whole command line stands for.
pub open spec fn spec_parse_uds_command(s: Seq<char>) -> Option<Seq<u8>> {
    spec_parse_cmd_from(s, 0)
}

/// `hex_num` only grows as digits are appended.
proof fn lemma_hex_num_prefix_grows(s: Seq<char>, n: int)
    requires
        0 <= n <= s.len(),
    ensures
        hex_num(s) >= hex_num(s.subrange(0, n)),
    decreases s.len() - n,
{
    if n == s.len() {
        assert(s.subrange(0, n) =~= s);
    } else {
        lemma_hex_num_prefix_grows(s, n + 1);
        let t = s.subrange(0, n + 1);
        assert(t.drop_last() =~= s.subrange(0, n));
        assert(hex_num(s.subrange(0, n)) * 16 >= hex_num(s.subrange(0, n))) by (nonlinear_arith);
    }
}

/// `dec_num` only grows as digits are appended.
proof fn lemma_dec_num_prefix_grows(s: Seq<char>, n: int)
    requires
        0 <= n <= s.len(),
    ensures
        dec_num(s) >= dec_num(s.subrange(0, n)),
    decreases s.len() - n,
{
    if n == s.len() {
        assert(s.subrange(0, n) =~= s);
    } else {
        lemma_dec_num_prefix_grows(s, n + 1);
        let t = s.subrange(0, n + 1);
        assert(t.drop_last() =~= s.subrange(0, n));
        assert(dec_num(s.subrange(0, n)) * 10 >= dec_num(s.subrange(0, n))) by (nonlinear_arith);
    }
}

/// The hex digit at one character, or `None`.
fn hex_digit_of(c: char) -> (r: Option<u8>)
    ensures
        r == hex_digit_val(c),
{
    match c {
        '0' => Some(0u8),
        '1' => Some(1u8),
        '2' => Some(2u8),
        '3' => Some(3u8),
        '4' => Some(4u8),
        '5' => Some(5u8),
        '6' => Some(6u8),
        '7' => Some(7u8),
        '8' => Some(8u8),
        '9' => Some(9u8),
        'a' => Some(10u8),
        'b' => Some(11u8),
        'c' => Some(12u8),
        'd' => Some(13u8),
        'e' => Some(14u8),
        'f' => Some(15u8),
        'A' => Some(10u8),
        'B' => Some(11u8),
        'C' => Some(12u8),
        'D' => Some(13u8),
        'E' => Some(14u8),
        'F' => Some(15u8),
        _ => None,
    }
}

fn dec_digit_of(c: char) -> (r: Option<u8>)
    ensures
        r == dec_digit_val(c),
{
    match c {
        '0' => Some(0u8),
        '1' => Some(1u8),
        '2' => Some(2u8),
        '3' => Some(3u8),
        '4' => Some(4u8),
        '5' => Some(5u8),
        '6' => Some(6u8),
        '7' => Some(7u8),
        '8' => Some(8u8),
        '9' => Some(9u8),
        _ => None,
    }
}

/// The hex value of `s[start..end]`, refused beyond `bound`.
fn hex_val_range(s: &str, start: usize, end: usize, bound: u32) -> (r: Option<u32>)
    requires
        start <= end <= s@.len(),
        bound <= 0xffff,
    ensures
        ({
            let t = s@.subrange(start as int, end as int);
            match r {
                Some(x) => t.len() >= 1 && all_hex(t) && hex_num(t) == x && x <= bound,
                None => !(t.len() >= 1 && all_hex(t) && hex_num(t) <= bound),
            }
        }),
{
    let ghost t = s@.subrange(start as int, end as int);
    if start == end {
        return None;
    }
    let mut acc: u32 = 0;
    let mut i: usize = start;
    while i < end
        invariant
            start <= i <= end <= s@.len(),
            t == s@.subrange(start as int, end as int),
            all_hex(t.subrange(0, i - start)),
            acc == hex_num(t.subrange(0, i - start)),
            acc <= bound <= 0xffff,
        decreases end - i,
    {
        let ghost pre = t.subrange(0, i - start);
        let ghost nxt = t.subrange(0, i + 1 - start);
        proof {
            assert(nxt.drop_last() =~= pre);
            assert(nxt.last() == s@[i as int]);
        }
        let c = s.get_char(i);
        let d = match hex_digit_of(c) {
            Some(d) => d,
            None => {
                proof {
                    assert(!all_hex(t)) by {
                        assert(hex_digit_val(t[i - start]) is None);
                    }
                }
                return None;
            },
        };
        let next = acc * 16 + d as u32;
        proof {
            assert(hex_num(nxt) == acc * 16 + d);
        }
        if next > bound {
            proof {
                lemma_hex_num_prefix_grows(t, i + 1 - start);
            }
            return None;
        }
        acc = next;
        i += 1;
    }
    proof {
        assert(t.subrange(0, i - start) =~= t);
    }
    Some(acc)
}

/// The decimal value of `s[start..end]`, refused beyond the machine's word.
fn dec_val_range(s: &str, start: usize, end: usize) -> (r: Option<usize>)
    requires
        start <= end <= s@.len(),
    ensures
        ({
            let t = s@.subrange(start as int, end as int);
            r == spec_parse_usize(t)
        }),
{
    let ghost t = s@.subrange(start as int, end as int);
    if start == end {
        return None;
    }
    let mut acc: usize = 0;
    let mut i: usize = start;
    while i < end
        invariant
            start <= i <= end <= s@.len(),
            t == s@.subrange(start as int, end as int),
            all_dec(t.subrange(0, i - start)),
            acc == dec_num(t.subrange(0, i - start)),
        decreases end - i,
    {
        let ghost pre = t.subrange(0, i - start);
        let ghost nxt = t.subrange(0, i + 1 - start);
        proof {
            assert(nxt.drop_last() =~= pre);
            assert(nxt.last() == s@[i as int]);
        }
        let c = s.get_char(i);
        let d = match dec_digit_of(c) {
            Some(d) => d,
            None => {
                proof {
                    assert(!all_dec(t)) by {
                        assert(dec_digit_val(t[i - start]) is None);
                    }
                }
                return None;
            },
        };
        let scaled = match acc.checked_mul(10) {
            Some(x) => x,
            None => {
                proof {
                    assert(dec_num(nxt) > usize::MAX);
                    lemma_dec_num_prefix_grows(t, i + 1 - start);
                }
                return None;
            },
        };
        let next = match scaled.checked_add(d as usize) {
            Some(x) => x,
            None => {
                proof {
                    assert(dec_num(nxt) > usize::MAX);
                    lemma_dec_num_prefix_grows(t, i + 1 - start);
                }
                return None;
            },
        };
        proof {
            assert(dec_num(nxt) == acc * 10 + d);
        }
        acc = next;
        i += 1;
    }
    proof {
        assert(t.subrange(0, i - start) =~= t);
    }
    Some(acc)
}

/// The first index of `c` in `s[from..end]`, or `end`.
fn scan_for(s: &str, from: usize, end: usize, c: char) -> (r: usize)
    requires
        from <= end <= s@.len(),
    ensures
        from <= r <= end,
        r - from == find_first(s@.subrange(from as int, end as int), c),
{
    let ghost t = s@.subrange(from as int, end as int);
    let mut i: usize = from;
    while i < end && s.get_char(i) != c
        invariant
            from <= i <= end <= s@.len(),
            t == s@.subrange(from as int, end as int),
            forall|j: int| 0 <= j < i - from ==> t[j] != c,
        decreases end - i,
    {
        i += 1;
    }
    proof {
        lemma_find_first_unique(t, c, i - from);
    }
    i
}

/// A single hex byte: `u8::from_str_radix(ins, 16)` written out.
pub fn parse_hex_u8(ins: &str) -> (r: Option<u8>)
    ensures
        r == spec_parse_hex_u8(ins@),
{
    let end = ins.unicode_len();
    proof {
        assert(ins@.subrange(0, ins@.len() as int) =~= ins@);
    }
    match hex_val_range(ins, 0, end, 0xff) {
        Some(v) => Some(v as u8),
        None => None,
    }
}

/// An atom over the character range `[start, end)` of `s`.
fn parse_atom_range(s: &str, start: usize, end: usize) -> (r: Option<(u8, usize)>)
    requires
        start <= end <= s@.len(),
    ensures
        r == spec_parse_atom(s@.subrange(start as int, end as int)),
{
    let ghost t = s@.subrange(start as int, end as int);
    let istar = scan_for(s, start, end, '*');
    if istar == end {
        // no repetition suffix
        match hex_val_range(s, start, end, 0xff) {
            Some(v) => Some((v as u8, 1)),
            None => None,
        }
    } else {
        let ghost head = t.subrange(0, istar - start);
        let ghost tail = t.subrange(istar - start + 1, t.len() as int);
        proof {
            assert(head =~= s@.subrange(start as int, istar as int));
            assert(tail =~= s@.subrange(istar + 1 as int, end as int));
        }
        let second = scan_for(s, istar + 1, end, '*');
        if second != end {
            proof {
                assert(find_first(tail, '*') != tail.len());
            }
            return None;
        }
        let v = match hex_val_range(s, start, istar, 0xff) {
            Some(v) => v,
            None => {
                return None;
            },
        };
        let n = match dec_val_range(s, istar + 1, end) {
            Some(n) => n,
            None => {
                return None;
            },
        };
        Some((v as u8, n))
    }
}

/// An atom of the byte syntax: a hex byte with an optional `*N` count.
pub fn parse_hex_u8_multiple(ins: &str) -> (r: Option<(u8, usize)>)
    ensures
        r == spec_parse_atom(ins@),
{
    let end = ins.unicode_len();
    proof {
        assert(ins@.subrange(0, ins@.len() as int) =~= ins@);
    }
    parse_atom_range(ins, 0, end)
}

/// Append `n` copies of `v`.
fn push_repeat(dst: &mut Vec<u8>, v: u8, n: usize)
    ensures
        final(dst)@ == old(dst)@ + repeat_byte(v, n as nat),
{
    let mut k: usize = 0;
    while k < n
        invariant
            k <= n,
            dst@ == old(dst)@ + repeat_byte(v, k as nat),
        decreases n - k,
    {
        dst.push(v);
        k += 1;
        assert(dst@ =~= old(dst)@ + repeat_byte(v, k as nat));
    }
}

/// The bytes a whole command stands for: space-separated atoms.
pub fn parse_uds_command(ins: &str) -> (r: Option<Vec<u8>>)
    ensures
        match r {
            Some(v) => spec_parse_uds_command(ins@) == Some(v@),
            None => spec_parse_uds_command(ins@) is None,
        },
{
    let end = ins.unicode_len();
    let mut out: Vec<u8> = Vec::new();
    let mut pos: usize = 0;
    loop
        invariant
            pos <= end == ins@.len(),
            spec_parse_uds_command(ins@) == (match spec_parse_cmd_from(ins@, pos as nat) {
                Some(rest) => Some(out@ + rest),
                None => None::<Seq<u8>>,
            }),
        decreases end - pos,
    {
        let isp = scan_for(ins, pos, end, ' ');
        proof {
            assert(ins@.subrange(pos as int, end as int).len() == end - pos);
            lemma_find_first(ins@.subrange(pos as int, end as int), ' ');
            assert(find_from(ins@, pos as nat) == isp);
        }
        let atom = parse_atom_range(ins, pos, isp);
        match atom {
            None => {
                return None;
            },
            Some((v, n)) => {
                let ghost prev = out@;
                push_repeat(&mut out, v, n);
                if isp == end {
                    return Some(out);
                } else {
                    proof {
                        assert forall|rest: Seq<u8>|
                            prev + (repeat_byte(v, n as nat) + rest) =~= (prev + repeat_byte(
                                v,
                                n as nat,
                            )) + rest by {}
                    }
                    pos = isp + 1;
                }
            },
        }
    }
}

/// Every command of a list, or `None` when any fails.
pub fn parse_uds_commands(ins: Vec<&str>) -> (r: Option<Vec<Vec<u8>>>)
    ensures
        match r {
            Some(vs) => vs@.len() == ins@.len() && forall|i: int|
                0 <= i < ins@.len() ==> spec_parse_uds_command(ins@[i]@) == Some(vs@[i]@),
            None => exists|i: int|
                0 <= i < ins@.len() && spec_parse_uds_command(ins@[i]@) is None,
        },
{
    let mut out: Vec<Vec<u8>> = Vec::new();
    let mut i: usize = 0;
    while i < ins.len()
        invariant
            i <= ins@.len(),
            out@.len() == i,
            forall|j: int| 0 <= j < i ==> spec_parse_uds_command(ins@[j]@) == Some(out@[j]@),
        decreases ins@.len() - i,
    {
        match parse_uds_command(ins[i]) {
            Some(v) => {
                out.push(v);
            },
            None => {
                return None;
            },
        }
        i += 1;
    }
    Some(out)
}

/// A sixteen-bit address written decimal, hex, or hex after a two-character
/// prefix (so `0xe080` reads as `e080`); `None` when none of the three
/// readings fits.
pub open spec fn spec_parse_u16(s: Seq<char>) -> Option<u16> {
    if s.len() >= 1 && all_dec(s) && dec_num(s) <= 0xffff {
        Some(dec_num(s) as u16)
    } else if s.len() >= 1 && all_hex(s) && hex_num(s) <= 0xffff {
        Some(hex_num(s) as u16)
    } else if s.len() > 2 && all_hex(s.subrange(2, s.len() as int)) && hex_num(
        s.subrange(2, s.len() as int),
    ) <= 0xffff {
        Some(hex_num(s.subrange(2, s.len() as int)) as u16)
    } else {
        None
    }
}

/// A sixteen-bit logical address, decimal or hex with an optional `0x`.
pub fn parse_u16(ins: &str) -> (r: Option<u16>)
    ensures
        r == spec_parse_u16(ins@),
{
    let end = ins.unicode_len();
    proof {
        assert(ins@.subrange(0, ins@.len() as int) =~= ins@);
    }
    if end >= 1 {
        if let Some(v) = dec_val_range(ins, 0, end) {
            if v <= 0xffff {
                return Some(v as u16);
            }
        }
        proof {
            if all_dec(ins@) && dec_num(ins@) <= 0xffff {
                assert(dec_num(ins@) <= usize::MAX);
                assert(false);
            }
        }
        if let Some(v) = hex_val_range(ins, 0, end, 0xffff) {
            return Some(v as u16);
        }
    }
    if end > 2 {
        if let Some(v) = hex_val_range(ins, 2, end, 0xffff) {
            return Some(v as u16);
        }
    }
    None
}

/// The character writing one hex digit, lower case.
pub open spec fn hex_char(d: u8) -> char {
    match d {
        0u8 => '0',
        1u8 => '1',
        2u8 => '2',
        3u8 => '3',
        4u8 => '4',
        5u8 => '5',
        6u8 => '6',
        7u8 => '7',
        8u8 => '8',
        9u8 => '9',
        10u8 => 'a',
        11u8 => 'b',
        12u8 => 'c',
        13u8 => 'd',
        14u8 => 'e',
        15u8 => 'f',
        _ => '0',
    }
}

/// A byte written as exactly two lower-case hex digits.
pub open spec fn hex2(v: u8) -> Seq<char> {
    seq![hex_char(v / 16), hex_char(v % 16)]
}

/// Bytes written in the inline byte syntax: two hex digits each, single
/// spaces between, nothing around.
pub open spec fn spec_format_cmd(b: Seq<u8>) -> Seq<char>
    decreases b.len(),
{
    if b.len() == 0 {
        seq![]
    } else if b.len() == 1 {
        hex2(b[0])
    } else {
        hex2(b[0]) + seq![' '] + spec_format_cmd(b.drop_first())
    }
}

/// One hex digit as a string slice.
fn hex_digit_str(d: u8) -> (r: &'static str)
    requires
        d < 16,
    ensures
        r@ == seq![hex_char(d)],
{
    let r: &'static str = match d {
        0u8 => "0",
        1u8 => "1",
        2u8 => "2",
        3u8 => "3",
        4u8 => "4",
        5u8 => "5",
        6u8 => "6",
        7u8 => "7",
        8u8 => "8",
        9u8 => "9",
        10u8 => "a",
        11u8 => "b",
        12u8 => "c",
        13u8 => "d",
        14u8 => "e",
        _ => "f",
    };
    proof {
        reveal_strlit("0");
        reveal_strlit("1");
        reveal_strlit("2");
        reveal_strlit("3");
        reveal_strlit("4");
        reveal_strlit("5");
        reveal_strlit("6");
        reveal_strlit("7");
        reveal_strlit("8");
        reveal_strlit("9");
        reveal_strlit("a");
        reveal_strlit("b");
        reveal_strlit("c");
        reveal_strlit("d");
        reveal_strlit("e");
        reveal_strlit("f");
        assert(r@ =~= seq![hex_char(d)]);
    }
    r
}

/// Bytes rendered in the inline byte syntax, the inverse of
/// [`parse_uds_command`] for any non-empty byte string; an empty one
/// renders as the empty string, which the parser refuses.
pub fn format_uds_command(bytes: &Vec<u8>) -> (r: String)
    ensures
        r@ == spec_format_cmd(bytes@),
{
    let mut r = String::new();
    proof {
        assert(bytes@.subrange(0, bytes@.len() as int) =~= bytes@);
        assert(r@ + spec_format_cmd(bytes@) =~= spec_format_cmd(bytes@));
    }
    let mut i: usize = 0;
    while i < bytes.len()
        invariant
            i <= bytes@.len(),
            spec_format_cmd(bytes@) == r@ + spec_format_cmd(bytes@.subrange(
                i as int,
                bytes@.len() as int,
            )),
        decreases bytes@.len() - i,
    {
        let ghost before = r@;
        let ghost rest = bytes@.subrange(i as int, bytes@.len() as int);
        let b = bytes[i];
        r.append(hex_digit_str(b / 16));
        r.append(hex_digit_str(b % 16));
        if i + 1 < bytes.len() {
            let sp: &'static str = " ";
            proof {
                reveal_strlit(" ");
                assert(sp@ =~= seq![' ']);
            }
            r.append(sp);
            proof {
                assert(rest[0] == bytes@[i as int]);
                assert(rest.drop_first() =~= bytes@.subrange(i + 1, bytes@.len() as int));
                assert(r@ =~= before + hex2(bytes@[i as int]) + seq![' ']);
                assert(spec_format_cmd(rest) == hex2(rest[0]) + seq![' '] + spec_format_cmd(
                    rest.drop_first(),
                ));
            }
        } else {
            proof {
                assert(rest.len() == 1);
                assert(rest[0] == bytes@[i as int]);
                assert(rest.drop_first() =~= bytes@.subrange(i + 1, bytes@.len() as int));
                assert(r@ =~= before + hex2(bytes@[i as int]));
            }
        }
        i += 1;
    }
    proof {
        assert(bytes@.subrange(i as int, bytes@.len() as int).len() == 0);
        assert(r@ =~= spec_format_cmd(bytes@));
    }
    r
}

/// A count written in decimal, most significant digit first.
pub open spec fn dec_chars(n: nat) -> Seq<char>
    decreases n,
{
    if n < 10 {
        seq![hex_char(n as u8)]
    } else {
        dec_chars(n / 10) + seq![hex_char((n % 10) as u8)]
    }
}

proof fn lemma_hex_char_digit(d: u8)
    requires
        d < 16,
    ensures
        hex_digit_val(hex_char(d)) == Some(d),
        hex_char(d) != ' ',
        hex_char(d) != '*',
        d < 10 ==> dec_digit_val(hex_char(d)) == Some(d),
{
}

/// The two characters of `hex2` are hex digits and neither a space nor a
/// star, and they read back as the byte.
proof fn lemma_hex2_parses(v: u8)
    ensures
        spec_parse_hex_u8(hex2(v)) == Some(v),
        forall|i: int| 0 <= i < 2 ==> hex2(v)[i] != ' ' && hex2(v)[i] != '*',
{
    let t = hex2(v);
    lemma_hex_char_digit(v / 16);
    lemma_hex_char_digit(v % 16);
    assert(hex_num(Seq::<char>::empty()) == 0);
    assert(t.drop_last() =~= seq![hex_char(v / 16)]);
    assert(t.drop_last().drop_last() =~= Seq::<char>::empty());
    assert(hex_num(t.drop_last()) == v / 16);
    assert(hex_num(t) == (v / 16) * 16 + (v % 16));
    assert((v / 16) * 16 + (v % 16) == v) by (nonlinear_arith);
}

/// A decimal rendering is all decimal digits, none a space or a star, and
/// reads back as the number.
proof fn lemma_dec_chars_parses(n: nat)
    ensures
        dec_chars(n).len() >= 1,
        all_dec(dec_chars(n)),
        dec_num(dec_chars(n)) == n,
        forall|i: int|
            0 <= i < dec_chars(n).len() ==> dec_chars(n)[i] != ' ' && dec_chars(n)[i] != '*',
    decreases n,
{
    if n < 10 {
        lemma_hex_char_digit(n as u8);
        assert(dec_num(Seq::<char>::empty()) == 0);
        assert(dec_chars(n).drop_last() =~= Seq::<char>::empty());
        assert(dec_num(dec_chars(n)) == n);
    } else {
        lemma_dec_chars_parses(n / 10);
        lemma_hex_char_digit((n % 10) as u8);
        let t = dec_chars(n);
        assert(t.drop_last() =~= dec_chars(n / 10));
        assert(dec_num(t) == (n / 10) * 10 + n % 10);
        assert((n / 10) * 10 + n % 10 == n) by (nonlinear_arith);
        assert forall|i: int| 0 <= i < t.len() implies dec_digit_val(t[i]) is Some by {
            if i < dec_chars(n / 10).len() {
                assert(t[i] == dec_chars(n / 10)[i]);
            }
        }
    }
}

/// Parsing from `pos` is parsing the suffix from its start.
proof fn lemma_parse_shift(s: Seq<char>, pos: nat)
    requires
        pos <= s.len(),
    ensures
        spec_parse_cmd_from(s, pos) == spec_parse_cmd_from(
            s.subrange(pos as int, s.len() as int),
            0,
        ),
    decreases s.len() - pos,
{
    let sub = s.subrange(pos as int, s.len() as int);
    assert(sub.subrange(0, sub.len() as int) =~= sub);
    let i = find_from(s, pos);
    let i2 = find_from(sub, 0);
    assert(i == pos + i2);
    if i < s.len() {
        assert(s.subrange(pos as int, i as int) =~= sub.subrange(0, i2 as int));
        lemma_find_first(sub, ' ');
        lemma_parse_shift(s, (i + 1) as nat);
        lemma_parse_shift(sub, (i2 + 1) as nat);
        assert(s.subrange(i + 1 as int, s.len() as int) =~= sub.subrange(
            i2 + 1 as int,
            sub.len() as int,
        ));
    } else {
        assert(s.subrange(pos as int, s.len() as int) =~= sub);
    }
}

/// Parsing a space-free token, a space, and a remainder parses the token as
/// the first atom and the remainder as the rest of the command.
proof fn lemma_parse_cmd_concat(t: Seq<char>, rest: Seq<char>)
    requires
        forall|i: int| 0 <= i < t.len() ==> t[i] != ' ',
    ensures
        spec_parse_cmd_from(t + seq![' '] + rest, 0) == (match (spec_parse_atom(t),
        spec_parse_cmd_from(rest, 0)) {
            (Some((v, n)), Some(r)) => Some(repeat_byte(v, n as nat) + r),
            _ => None::<Seq<u8>>,
        }),
{
    let s = t + seq![' '] + rest;
    assert(s.subrange(0, s.len() as int) =~= s);
    lemma_find_first_unique(s, ' ', t.len() as int);
    let i = find_from(s, 0);
    assert(i == t.len());
    assert(i < s.len());
    assert(s.subrange(0, i as int) =~= t);
    lemma_parse_shift(s, (i + 1) as nat);
    assert(s.subrange(i + 1 as int, s.len() as int) =~= rest);
}

/// A token with no space parses as one atom.
proof fn lemma_parse_cmd_single(t: Seq<char>)
    requires
        forall|i: int| 0 <= i < t.len() ==> t[i] != ' ',
    ensures
        spec_parse_cmd_from(t, 0) == (match spec_parse_atom(t) {
            Some((v, n)) => Some(repeat_byte(v, n as nat)),
            None => None::<Seq<u8>>,
        }),
{
    assert(t.subrange(0, t.len() as int) =~= t);
    lemma_find_first_unique(t, ' ', t.len() as int);
    assert(find_from(t, 0) == t.len());
}

/// A two-digit hex token with no star parses as that byte once.
proof fn lemma_parse_atom_hex2(v: u8)
    ensures
        spec_parse_atom(hex2(v)) == Some((v, 1usize)),
{
    lemma_hex2_parses(v);
    lemma_find_first_unique(hex2(v), '*', 2);
}

/// Rendering bytes in the inline byte syntax and parsing them back gives
/// the same bytes, for every non-empty byte string.  (The empty byte string
/// renders as the empty string, which the parser refuses; the scenario
/// loader maps an unparseable command to no bytes.)
#[verifier::rlimit(50)]
pub proof fn lemma_format_parse_round_trip(b: Seq<u8>)
    requires
        b.len() >= 1,
    ensures
        spec_parse_uds_command(spec_format_cmd(b)) == Some(b),
    decreases b.len(),
{
    lemma_hex2_parses(b[0]);
    lemma_parse_atom_hex2(b[0]);
    if b.len() == 1 {
        lemma_parse_cmd_single(hex2(b[0]));
        assert(repeat_byte(b[0], 1) =~= b);
    } else {
        lemma_format_parse_round_trip(b.drop_first());
        let rest = spec_format_cmd(b.drop_first());
        lemma_parse_cmd_concat(hex2(b[0]), rest);
        assert(spec_format_cmd(b) == hex2(b[0]) + seq![' '] + rest);
        assert(repeat_byte(b[0], 1) + b.drop_first() =~= b);
    }
}

/// The inline byte syntax: `B1 B2*N` parses as `B1` followed by `N` copies
/// of `B2`, for every pair of bytes and every count.
pub proof fn lemma_inline_byte_syntax(b1: u8, b2: u8, n: usize)
    ensures
        spec_parse_uds_command(hex2(b1) + seq![' '] + hex2(b2) + seq!['*'] + dec_chars(n as nat))
            == Some(seq![b1] + repeat_byte(b2, n as nat)),
{
    let tok = hex2(b2) + seq!['*'] + dec_chars(n as nat);
    let s = hex2(b1) + seq![' '] + tok;
    lemma_hex2_parses(b1);
    lemma_hex2_parses(b2);
    lemma_dec_chars_parses(n as nat);
    lemma_parse_atom_hex2(b1);
    assert(hex2(b1) + seq![' '] + hex2(b2) + seq!['*'] + dec_chars(n as nat) =~= s);
    assert(tok[2] == '*');
    assert forall|i: int| 0 <= i < tok.len() implies tok[i] != ' ' by {
        if i < 2 {
            assert(tok[i] == hex2(b2)[i]);
        } else if i > 2 {
            assert(tok[i] == dec_chars(n as nat)[i - 3]);
        }
    }
    assert forall|i: int| 0 <= i < 2 implies tok[i] != '*' by {
        assert(tok[i] == hex2(b2)[i]);
    }
    lemma_parse_cmd_concat(hex2(b1), tok);
    lemma_parse_cmd_single(tok);
    // the token splits at its single star
    lemma_find_first_unique(tok, '*', 2);
    let head = tok.subrange(0, 2);
    let tail = tok.subrange(3, tok.len() as int);
    assert(head =~= hex2(b2));
    assert(tail =~= dec_chars(n as nat));
    assert forall|i: int| 0 <= i < tail.len() implies tail[i] != '*' by {
        assert(tail[i] == dec_chars(n as nat)[i]);
    }
    lemma_find_first_unique(tail, '*', tail.len() as int);
    assert(spec_parse_atom(tok) == Some((b2, n)));
    assert(repeat_byte(b1, 1) + repeat_byte(b2, n as nat) =~= seq![b1] + repeat_byte(b2, n as nat));
}

} // verus!
