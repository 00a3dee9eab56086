//! Primitives for the JSON the response registry consumes.
//!
//! The decoding rules are written down once, as spec-level parsing
//! functions over byte sequences and a position; each executable parser is
//! proved to return exactly what the corresponding spec function denotes,
//! so a payload is accepted or rejected exactly as the rules say, never
//! coerced. The rules follow JSON itself: insignificant whitespace between
//! tokens, the standard string escapes (including `\uXXXX` with surrogate
//! pairs, decoded to UTF-8 bytes), decimal numbers without leading zeros,
//! and a skipper for arbitrary values so that unknown object members can
//! be ignored.

use vstd::prelude::*;

verus! {

/// ASCII double quote.
pub const QUOTE: u8 = 34;

/// ASCII backslash.
pub const BACKSLASH: u8 = 92;

/// Whether a byte is an ASCII decimal digit.
pub open spec fn is_digit(b: u8) -> bool {
    48 <= b <= 57
}

/// Whether a byte is insignificant JSON whitespace.
pub open spec fn is_ws(b: u8) -> bool {
    b == 32 || b == 9 || b == 10 || b == 13
}

/// The first position at or after `pos` that holds no whitespace.
pub open spec fn sp_ws(s: Seq<u8>, pos: int) -> int
    decreases s.len() - pos,
{
    if 0 <= pos < s.len() && is_ws(s[pos]) {
        sp_ws(s, pos + 1)
    } else {
        pos
    }
}

/// Match the exact bytes `lit` at `pos`; the result is the position just
/// past the literal, or nothing on any mismatch or overrun.
pub open spec fn sp_lit(s: Seq<u8>, pos: int, lit: Seq<u8>) -> Option<int> {
    if 0 <= pos && pos + lit.len() <= s.len() && s.subrange(pos, pos + lit.len() as int) == lit {
        Some(pos + lit.len() as int)
    } else {
        None
    }
}

/// Consume the maximal run of digits after an accumulator, failing only
/// when the value would no longer fit in a `u64`.
pub open spec fn sp_digits(s: Seq<u8>, pos: int, acc: u64) -> Option<(u64, int)>
    decreases s.len() - pos,
{
    if 0 <= pos < s.len() && is_digit(s[pos]) {
        let d = s[pos] as int - 48;
        if acc as int * 10 + d <= u64::MAX as int {
            sp_digits(s, pos + 1, (acc as int * 10 + d) as u64)
        } else {
            None
        }
    } else {
        Some((acc, pos))
    }
}

/// An unsigned decimal number: at least one digit, no leading zero unless
/// the number is exactly `0`, value within `u64`.
pub open spec fn sp_u64(s: Seq<u8>, pos: int) -> Option<(u64, int)> {
    if 0 <= pos < s.len() && is_digit(s[pos]) {
        if s[pos] == 48 {
            if pos + 1 < s.len() && is_digit(s[pos + 1]) {
                None
            } else {
                Some((0, pos + 1))
            }
        } else {
            sp_digits(s, pos, 0)
        }
    } else {
        None
    }
}

/// What a single-character escape stands for: the two quoting escapes,
/// the solidus, and the control-character escapes.
pub open spec fn sp_escape(e: u8) -> Option<u8> {
    if e == 34 {
        Some(34u8)
    } else if e == 92 {
        Some(92u8)
    } else if e == 47 {
        Some(47u8)
    } else if e == 98 {
        Some(8u8)
    } else if e == 102 {
        Some(12u8)
    } else if e == 110 {
        Some(10u8)
    } else if e == 114 {
        Some(13u8)
    } else if e == 116 {
        Some(9u8)
    } else {
        None
    }
}

/// The value of one hexadecimal digit.
pub open spec fn sp_hex_val(b: u8) -> Option<u32> {
    if 48 <= b <= 57 {
        Some((b - 48) as u32)
    } else if 97 <= b <= 102 {
        Some((b - 87) as u32)
    } else if 65 <= b <= 70 {
        Some((b - 55) as u32)
    } else {
        None
    }
}

/// Four hexadecimal digits at `pos`, as a value below 0x10000.
pub open spec fn sp_hex4(s: Seq<u8>, pos: int) -> Option<u32> {
    if 0 <= pos && pos + 4 <= s.len() {
        match (sp_hex_val(s[pos]), sp_hex_val(s[pos + 1]), sp_hex_val(s[pos + 2]), sp_hex_val(
            s[pos + 3],
        )) {
            (Some(a), Some(b), Some(c), Some(d)) => Some(
                ((a * 4096 + b * 256 + c * 16 + d) as u32),
            ),
            _ => None,
        }
    } else {
        None
    }
}

/// The UTF-8 bytes of one code point.
pub open spec fn utf8_enc(cp: u32) -> Seq<u8>
    recommends
        cp <= 0x10FFFF,
{
    if cp < 0x80 {
        seq![cp as u8]
    } else if cp < 0x800 {
        seq![(0xC0 + cp / 0x40) as u8, (0x80 + cp % 0x40) as u8]
    } else if cp < 0x10000 {
        seq![
            (0xE0 + cp / 0x1000) as u8,
            (0x80 + (cp / 0x40) % 0x40) as u8,
            (0x80 + cp % 0x40) as u8,
        ]
    } else {
        seq![
            (0xF0 + cp / 0x40000) as u8,
            (0x80 + (cp / 0x1000) % 0x40) as u8,
            (0x80 + (cp / 0x40) % 0x40) as u8,
            (0x80 + cp % 0x40) as u8,
        ]
    }
}

/// The body of a string after its opening quote, with the standard JSON
/// escapes: single-character escapes, `\uXXXX`, and surrogate pairs for
/// code points beyond the basic plane. The result is the unescaped
/// content as UTF-8 bytes; a lone surrogate is an error.
pub open spec fn sp_str_body(s: Seq<u8>, pos: int) -> Option<(Seq<u8>, int)>
    decreases s.len() - pos,
{
    if 0 <= pos < s.len() {
        let c = s[pos];
        if c == QUOTE {
            Some((Seq::empty(), pos + 1))
        } else if c == BACKSLASH {
            if pos + 1 < s.len() {
                let e = s[pos + 1];
                if e == 117 {
                    match sp_hex4(s, pos + 2) {
                        Some(hi) => if 0xD800 <= hi < 0xDC00 {
                            if pos + 7 < s.len() && s[pos + 6] == BACKSLASH && s[pos + 7] == 117 {
                                match sp_hex4(s, pos + 8) {
                                    Some(lo) => if 0xDC00 <= lo < 0xE000 {
                                        match sp_str_body(s, pos + 12) {
                                            Some((v, end)) => Some(
                                                (
                                                    utf8_enc(
                                                        (0x10000 + (hi - 0xD800) * 0x400 + (lo
                                                            - 0xDC00)) as u32,
                                                    ) + v,
                                                    end,
                                                ),
                                            ),
                                            None => None,
                                        }
                                    } else {
                                        None
                                    },
                                    None => None,
                                }
                            } else {
                                None
                            }
                        } else if 0xDC00 <= hi < 0xE000 {
                            None
                        } else {
                            match sp_str_body(s, pos + 6) {
                                Some((v, end)) => Some((utf8_enc(hi) + v, end)),
                                None => None,
                            }
                        },
                        None => None,
                    }
                } else {
                    match sp_escape(e) {
                        Some(u) => match sp_str_body(s, pos + 2) {
                            Some((v, end)) => Some((seq![u] + v, end)),
                            None => None,
                        },
                        None => None,
                    }
                }
            } else {
                None
            }
        } else {
            match sp_str_body(s, pos + 1) {
                Some((v, end)) => Some((seq![c] + v, end)),
                None => None,
            }
        }
    } else {
        None
    }
}

/// A quoted string; the result is its unescaped content.
pub open spec fn sp_string(s: Seq<u8>, pos: int) -> Option<(Seq<u8>, int)> {
    if 0 <= pos < s.len() && s[pos] == QUOTE {
        sp_str_body(s, pos + 1)
    } else {
        None
    }
}

/// The bytes of the literal `true`.
pub open spec fn true_bytes() -> Seq<u8> {
    seq![116u8, 114u8, 117u8, 101u8]
}

/// The bytes of the literal `false`.
pub open spec fn false_bytes() -> Seq<u8> {
    seq![102u8, 97u8, 108u8, 115u8, 101u8]
}

/// The bytes of the literal `null`.
pub open spec fn null_bytes() -> Seq<u8> {
    seq![110u8, 117u8, 108u8, 108u8]
}

/// One of the literals `true` or `false`.
pub open spec fn sp_bool(s: Seq<u8>, pos: int) -> Option<(bool, int)> {
    match sp_lit(s, pos, true_bytes()) {
        Some(end) => Some((true, end)),
        None => match sp_lit(s, pos, false_bytes()) {
            Some(end) => Some((false, end)),
            None => None,
        },
    }
}

/// The end of the maximal digit run starting at `pos`.
pub open spec fn sp_more_digits(s: Seq<u8>, pos: int) -> int
    decreases s.len() - pos,
{
    if 0 <= pos < s.len() && is_digit(s[pos]) {
        sp_more_digits(s, pos + 1)
    } else {
        pos
    }
}

/// At least one digit at `pos`, then the maximal run.
pub open spec fn sp_one_or_more_digits(s: Seq<u8>, pos: int) -> Option<int> {
    if 0 <= pos < s.len() && is_digit(s[pos]) {
        Some(sp_more_digits(s, pos + 1))
    } else {
        None
    }
}

/// Lex one JSON number, of any magnitude or precision; only its extent
/// matters, so nothing is computed from its digits.
pub open spec fn sp_skip_number(s: Seq<u8>, pos: int) -> Option<int> {
    let p = if 0 <= pos < s.len() && s[pos] == 45 {
        pos + 1
    } else {
        pos
    };
    if 0 <= p < s.len() && is_digit(s[p]) {
        let p1 = if s[p] == 48 {
            p + 1
        } else {
            sp_more_digits(s, p + 1)
        };
        let p2o = if p1 < s.len() && s[p1] == 46 {
            sp_one_or_more_digits(s, p1 + 1)
        } else {
            Some(p1)
        };
        match p2o {
            None => None,
            Some(p2) => if p2 < s.len() && (s[p2] == 101 || s[p2] == 69) {
                let p3 = if p2 + 1 < s.len() && (s[p2 + 1] == 43 || s[p2 + 1] == 45) {
                    p2 + 2
                } else {
                    p2 + 1
                };
                sp_one_or_more_digits(s, p3)
            } else {
                Some(p2)
            },
        }
    } else {
        None
    }
}

/// Skip one JSON value of any kind; the result is the position just past
/// it. Used for object members the registry does not know.
pub open spec fn sp_skip_value(s: Seq<u8>, pos: int) -> Option<int>
    decreases s.len() - pos, 0int,
{
    if 0 <= pos < s.len() {
        let c = s[pos];
        if c == QUOTE {
            match sp_string(s, pos) {
                Some((_v, end)) => Some(end),
                None => None,
            }
        } else if c == 91 {
            let p1 = sp_ws(s, pos + 1);
            if p1 < s.len() && s[p1] == 93 {
                Some(p1 + 1)
            } else if pos < p1 <= s.len() {
                sp_skip_array_rest(s, p1)
            } else {
                None
            }
        } else if c == 123 {
            let p1 = sp_ws(s, pos + 1);
            if p1 < s.len() && s[p1] == 125 {
                Some(p1 + 1)
            } else if pos < p1 <= s.len() {
                sp_skip_object_rest(s, p1)
            } else {
                None
            }
        } else if c == 116 {
            sp_lit(s, pos, true_bytes())
        } else if c == 102 {
            sp_lit(s, pos, false_bytes())
        } else if c == 110 {
            sp_lit(s, pos, null_bytes())
        } else {
            sp_skip_number(s, pos)
        }
    } else {
        None
    }
}

/// Skip the rest of an array from its first element on, up to and
/// including the closing bracket.
pub open spec fn sp_skip_array_rest(s: Seq<u8>, pos: int) -> Option<int>
    decreases s.len() - pos, 1int,
{
    match sp_skip_value(s, pos) {
        None => None,
        Some(p) => if !(pos < p <= s.len()) {
            None
        } else {
            let p1 = sp_ws(s, p);
            if p1 < s.len() && s[p1] == 44 {
                let p2 = sp_ws(s, p1 + 1);
                if pos < p2 <= s.len() {
                    sp_skip_array_rest(s, p2)
                } else {
                    None
                }
            } else if p1 < s.len() && s[p1] == 93 {
                Some(p1 + 1)
            } else {
                None
            }
        },
    }
}

/// Skip the rest of an object from its first key on, up to and including
/// the closing brace.
pub open spec fn sp_skip_object_rest(s: Seq<u8>, pos: int) -> Option<int>
    decreases s.len() - pos, 1int,
{
    match sp_string(s, pos) {
        None => None,
        Some((_key, p)) => if !(pos < p <= s.len()) {
            None
        } else {
            let p1 = sp_ws(s, p);
            if p1 < s.len() && s[p1] == 58 {
                let p2 = sp_ws(s, p1 + 1);
                if !(pos < p2 <= s.len()) {
                    None
                } else {
                    match sp_skip_value(s, p2) {
                        None => None,
                        Some(q) => if !(pos < q <= s.len()) {
                            None
                        } else {
                            let q1 = sp_ws(s, q);
                            if q1 < s.len() && s[q1] == 44 {
                                let q2 = sp_ws(s, q1 + 1);
                                if pos < q2 <= s.len() {
                                    sp_skip_object_rest(s, q2)
                                } else {
                                    None
                                }
                            } else if q1 < s.len() && s[q1] == 125 {
                                Some(q1 + 1)
                            } else {
                                None
                            }
                        },
                    }
                }
            } else {
                None
            }
        },
    }
}

/// Whether two byte vectors hold the same bytes.
pub fn bytes_eq(a: &Vec<u8>, b: &Vec<u8>) -> (r: bool)
    ensures
        r == (a@ == b@),
{
    if a.len() != b.len() {
        return false;
    }
    let mut i: usize = 0;
    while i < a.len()
        invariant
            a@.len() == b@.len(),
            0 <= i <= a@.len(),
            forall|j: int| 0 <= j < i ==> a@[j] == b@[j],
        decreases a@.len() - i,
    {
        if a[i] != b[i] {
            return false;
        }
        i += 1;
    }
    proof {
        assert(a@ =~= b@);
    }
    true
}

/// Skip whitespace from `pos`.
pub fn skip_ws(s: &Vec<u8>, pos: usize) -> (r: usize)
    requires
        pos <= s@.len(),
    ensures
        r as int == sp_ws(s@, pos as int),
        pos <= r <= s@.len(),
    decreases s@.len() - pos,
{
    if pos < s.len() && (s[pos] == 32 || s[pos] == 9 || s[pos] == 10 || s[pos] == 13) {
        skip_ws(s, pos + 1)
    } else {
        pos
    }
}

/// Match the exact bytes `lit` at `pos` in `s`.
pub fn expect_lit(s: &Vec<u8>, pos: usize, lit: &Vec<u8>) -> (r: Option<usize>)
    ensures
        match r {
            Some(end) => sp_lit(s@, pos as int, lit@) == Some(end as int) && pos <= end <= s@.len(),
            None => sp_lit(s@, pos as int, lit@) is None,
        },
{
    let n = s.len();
    if pos > n || n - pos < lit.len() {
        return None;
    }
    let mut i: usize = 0;
    while i < lit.len()
        invariant
            n == s@.len(),
            pos + lit@.len() <= n,
            0 <= i <= lit@.len(),
            forall|j: int| 0 <= j < i ==> s@[pos + j] == lit@[j],
        decreases lit@.len() - i,
    {
        if s[pos + i] != lit[i] {
            proof {
                let sub = s@.subrange(pos as int, pos + lit@.len() as int);
                assert(sub[i as int] == s@[pos + i]);
            }
            return None;
        }
        i += 1;
    }
    proof {
        assert(s@.subrange(pos as int, pos + lit@.len() as int) =~= lit@);
    }
    Some(pos + lit.len())
}

/// Match the single byte `b` at `pos` in `s`.
pub fn expect_byte(s: &Vec<u8>, pos: usize, b: u8) -> (r: Option<usize>)
    ensures
        match r {
            Some(end) => sp_lit(s@, pos as int, seq![b]) == Some(end as int) && end == pos + 1
                && end <= s@.len(),
            None => sp_lit(s@, pos as int, seq![b]) is None,
        },
{
    if pos < s.len() && s[pos] == b {
        proof {
            assert(s@.subrange(pos as int, pos as int + 1) =~= seq![b]);
        }
        Some(pos + 1)
    } else {
        proof {
            if pos < s@.len() {
                let sub = s@.subrange(pos as int, pos as int + 1);
                assert(sub[0] == s@[pos as int]);
            }
        }
        None
    }
}

fn parse_digits(s: &Vec<u8>, pos: usize, acc: u64) -> (r: Option<(u64, usize)>)
    requires
        pos <= s@.len(),
    ensures
        match r {
            Some((v, end)) => sp_digits(s@, pos as int, acc) == Some((v, end as int))
                && pos <= end <= s@.len(),
            None => sp_digits(s@, pos as int, acc) is None,
        },
    decreases s@.len() - pos,
{
    if pos < s.len() && 48 <= s[pos] && s[pos] <= 57 {
        let d = (s[pos] - 48) as u64;
        match acc.checked_mul(10) {
            Some(m) => match m.checked_add(d) {
                Some(v) => parse_digits(s, pos + 1, v),
                None => None,
            },
            None => None,
        }
    } else {
        Some((acc, pos))
    }
}

/// Parse an unsigned decimal number.
pub fn parse_u64(s: &Vec<u8>, pos: usize) -> (r: Option<(u64, usize)>)
    ensures
        match r {
            Some((v, end)) => sp_u64(s@, pos as int) == Some((v, end as int))
                && pos < end <= s@.len(),
            None => sp_u64(s@, pos as int) is None,
        },
{
    if pos < s.len() && 48 <= s[pos] && s[pos] <= 57 {
        if s[pos] == 48 {
            if pos + 1 < s.len() && 48 <= s[pos + 1] && s[pos + 1] <= 57 {
                None
            } else {
                Some((0, pos + 1))
            }
        } else {
            let d = (s[pos] - 48) as u64;
            parse_digits(s, pos + 1, d)
        }
    } else {
        None
    }
}

fn hex_val(b: u8) -> (r: Option<u32>)
    ensures
        r == sp_hex_val(b),
        r is Some ==> r.unwrap() < 16,
{
    if 48 <= b && b <= 57 {
        Some((b - 48) as u32)
    } else if 97 <= b && b <= 102 {
        Some((b - 87) as u32)
    } else if 65 <= b && b <= 70 {
        Some((b - 55) as u32)
    } else {
        None
    }
}

fn parse_hex4(s: &Vec<u8>, pos: usize) -> (r: Option<u32>)
    ensures
        r == sp_hex4(s@, pos as int),
        r is Some ==> pos + 4 <= s@.len(),
{
    if pos > s.len() || s.len() - pos < 4 {
        return None;
    }
    let a = match hex_val(s[pos]) {
        Some(v) => v,
        None => {
            return None;
        },
    };
    let b = match hex_val(s[pos + 1]) {
        Some(v) => v,
        None => {
            return None;
        },
    };
    let c = match hex_val(s[pos + 2]) {
        Some(v) => v,
        None => {
            return None;
        },
    };
    let d = match hex_val(s[pos + 3]) {
        Some(v) => v,
        None => {
            return None;
        },
    };
    Some(a * 4096 + b * 256 + c * 16 + d)
}

fn push_utf8(v: &mut Vec<u8>, cp: u32)
    requires
        cp <= 0x10FFFF,
    ensures
        final(v)@ == old(v)@ + utf8_enc(cp),
{
    let ghost before = v@;
    if cp < 0x80 {
        v.push(cp as u8);
    } else if cp < 0x800 {
        v.push((0xC0 + cp / 0x40) as u8);
        v.push((0x80 + cp % 0x40) as u8);
    } else if cp < 0x10000 {
        v.push((0xE0 + cp / 0x1000) as u8);
        v.push((0x80 + (cp / 0x40) % 0x40) as u8);
        v.push((0x80 + cp % 0x40) as u8);
    } else {
        v.push((0xF0 + cp / 0x40000) as u8);
        v.push((0x80 + (cp / 0x1000) % 0x40) as u8);
        v.push((0x80 + (cp / 0x40) % 0x40) as u8);
        v.push((0x80 + cp % 0x40) as u8);
    }
    proof {
        assert(v@ =~= before + utf8_enc(cp));
    }
}

fn parse_str_body(s: &Vec<u8>, pos: usize) -> (r: Option<(Vec<u8>, usize)>)
    requires
        pos <= s@.len(),
    ensures
        match r {
            Some((v, end)) => sp_str_body(s@, pos as int) == Some((v@, end as int))
                && pos < end <= s@.len(),
            None => sp_str_body(s@, pos as int) is None,
        },
    decreases s@.len() - pos,
{
    if pos >= s.len() {
        return None;
    }
    let c = s[pos];
    if c == QUOTE {
        Some((Vec::new(), pos + 1))
    } else if c == BACKSLASH {
        if pos + 1 >= s.len() {
            return None;
        }
        let e = s[pos + 1];
        if e == 117 {
            let hi = match parse_hex4(s, pos + 2) {
                Some(h) => h,
                None => {
                    return None;
                },
            };
            if 0xD800 <= hi && hi < 0xDC00 {
                if s.len() - pos > 7 && s[pos + 6] == BACKSLASH && s[pos + 7] == 117 {
                    let lo = match parse_hex4(s, pos + 8) {
                        Some(l) => l,
                        None => {
                            return None;
                        },
                    };
                    if 0xDC00 <= lo && lo < 0xE000 {
                        match parse_str_body(s, pos + 12) {
                            Some((rest, end)) => {
                                let cp = 0x10000 + (hi - 0xD800) * 0x400 + (lo - 0xDC00);
                                let mut v: Vec<u8> = Vec::new();
                                push_utf8(&mut v, cp);
                                let mut rest = rest;
                                let ghost rest_view = rest@;
                                v.append(&mut rest);
                                proof {
                                    assert(v@ =~= utf8_enc(cp) + rest_view);
                                }
                                Some((v, end))
                            },
                            None => None,
                        }
                    } else {
                        None
                    }
                } else {
                    None
                }
            } else if 0xDC00 <= hi && hi < 0xE000 {
                None
            } else {
                match parse_str_body(s, pos + 6) {
                    Some((rest, end)) => {
                        let mut v: Vec<u8> = Vec::new();
                        push_utf8(&mut v, hi);
                        let mut rest = rest;
                        let ghost rest_view = rest@;
                        v.append(&mut rest);
                        proof {
                            assert(v@ =~= utf8_enc(hi) + rest_view);
                        }
                        Some((v, end))
                    },
                    None => None,
                }
            }
        } else {
            let u: u8 = if e == 34 {
                34
            } else if e == 92 {
                92
            } else if e == 47 {
                47
            } else if e == 98 {
                8
            } else if e == 102 {
                12
            } else if e == 110 {
                10
            } else if e == 114 {
                13
            } else if e == 116 {
                9
            } else {
                return None;
            };
            match parse_str_body(s, pos + 2) {
                Some((rest, end)) => {
                    let mut v: Vec<u8> = Vec::new();
                    v.push(u);
                    let mut rest = rest;
                    let ghost rest_view = rest@;
                    v.append(&mut rest);
                    proof {
                        assert(v@ =~= seq![u] + rest_view);
                    }
                    Some((v, end))
                },
                None => None,
            }
        }
    } else {
        match parse_str_body(s, pos + 1) {
            Some((rest, end)) => {
                let mut v: Vec<u8> = Vec::new();
                v.push(c);
                let mut rest = rest;
                let ghost rest_view = rest@;
                v.append(&mut rest);
                proof {
                    assert(v@ =~= seq![c] + rest_view);
                }
                Some((v, end))
            },
            None => None,
        }
    }
}

/// Parse a quoted string; the result is its unescaped content.
pub fn parse_string(s: &Vec<u8>, pos: usize) -> (r: Option<(Vec<u8>, usize)>)
    ensures
        match r {
            Some((v, end)) => sp_string(s@, pos as int) == Some((v@, end as int))
                && pos < end <= s@.len(),
            None => sp_string(s@, pos as int) is None,
        },
{
    if pos < s.len() && s[pos] == QUOTE {
        parse_str_body(s, pos + 1)
    } else {
        None
    }
}

/// Parse one of the literals `true` or `false`.
pub fn parse_bool(s: &Vec<u8>, pos: usize) -> (r: Option<(bool, usize)>)
    ensures
        match r {
            Some((v, end)) => sp_bool(s@, pos as int) == Some((v, end as int))
                && pos < end <= s@.len(),
            None => sp_bool(s@, pos as int) is None,
        },
{
    let t: Vec<u8> = vec![116, 114, 117, 101];
    proof {
        assert(t@ =~= true_bytes());
    }
    match expect_lit(s, pos, &t) {
        Some(end) => Some((true, end)),
        None => {
            let f: Vec<u8> = vec![102, 97, 108, 115, 101];
            proof {
                assert(f@ =~= false_bytes());
            }
            match expect_lit(s, pos, &f) {
                Some(end) => Some((false, end)),
                None => None,
            }
        },
    }
}

fn skip_more_digits(s: &Vec<u8>, pos: usize) -> (r: usize)
    requires
        pos <= s@.len(),
    ensures
        r as int == sp_more_digits(s@, pos as int),
        pos <= r <= s@.len(),
    decreases s@.len() - pos,
{
    if pos < s.len() && 48 <= s[pos] && s[pos] <= 57 {
        skip_more_digits(s, pos + 1)
    } else {
        pos
    }
}

fn skip_one_or_more_digits(s: &Vec<u8>, pos: usize) -> (r: Option<usize>)
    requires
        pos <= s@.len(),
    ensures
        match r {
            Some(end) => sp_one_or_more_digits(s@, pos as int) == Some(end as int)
                && pos < end <= s@.len(),
            None => sp_one_or_more_digits(s@, pos as int) is None,
        },
{
    if pos < s.len() && 48 <= s[pos] && s[pos] <= 57 {
        Some(skip_more_digits(s, pos + 1))
    } else {
        None
    }
}

fn skip_number(s: &Vec<u8>, pos: usize) -> (r: Option<usize>)
    requires
        pos <= s@.len(),
    ensures
        match r {
            Some(end) => sp_skip_number(s@, pos as int) == Some(end as int)
                && pos < end <= s@.len(),
            None => sp_skip_number(s@, pos as int) is None,
        },
{
    let p = if pos < s.len() && s[pos] == 45 {
        pos + 1
    } else {
        pos
    };
    if p < s.len() && 48 <= s[p] && s[p] <= 57 {
        let p1 = if s[p] == 48 {
            p + 1
        } else {
            skip_more_digits(s, p + 1)
        };
        let p2 = if p1 < s.len() && s[p1] == 46 {
            match skip_one_or_more_digits(s, p1 + 1) {
                Some(q) => q,
                None => {
                    return None;
                },
            }
        } else {
            p1
        };
        if p2 < s.len() && (s[p2] == 101 || s[p2] == 69) {
            let p3 = if p2 + 1 < s.len() && (s[p2 + 1] == 43 || s[p2 + 1] == 45) {
                p2 + 2
            } else {
                p2 + 1
            };
            skip_one_or_more_digits(s, p3)
        } else {
            Some(p2)
        }
    } else {
        None
    }
}

/// Skip one JSON value of any kind.
pub fn skip_value(s: &Vec<u8>, pos: usize) -> (r: Option<usize>)
    requires
        pos <= s@.len(),
    ensures
        match r {
            Some(end) => sp_skip_value(s@, pos as int) == Some(end as int)
                && pos < end <= s@.len(),
            None => sp_skip_value(s@, pos as int) is None,
        },
    decreases s@.len() - pos, 0int,
{
    if pos >= s.len() {
        return None;
    }
    let c = s[pos];
    if c == QUOTE {
        match parse_string(s, pos) {
            Some((_v, end)) => Some(end),
            None => None,
        }
    } else if c == 91 {
        let p1 = skip_ws(s, pos + 1);
        if p1 < s.len() && s[p1] == 93 {
            Some(p1 + 1)
        } else {
            skip_array_rest(s, p1)
        }
    } else if c == 123 {
        let p1 = skip_ws(s, pos + 1);
        if p1 < s.len() && s[p1] == 125 {
            Some(p1 + 1)
        } else {
            skip_object_rest(s, p1)
        }
    } else if c == 116 {
        let t: Vec<u8> = vec![116, 114, 117, 101];
        proof {
            assert(t@ =~= true_bytes());
        }
        expect_lit(s, pos, &t)
    } else if c == 102 {
        let f: Vec<u8> = vec![102, 97, 108, 115, 101];
        proof {
            assert(f@ =~= false_bytes());
        }
        expect_lit(s, pos, &f)
    } else if c == 110 {
        let n: Vec<u8> = vec![110, 117, 108, 108];
        proof {
            assert(n@ =~= null_bytes());
        }
        expect_lit(s, pos, &n)
    } else {
        skip_number(s, pos)
    }
}

fn skip_array_rest(s: &Vec<u8>, pos: usize) -> (r: Option<usize>)
    requires
        0 < pos <= s@.len(),
    ensures
        match r {
            Some(end) => sp_skip_array_rest(s@, pos as int) == Some(end as int)
                && pos <= end <= s@.len(),
            None => sp_skip_array_rest(s@, pos as int) is None,
        },
    decreases s@.len() - pos, 1int,
{
    let p = match skip_value(s, pos) {
        Some(p) => p,
        None => {
            return None;
        },
    };
    let p1 = skip_ws(s, p);
    if p1 < s.len() && s[p1] == 44 {
        let p2 = skip_ws(s, p1 + 1);
        skip_array_rest(s, p2)
    } else if p1 < s.len() && s[p1] == 93 {
        Some(p1 + 1)
    } else {
        None
    }
}

fn skip_object_rest(s: &Vec<u8>, pos: usize) -> (r: Option<usize>)
    requires
        0 < pos <= s@.len(),
    ensures
        match r {
            Some(end) => sp_skip_object_rest(s@, pos as int) == Some(end as int)
                && pos <= end <= s@.len(),
            None => sp_skip_object_rest(s@, pos as int) is None,
        },
    decreases s@.len() - pos, 1int,
{
    let p = match parse_string(s, pos) {
        Some((_key, p)) => p,
        None => {
            return None;
        },
    };
    let p1 = skip_ws(s, p);
    if p1 < s.len() && s[p1] == 58 {
        let p2 = skip_ws(s, p1 + 1);
        let q = match skip_value(s, p2) {
            Some(q) => q,
            None => {
                return None;
            },
        };
        let q1 = skip_ws(s, q);
        if q1 < s.len() && s[q1] == 44 {
            let q2 = skip_ws(s, q1 + 1);
            skip_object_rest(s, q2)
        } else if q1 < s.len() && s[q1] == 125 {
            Some(q1 + 1)
        } else {
            None
        }
    } else {
        None
    }
}

} // verus!
