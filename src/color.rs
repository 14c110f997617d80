//! Hex colour strings: `#RRGGBB`, or the same six digits without the `#`.
use vstd::prelude::*;

verus! {

/// An 8-bit-per-channel RGB colour.
#[derive(Clone, Copy, Debug, PartialEq, Eq, Structural)]
pub struct Rgb {
    pub r: u8,
    pub g: u8,
    pub b: u8,
}

pub open spec fn is_hex_digit(c: char) -> bool {
    ('0' <= c && c <= '9') || ('a' <= c && c <= 'f') || ('A' <= c && c <= 'F')
}

pub open spec fn hex_value(c: char) -> nat {
    if '0' <= c && c <= '9' {
        (c as nat - '0' as nat) as nat
    } else if 'a' <= c && c <= 'f' {
        (c as nat - 'a' as nat + 10) as nat
    } else {
        (c as nat - 'A' as nat + 10) as nat
    }
}

/// The digits of a colour string: without its leading `#`, if it has one.
pub open spec fn hex_body(s: Seq<char>) -> Seq<char> {
    if s.len() > 0 && s[0] == '#' {
        s.drop_first()
    } else {
        s
    }
}

pub open spec fn is_hex_color(s: Seq<char>) -> bool {
    let body = hex_body(s);
    body.len() == 6 && forall|i: int| 0 <= i < 6 ==> is_hex_digit(#[trigger] body[i])
}

/// The value of the `i`-th pair of hex digits.
pub open spec fn hex_pair(body: Seq<char>, i: int) -> u8 {
    (hex_value(body[2 * i]) * 16 + hex_value(body[2 * i + 1])) as u8
}

pub open spec fn color_of(s: Seq<char>) -> Rgb {
    let body = hex_body(s);
    Rgb { r: hex_pair(body, 0), g: hex_pair(body, 1), b: hex_pair(body, 2) }
}

fn hex_digit(c: char) -> (r: Option<u8>)
    ensures
        r is Some <==> is_hex_digit(c),
        r is Some ==> r->0 == hex_value(c) && r->0 < 16,
{
    if '0' <= c && c <= '9' {
        Some(((c as u32) - ('0' as u32)) as u8)
    } else if 'a' <= c && c <= 'f' {
        Some(((c as u32) - ('a' as u32) + 10) as u8)
    } else if 'A' <= c && c <= 'F' {
        Some(((c as u32) - ('A' as u32) + 10) as u8)
    } else {
        None
    }
}

fn hex_pair_at(hex: &str, at: usize, n: usize) -> (r: Option<u8>)
    requires
        n == hex@.len(),
        at + 1 < n,
    ensures
        r is Some <==> is_hex_digit(hex@[at as int]) && is_hex_digit(hex@[at + 1]),
        r is Some ==> r->0 == (hex_value(hex@[at as int]) * 16 + hex_value(hex@[at + 1])) as u8,
{
    let hi = hex_digit(hex.get_char(at));
    let lo = hex_digit(hex.get_char(at + 1));
    match (hi, lo) {
        (Some(h), Some(l)) => Some(h * 16 + l),
        _ => None,
    }
}

/// The colour a hex string names, or `None` when it is not six hex digits
/// with an optional leading `#`.
pub fn parse_hex_color(hex: &str) -> (r: Option<Rgb>)
    ensures
        r is Some <==> is_hex_color(hex@),
        r is Some ==> r->0 == color_of(hex@),
{
    let n = hex.unicode_len();
    let start: usize = if n > 0 && hex.get_char(0) == '#' {
        1
    } else {
        0
    };
    let ghost body = hex_body(hex@);
    assert(body =~= hex@.subrange(start as int, n as int));
    if n - start != 6 {
        return None;
    }
    let r = hex_pair_at(hex, start, n);
    let g = hex_pair_at(hex, start + 2, n);
    let b = hex_pair_at(hex, start + 4, n);
    assert(forall|i: int| 0 <= i < 6 ==> body[i] == hex@[start + i]);
    match (r, g, b) {
        (Some(r), Some(g), Some(b)) => {
            assert(forall|i: int| 0 <= i < 6 ==> is_hex_digit(#[trigger] body[i])) by {
                assert(body[0] == hex@[start as int]);
                assert(body[1] == hex@[start + 1]);
                assert(body[2] == hex@[start + 2]);
                assert(body[3] == hex@[start + 3]);
                assert(body[4] == hex@[start + 4]);
                assert(body[5] == hex@[start + 5]);
            }
            Some(Rgb { r, g, b })
        },
        _ => {
            assert(!is_hex_digit(body[0]) || !is_hex_digit(body[1]) || !is_hex_digit(body[2])
                || !is_hex_digit(body[3]) || !is_hex_digit(body[4]) || !is_hex_digit(body[5]));
            None
        },
    }
}

} // verus!
