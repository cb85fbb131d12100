//! Parsing of CSS hex colors typed into the color pickers.

use vstd::prelude::*;

verus! {

/// The value of a hex digit, if byte `c` is one.
pub open spec fn hex_digit_value(c: u8) -> Option<u8> {
    if 48 <= c && c <= 57 {
        Some((c - 48) as u8)
    } else if 97 <= c && c <= 102 {
        Some((c - 87) as u8)
    } else if 65 <= c && c <= 70 {
        Some((c - 55) as u8)
    } else {
        None
    }
}

/// What `u8::from_str_radix(s, 16)` gives for a two-byte `s`: an optional
/// `+` then hex digits.
pub open spec fn parse_hex_byte(a: u8, b: u8) -> Option<u8> {
    if a == 43 {
        hex_digit_value(b)
    } else {
        match (hex_digit_value(a), hex_digit_value(b)) {
            (Some(x), Some(y)) => Some((x * 16 + y) as u8),
            _ => None,
        }
    }
}

/// The UTF-8 bytes of the text after its leading `#` characters.
pub open spec fn trim_hashes(s: Seq<u8>) -> Seq<u8>
    decreases s.len(),
{
    if s.len() > 0 && s[0] == 35 {
        trim_hashes(s.drop_first())
    } else {
        s
    }
}

/// The RGBA bytes of `#RRGGBB` or `#RRGGBBAA` (leading `#`s optional);
/// without an alpha pair the colour is opaque. Fewer than six bytes, or any
/// channel pair that is not a hex byte, give opaque black. (A pair that
/// would cut through a multi-byte character holds a byte that is no hex
/// digit, so it is such a failure too.)
pub open spec fn hex_rgba_of(s: Seq<u8>) -> [u8; 4] {
    let h = trim_hashes(s);
    if h.len() < 6 {
        [0u8, 0u8, 0u8, 255u8]
    } else {
        match (
            parse_hex_byte(h[0], h[1]),
            parse_hex_byte(h[2], h[3]),
            parse_hex_byte(h[4], h[5]),
            if h.len() >= 8 {
                parse_hex_byte(h[6], h[7])
            } else {
                Some(255u8)
            },
        ) {
            (Some(r), Some(g), Some(b), Some(a)) => [r, g, b, a],
            _ => [0u8, 0u8, 0u8, 255u8],
        }
    }
}

/// The value of a hex digit byte.
fn hex_digit(c: u8) -> (r: Option<u8>)
    ensures
        r == hex_digit_value(c),
{
    if 48 <= c && c <= 57 {
        Some(c - 48)
    } else if 97 <= c && c <= 102 {
        Some(c - 87)
    } else if 65 <= c && c <= 70 {
        Some(c - 55)
    } else {
        None
    }
}

/// Parse two bytes as a hex byte.
fn hex_byte(a: u8, b: u8) -> (r: Option<u8>)
    ensures
        r == parse_hex_byte(a, b),
{
    if a == 43 {
        hex_digit(b)
    } else {
        match (hex_digit(a), hex_digit(b)) {
            (Some(x), Some(y)) => Some(x * 16 + y),
            _ => None,
        }
    }
}

/// Convert the UTF-8 bytes of a hex color string to its RGBA bytes.
pub fn hex_to_rgba_bytes(hex: &[u8]) -> (r: [u8; 4])
    ensures
        r == hex_rgba_of(hex@),
{
    let mut start: usize = 0;
    assert(hex@.skip(0) =~= hex@);
    while start < hex.len() && hex[start] == 35
        invariant
            start <= hex@.len(),
            trim_hashes(hex@.skip(start as int)) == trim_hashes(hex@),
        decreases hex@.len() - start,
    {
        assert(hex@.skip(start as int).drop_first() =~= hex@.skip(start as int + 1));
        start = start + 1;
    }
    let ghost h = hex@.skip(start as int);
    assert(trim_hashes(h) == h);
    let n = hex.len() - start;
    if n < 6 {
        return [0, 0, 0, 255];
    }
    proof {
        assert(h[0] == hex@[start as int]);
        assert(h[1] == hex@[start + 1]);
        assert(h[2] == hex@[start + 2]);
        assert(h[3] == hex@[start + 3]);
        assert(h[4] == hex@[start + 4]);
        assert(h[5] == hex@[start + 5]);
        if n >= 8 {
            assert(h[6] == hex@[start + 6]);
            assert(h[7] == hex@[start + 7]);
        }
    }
    let r = hex_byte(hex[start], hex[start + 1]);
    let g = hex_byte(hex[start + 2], hex[start + 3]);
    let b = hex_byte(hex[start + 4], hex[start + 5]);
    let a = if n >= 8 {
        hex_byte(hex[start + 6], hex[start + 7])
    } else {
        Some(255)
    };
    match (r, g, b, a) {
        (Some(r), Some(g), Some(b), Some(a)) => [r, g, b, a],
        _ => [0, 0, 0, 255],
    }
}

/// The lowercase hex digit byte of `d` (below 16).
pub open spec fn hex_digit_byte(d: u8) -> u8 {
    if d < 10 {
        (48 + d) as u8
    } else {
        (87 + d) as u8
    }
}

/// The two lowercase hex digits of `v`, as `format!("{:02x}", v)` writes them.
pub open spec fn hex_pair(v: u8) -> Seq<u8> {
    seq![hex_digit_byte(v / 16), hex_digit_byte(v % 16)]
}

/// `#rrggbbaa` for the channels `c`.
pub open spec fn hex_rgba_text(c: [u8; 4]) -> Seq<u8> {
    seq![35u8] + hex_pair(c[0]) + hex_pair(c[1]) + hex_pair(c[2]) + hex_pair(c[3])
}

/// A pair of hex digits reads back as the byte they were written from.
proof fn lemma_hex_pair(v: u8)
    ensures
        parse_hex_byte(hex_pair(v)[0], hex_pair(v)[1]) == Some(v),
        hex_pair(v)[0] != 35u8,
{
    let hi = v / 16;
    let lo = v % 16;
    assert(hi < 16 && lo < 16);
    assert(hex_digit_value(hex_digit_byte(hi)) == Some(hi));
    assert(hex_digit_value(hex_digit_byte(lo)) == Some(lo));
    assert(hi * 16 + lo == v);
}

/// A colour written as `#rrggbbaa` reads back as the same four channels.
pub proof fn law_hex_roundtrip(c: [u8; 4])
    ensures
        hex_rgba_of(hex_rgba_text(c)) == c,
{
    let h = hex_pair(c[0]) + hex_pair(c[1]) + hex_pair(c[2]) + hex_pair(c[3]);
    let s = hex_rgba_text(c);
    assert(s =~= seq![35u8] + h);
    assert(s.drop_first() =~= h);
    lemma_hex_pair(c[0]);
    lemma_hex_pair(c[1]);
    lemma_hex_pair(c[2]);
    lemma_hex_pair(c[3]);
    assert(h[0] == hex_pair(c[0])[0]);
    assert(trim_hashes(h) == h);
    assert(trim_hashes(s) == h);
    assert(h.len() == 8);
    assert(h[1] == hex_pair(c[0])[1]);
    assert(h[2] == hex_pair(c[1])[0] && h[3] == hex_pair(c[1])[1]);
    assert(h[4] == hex_pair(c[2])[0] && h[5] == hex_pair(c[2])[1]);
    assert(h[6] == hex_pair(c[3])[0] && h[7] == hex_pair(c[3])[1]);
    assert(hex_rgba_of(s) =~= c);
}

} // verus!
