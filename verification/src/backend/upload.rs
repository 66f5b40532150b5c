//! The archive of the JSON service arrives as base64 text; this is where it
//! is turned back into the bytes of the `.tar.gz`.
use vstd::prelude::*;

use base64::Engine;

verus! {

/// The symbol of the standard base64 alphabet for the six bits `v`:
/// `A`-`Z` for 0 to 25, `a`-`z` for 26 to 51, `0`-`9` for 52 to 61, `+` for
/// 62 and `/` for 63.
pub open spec fn base64_symbol(v: int) -> u8 {
    if v < 26 {
        (65 + v) as u8
    } else if v < 52 {
        (97 + (v - 26)) as u8
    } else if v < 62 {
        (48 + (v - 52)) as u8
    } else if v == 62 {
        43u8
    } else {
        47u8
    }
}

/// The padding symbol `=`.
pub open spec fn base64_pad() -> u8 {
    61u8
}

/// Standard base64 with padding: every three bytes become four symbols of
/// six bits each, high bits first; a last one or two bytes become two or
/// three symbols, the unused low bits zero, followed by `==` or `=`.
pub open spec fn standard_base64_encoding(b: Seq<u8>) -> Seq<u8>
    decreases b.len(),
{
    if b.len() == 0 {
        Seq::empty()
    } else if b.len() == 1 {
        seq![
            base64_symbol(b[0] as int / 4),
            base64_symbol((b[0] as int % 4) * 16),
            base64_pad(),
            base64_pad(),
        ]
    } else if b.len() == 2 {
        seq![
            base64_symbol(b[0] as int / 4),
            base64_symbol((b[0] as int % 4) * 16 + b[1] as int / 16),
            base64_symbol((b[1] as int % 16) * 4),
            base64_pad(),
        ]
    } else {
        seq![
            base64_symbol(b[0] as int / 4),
            base64_symbol((b[0] as int % 4) * 16 + b[1] as int / 16),
            base64_symbol((b[1] as int % 16) * 4 + b[2] as int / 64),
            base64_symbol(b[2] as int % 64),
        ] + standard_base64_encoding(b.skip(3))
    }
}

/// What base64's `STANDARD` engine decodes `text` to: the bytes whose
/// standard base64 encoding `text` is, or `None` for any other text. The
/// engine requires the canonical padding and refuses a last symbol with
/// unused bits set, so it accepts exactly these encodings.
pub open spec fn standard_base64_decoding(text: Seq<u8>) -> Option<Seq<u8>> {
    if exists|b: Seq<u8>| standard_base64_encoding(b) == text {
        Some(choose|b: Seq<u8>| standard_base64_encoding(b) == text)
    } else {
        None
    }
}

/// Two six-bit values with the same symbol are equal, and no symbol is the
/// padding.
proof fn lemma_symbol_injective(v: int, w: int)
    requires
        0 <= v < 64,
        0 <= w < 64,
    ensures
        base64_symbol(v) == base64_symbol(w) ==> v == w,
        base64_symbol(v) != base64_pad(),
{
}

/// The bytes of a group are determined by the six-bit values of its symbols.
proof fn lemma_group_values(a0: u8, a1: u8, a2: u8, c0: u8, c1: u8, c2: u8)
    requires
        a0 / 4 == c0 / 4,
        (a0 % 4) * 16 + a1 / 16 == (c0 % 4) * 16 + c1 / 16,
        (a1 % 16) * 4 + a2 / 64 == (c1 % 16) * 4 + c2 / 64,
        a2 % 64 == c2 % 64,
    ensures
        a0 == c0,
        a1 == c1,
        a2 == c2,
{
    assert(a0 == c0 && a1 == c1 && a2 == c2) by (nonlinear_arith)
        requires
            a0 / 4 == c0 / 4,
            (a0 % 4) * 16 + a1 / 16 == (c0 % 4) * 16 + c1 / 16,
            (a1 % 16) * 4 + a2 / 64 == (c1 % 16) * 4 + c2 / 64,
            a2 % 64 == c2 % 64,
    {
        assert(a0 % 4 == c0 % 4 && a1 / 16 == c1 / 16);
        assert(a1 % 16 == c1 % 16 && a2 / 64 == c2 / 64);
    }
}

/// The length of an encoding, and where its padding shows how many bytes
/// the last group holds.
proof fn lemma_encoding_shape(b: Seq<u8>)
    ensures
        (b.len() == 0) == (standard_base64_encoding(b).len() == 0),
        b.len() > 0 ==> standard_base64_encoding(b).len() >= 4,
        b.len() > 0 ==> ((b.len() == 1) == (standard_base64_encoding(b)[2] == base64_pad())),
        b.len() > 0 ==> ((b.len() >= 3) == (standard_base64_encoding(b)[3] != base64_pad())),
    decreases b.len(),
{
    if b.len() > 0 {
        lemma_symbol_injective(b[0] as int / 4, 0);
        lemma_symbol_injective((b[0] as int % 4) * 16, 0);
        if b.len() >= 2 {
            lemma_symbol_injective((b[1] as int % 16) * 4, 0);
            lemma_symbol_injective((b[0] as int % 4) * 16 + b[1] as int / 16, 0);
        }
        if b.len() >= 3 {
            lemma_symbol_injective((b[1] as int % 16) * 4 + b[2] as int / 64, 0);
            lemma_symbol_injective(b[2] as int % 64, 0);
            lemma_encoding_shape(b.skip(3));
        }
    }
}

/// Different bytes have different standard encodings.
proof fn lemma_encoding_injective(b: Seq<u8>, c: Seq<u8>)
    requires
        standard_base64_encoding(b) == standard_base64_encoding(c),
    ensures
        b == c,
    decreases b.len(),
{
    let e = standard_base64_encoding(b);
    lemma_encoding_shape(b);
    lemma_encoding_shape(c);
    if b.len() > 0 {
        let (a0, c0) = (b[0], c[0]);
        lemma_symbol_injective(a0 as int / 4, c0 as int / 4);
        if b.len() == 1 {
            lemma_symbol_injective((a0 as int % 4) * 16, (c0 as int % 4) * 16);
            assert(b =~= c);
        } else if b.len() == 2 {
            lemma_symbol_injective((a0 as int % 4) * 16 + b[1] as int / 16, (c0 as int % 4) * 16 + c[1] as int / 16);
            lemma_symbol_injective((b[1] as int % 16) * 4, (c[1] as int % 16) * 4);
            lemma_group_values(a0, b[1], 0, c0, c[1], 0);
            assert(b =~= c);
        } else {
            let ec = standard_base64_encoding(c);
            assert(c.len() >= 3);
            assert(e[0] == base64_symbol(a0 as int / 4) && ec[0] == base64_symbol(c0 as int / 4));
            assert(e[1] == base64_symbol((a0 as int % 4) * 16 + b[1] as int / 16));
            assert(ec[1] == base64_symbol((c0 as int % 4) * 16 + c[1] as int / 16));
            assert(e[2] == base64_symbol((b[1] as int % 16) * 4 + b[2] as int / 64));
            assert(ec[2] == base64_symbol((c[1] as int % 16) * 4 + c[2] as int / 64));
            assert(e[3] == base64_symbol(b[2] as int % 64) && ec[3] == base64_symbol(c[2] as int % 64));
            lemma_symbol_injective(a0 as int / 4, c0 as int / 4);
            lemma_symbol_injective((a0 as int % 4) * 16 + b[1] as int / 16, (c0 as int % 4) * 16 + c[1] as int / 16);
            lemma_symbol_injective((b[1] as int % 16) * 4 + b[2] as int / 64, (c[1] as int % 16) * 4 + c[2] as int / 64);
            lemma_symbol_injective(b[2] as int % 64, c[2] as int % 64);
            lemma_group_values(a0, b[1], b[2], c0, c[1], c[2]);
            assert(e.skip(4) =~= standard_base64_encoding(b.skip(3)));
            assert(standard_base64_encoding(c).skip(4) =~= standard_base64_encoding(c.skip(3)));
            lemma_encoding_injective(b.skip(3), c.skip(3));
            assert forall|i: int| 3 <= i < b.len() implies b[i] == c[i] by {
                assert(b[i] == b.skip(3)[i - 3] && c[i] == c.skip(3)[i - 3]);
            }
            assert(b =~= c);
        }
    } else {
        assert(c =~= b);
    }
}

/// Decoding gives back what was encoded: the standard base64 text of any
/// bytes decodes to exactly those bytes.
pub proof fn lemma_base64_round_trip(b: Seq<u8>)
    ensures
        standard_base64_decoding(standard_base64_encoding(b)) == Some(b),
{
    let t = standard_base64_encoding(b);
    assert(exists|x: Seq<u8>| standard_base64_encoding(x) == t);
    let x = choose|x: Seq<u8>| standard_base64_encoding(x) == t;
    lemma_encoding_injective(x, b);
}

/// The bytes an optional decoded archive holds.
pub open spec fn bytes_of(archive: Option<Vec<u8>>) -> Option<Seq<u8>> {
    match archive {
        Some(v) => Some(v@),
        None => None,
    }
}

/// Decodes base64 text with `base64::engine::general_purpose::STANDARD`'s
/// `Engine::decode`. Claimed: the engine returns the bytes whose standard
/// base64 encoding (alphabet `A-Za-z0-9+/`, `=` padding, unused bits zero)
/// the text is, and an error, here `None`, for any other text.
#[verifier::external_body]
pub(crate) fn decode_base64(text: &[u8]) -> (res: Option<Vec<u8>>)
    ensures
        bytes_of(res) == standard_base64_decoding(text@),
{
    match base64::engine::general_purpose::STANDARD.decode(text) {
        Ok(bytes) => Some(bytes),
        Err(_) => None,
    }
}

} // verus!
