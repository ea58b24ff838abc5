//! Hexadecimal text of byte strings.

use vstd::prelude::*;
use vstd::utf8::{encode_utf8, is_ascii_chars, is_ascii_chars_encode_utf8};

verus! {

/// The lowercase hex digit byte of a value below 16.
pub open spec fn hex_digit_byte(n: u8) -> u8 {
    if n < 10 {
        (48 + n) as u8
    } else {
        (87 + n) as u8
    }
}

/// The bytes of the lowercase hex text of a byte string: two digits per
/// byte, high nibble first.
pub open spec fn hex_bytes(b: Seq<u8>) -> Seq<u8>
    decreases b.len(),
{
    if b.len() == 0 {
        Seq::empty()
    } else {
        seq![hex_digit_byte(b[0] / 16), hex_digit_byte(b[0] % 16)] + hex_bytes(b.drop_first())
    }
}

/// The lowercase hex text of a byte string.
pub open spec fn hex_text(b: Seq<u8>) -> Seq<char> {
    hex_bytes(b).map_values(|x: u8| x as char)
}

/// The value of a hex digit byte (either case).
pub open spec fn hex_digit_value(c: u8) -> Option<u8> {
    if 48 <= c <= 57 {
        Some((c - 48) as u8)
    } else if 97 <= c <= 102 {
        Some((c - 87) as u8)
    } else if 65 <= c <= 70 {
        Some((c - 55) as u8)
    } else {
        None
    }
}

/// The bytes that hex text stands for: `None` for an odd length or a byte
/// that is not a hex digit.
pub open spec fn hex_value(s: Seq<u8>) -> Option<Seq<u8>>
    decreases s.len(),
{
    if s.len() % 2 == 1 {
        None
    } else if s.len() == 0 {
        Some(Seq::empty())
    } else {
        match (
            hex_digit_value(s[0]),
            hex_digit_value(s[1]),
            hex_value(s.subrange(2, s.len() as int)),
        ) {
            (Some(h), Some(l), Some(rest)) => Some(seq![(h * 16 + l) as u8] + rest),
            _ => None,
        }
    }
}

/// Calls `hex::encode`. Claimed: the text is `hex_text` of the bytes, as the
/// crate documents (lowercase, two digits per byte).
#[verifier::external_body]
pub(crate) fn hex_encode(bytes: &[u8]) -> (s: String)
    ensures
        s@ == hex_text(bytes@),
{
    hex::encode(bytes)
}

/// The view of a decoding result.
pub open spec fn decoded_bytes(r: Result<Vec<u8>, String>) -> Option<Seq<u8>> {
    match r {
        Ok(v) => Some(v@),
        Err(_) => None,
    }
}

/// Calls `hex::decode` and formats its error. Claimed: the bytes are
/// `hex_value` of the text, which the crate's source computes; the error's
/// message is left unsaid.
#[verifier::external_body]
pub(crate) fn hex_decode(text: &[u8]) -> (r: Result<Vec<u8>, String>)
    ensures
        decoded_bytes(r) == hex_value(text@),
{
    match hex::decode(text) {
        Ok(v) => Ok(v),
        Err(e) => Err(e.to_string()),
    }
}

proof fn lemma_hex_bytes(b: Seq<u8>)
    ensures
        hex_bytes(b).len() == 2 * b.len(),
        forall|i: int|
            0 <= i < hex_bytes(b).len() ==> (48 <= #[trigger] hex_bytes(b)[i] <= 57 || 97
                <= hex_bytes(b)[i] <= 102),
        hex_value(hex_bytes(b)) == Some(b),
    decreases b.len(),
{
    if b.len() > 0 {
        lemma_hex_bytes(b.drop_first());
        let h = hex_bytes(b);
        let rest = hex_bytes(b.drop_first());
        assert(h.subrange(2, h.len() as int) =~= rest);
        assert(seq![(b[0] / 16 * 16 + b[0] % 16) as u8] + b.drop_first() =~= b);
    } else {
        assert(hex_value(hex_bytes(b)) == Some(Seq::<u8>::empty()));
        assert(b =~= Seq::<u8>::empty());
    }
}

/// Hex text is ASCII, holds no `/`, is twice as long as its bytes, and its
/// UTF-8 bytes decode back to the bytes it was made from.
pub proof fn law_hex_roundtrip(b: Seq<u8>)
    ensures
        is_ascii_chars(hex_text(b)),
        hex_text(b).len() == 2 * b.len(),
        !hex_text(b).contains('/'),
        encode_utf8(hex_text(b)) == hex_bytes(b),
        hex_value(encode_utf8(hex_text(b))) == Some(b),
{
    lemma_hex_bytes(b);
    let t = hex_text(b);
    assert forall|i: int| 0 <= i < t.len() implies '\0' <= #[trigger] t[i] <= '\u{7f}' by {
        assert(t[i] == hex_bytes(b)[i] as char);
    }
    is_ascii_chars_encode_utf8(t);
    assert forall|i: int| 0 <= i < t.len() implies #[trigger] t[i] != '/' by {
        assert(t[i] == hex_bytes(b)[i] as char);
    }
    assert(encode_utf8(t) =~= hex_bytes(b)) by {
        assert forall|i: int| 0 <= i < t.len() implies encode_utf8(t)[i] == hex_bytes(b)[i] by {
            assert(t[i] as u8 == encode_utf8(t)[i]);
            assert(t[i] == hex_bytes(b)[i] as char);
        }
    }
}

} // verus!
