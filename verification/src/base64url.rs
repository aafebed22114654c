//! URL-safe base64 without padding, through the `base64` crate.

use vstd::prelude::*;
use crate::decimal::{decimal, push_decimal};

verus! {

/// The character of a 6-bit value in the URL-safe base64 alphabet.
pub open spec fn b64_char(v: nat) -> char {
    if v < 26 {
        (65 + v) as char
    } else if v < 52 {
        (97 + (v - 26)) as char
    } else if v < 62 {
        (48 + (v - 52)) as char
    } else if v == 62 {
        '-'
    } else {
        '_'
    }
}

/// URL-safe base64 of `b` without padding: every 3 bytes become 4 characters,
/// a final 1 or 2 bytes become 2 or 3 characters.
pub open spec fn b64url(b: Seq<u8>) -> Seq<char>
    decreases b.len(),
{
    if b.len() == 0 {
        seq![]
    } else if b.len() == 1 {
        seq![b64_char((b[0] / 4) as nat), b64_char(((b[0] % 4) * 16) as nat)]
    } else if b.len() == 2 {
        seq![
            b64_char((b[0] / 4) as nat),
            b64_char(((b[0] % 4) * 16 + b[1] / 16) as nat),
            b64_char(((b[1] % 16) * 4) as nat),
        ]
    } else {
        seq![
            b64_char((b[0] / 4) as nat),
            b64_char(((b[0] % 4) * 16 + b[1] / 16) as nat),
            b64_char(((b[1] % 16) * 4 + b[2] / 64) as nat),
            b64_char((b[2] % 64) as nat),
        ] + b64url(b.subrange(3, b.len() as int))
    }
}

/// The alphabet gives distinct characters to distinct 6-bit values.
proof fn lemma_b64_char_injective(v: nat, w: nat)
    requires
        v < 64,
        w < 64,
        b64_char(v) == b64_char(w),
    ensures
        v == w,
{
}

proof fn lemma_group3(a0: u8, a1: u8, a2: u8, b0: u8, b1: u8, b2: u8)
    requires
        a0 / 4 == b0 / 4,
        (a0 % 4) * 16 + a1 / 16 == (b0 % 4) * 16 + b1 / 16,
        (a1 % 16) * 4 + a2 / 64 == (b1 % 16) * 4 + b2 / 64,
        a2 % 64 == b2 % 64,
    ensures
        a0 == b0 && a1 == b1 && a2 == b2,
{
    assert(a0 / 4 == b0 / 4 && (a0 % 4) * 16 + a1 / 16 == (b0 % 4) * 16 + b1 / 16 && (a1 % 16) * 4
        + a2 / 64 == (b1 % 16) * 4 + b2 / 64 && a2 % 64 == b2 % 64 ==> a0 == b0 && a1 == b1 && a2
        == b2) by (bit_vector);
}

proof fn lemma_group2(a0: u8, a1: u8, b0: u8, b1: u8)
    requires
        a0 / 4 == b0 / 4,
        (a0 % 4) * 16 + a1 / 16 == (b0 % 4) * 16 + b1 / 16,
        (a1 % 16) * 4 == (b1 % 16) * 4,
    ensures
        a0 == b0 && a1 == b1,
{
    assert(a0 / 4 == b0 / 4 && (a0 % 4) * 16 + a1 / 16 == (b0 % 4) * 16 + b1 / 16 && (a1 % 16) * 4
        == (b1 % 16) * 4 ==> a0 == b0 && a1 == b1) by (bit_vector);
}

proof fn lemma_group1(a0: u8, b0: u8)
    requires
        a0 / 4 == b0 / 4,
        (a0 % 4) * 16 == (b0 % 4) * 16,
    ensures
        a0 == b0,
{
    assert(a0 / 4 == b0 / 4 && (a0 % 4) * 16 == (b0 % 4) * 16 ==> a0 == b0) by (bit_vector);
}

/// Length of the encoding: which of the four shapes the bytes take shows in it.
proof fn lemma_b64url_len(b: Seq<u8>)
    ensures
        b.len() == 0 ==> b64url(b).len() == 0,
        b.len() == 1 ==> b64url(b).len() == 2,
        b.len() == 2 ==> b64url(b).len() == 3,
        b.len() >= 3 ==> b64url(b).len() >= 4,
{
}

/// Different bytes have different encodings.
pub proof fn lemma_b64url_injective(a: Seq<u8>, b: Seq<u8>)
    requires
        b64url(a) == b64url(b),
    ensures
        a == b,
    decreases a.len(),
{
    lemma_b64url_len(a);
    lemma_b64url_len(b);
    let ea = b64url(a);
    let eb = b64url(b);
    if a.len() == 0 {
        assert(b.len() == 0);
        assert(a =~= b);
    } else if a.len() == 1 {
        assert(b.len() == 1);
        assert(ea[0] == eb[0] && ea[1] == eb[1]);
        lemma_b64_char_injective((a[0] / 4) as nat, (b[0] / 4) as nat);
        lemma_b64_char_injective(((a[0] % 4) * 16) as nat, ((b[0] % 4) * 16) as nat);
        lemma_group1(a[0], b[0]);
        assert(a =~= b);
    } else if a.len() == 2 {
        assert(b.len() == 2);
        assert(ea[0] == eb[0] && ea[1] == eb[1] && ea[2] == eb[2]);
        lemma_b64_char_injective((a[0] / 4) as nat, (b[0] / 4) as nat);
        lemma_b64_char_injective(
            ((a[0] % 4) * 16 + a[1] / 16) as nat,
            ((b[0] % 4) * 16 + b[1] / 16) as nat,
        );
        lemma_b64_char_injective(((a[1] % 16) * 4) as nat, ((b[1] % 16) * 4) as nat);
        lemma_group2(a[0], a[1], b[0], b[1]);
        assert(a =~= b);
    } else {
        assert(b.len() >= 3);
        let ha = seq![
            b64_char((a[0] / 4) as nat),
            b64_char(((a[0] % 4) * 16 + a[1] / 16) as nat),
            b64_char(((a[1] % 16) * 4 + a[2] / 64) as nat),
            b64_char((a[2] % 64) as nat),
        ];
        let hb = seq![
            b64_char((b[0] / 4) as nat),
            b64_char(((b[0] % 4) * 16 + b[1] / 16) as nat),
            b64_char(((b[1] % 16) * 4 + b[2] / 64) as nat),
            b64_char((b[2] % 64) as nat),
        ];
        assert(ea == ha + b64url(a.subrange(3, a.len() as int)));
        assert(eb == hb + b64url(b.subrange(3, b.len() as int)));
        assert(ea[0] == ha[0] && ea[1] == ha[1] && ea[2] == ha[2] && ea[3] == ha[3]);
        assert(eb[0] == hb[0] && eb[1] == hb[1] && eb[2] == hb[2] && eb[3] == hb[3]);
        lemma_b64_char_injective((a[0] / 4) as nat, (b[0] / 4) as nat);
        lemma_b64_char_injective(
            ((a[0] % 4) * 16 + a[1] / 16) as nat,
            ((b[0] % 4) * 16 + b[1] / 16) as nat,
        );
        lemma_b64_char_injective(
            ((a[1] % 16) * 4 + a[2] / 64) as nat,
            ((b[1] % 16) * 4 + b[2] / 64) as nat,
        );
        lemma_b64_char_injective((a[2] % 64) as nat, (b[2] % 64) as nat);
        lemma_group3(a[0], a[1], a[2], b[0], b[1], b[2]);
        let ra = a.subrange(3, a.len() as int);
        let rb = b.subrange(3, b.len() as int);
        assert(b64url(ra) =~= ea.subrange(4, ea.len() as int));
        assert(b64url(rb) =~= eb.subrange(4, eb.len() as int));
        lemma_b64url_injective(ra, rb);
        assert(a =~= seq![a[0], a[1], a[2]] + ra);
        assert(b =~= seq![b[0], b[1], b[2]] + rb);
    }
}

/// The bytes behind an encoding are the ones it was made from.
pub proof fn lemma_b64url_source(b: Seq<u8>)
    ensures
        is_b64url(b64url(b)),
        b64url_source(b64url(b)) == b,
{
    assert(b64url(b) == b64url(b));
    let c = b64url_source(b64url(b));
    lemma_b64url_injective(c, b);
}

/// Why a text is not base64 (the variants of `base64::DecodeError`).
#[derive(Debug, PartialEq, Eq, Structural)]
pub enum Base64Error {
    /// A byte outside the alphabet, at the given offset.
    InvalidByte(usize, u8),
    /// The text leaves a 6-bit remainder.
    InvalidLength,
    /// The last symbol carries bits that no byte uses.
    InvalidLastSymbol(usize, u8),
}

/// The text that `base64::DecodeError` displays.
pub open spec fn base64_error_message(e: Base64Error) -> Seq<char> {
    match e {
        Base64Error::InvalidByte(index, byte) => "Invalid byte "@ + decimal(byte as nat) + ", offset "@
            + decimal(index as nat) + "."@,
        Base64Error::InvalidLength => "Encoded text cannot have a 6-bit remainder."@,
        Base64Error::InvalidLastSymbol(index, byte) => "Invalid last symbol "@ + decimal(byte as nat)
            + ", offset "@ + decimal(index as nat) + "."@,
    }
}

impl Base64Error {
    /// The error's text, as `to_string` gives it.
    pub fn message(&self) -> (res: String)
        ensures
            res@ == base64_error_message(*self),
    {
        match self {
            Base64Error::InvalidByte(index, byte) => {
                let mut s = String::from_str("Invalid byte ");
                push_decimal(&mut s, *byte as u64);
                s.append(", offset ");
                push_decimal(&mut s, *index as u64);
                s.append(".");
                s
            },
            Base64Error::InvalidLength => String::from_str("Encoded text cannot have a 6-bit remainder."),
            Base64Error::InvalidLastSymbol(index, byte) => {
                let mut s = String::from_str("Invalid last symbol ");
                push_decimal(&mut s, *byte as u64);
                s.append(", offset ");
                push_decimal(&mut s, *index as u64);
                s.append(".");
                s
            },
        }
    }
}

/// Whether a text is the URL-safe base64 of some bytes.
pub open spec fn is_b64url(text: Seq<char>) -> bool {
    exists|b: Seq<u8>| #[trigger] b64url(b) == text
}

/// The bytes whose URL-safe base64 a text is (meaningful when `is_b64url` holds).
pub open spec fn b64url_source(text: Seq<char>) -> Seq<u8> {
    choose|b: Seq<u8>| #[trigger] b64url(b) == text
}

/// A decoding result, with the bytes taken by their view.
pub open spec fn decoded_view(r: Result<Vec<u8>, Base64Error>) -> Result<Seq<u8>, Base64Error> {
    match r {
        Ok(v) => Ok(v@),
        Err(e) => Err(e),
    }
}

/// What `base64::decode_config` with `URL_SAFE_NO_PAD` gives for a text.
pub uninterp spec fn base64_url_decode(text: Seq<char>) -> Result<Seq<u8>, Base64Error>;

/// Trusted: `base64::encode_config(bytes, URL_SAFE_NO_PAD)` writes the URL-safe
/// alphabet without padding. It panics only when the encoded length overflows
/// `usize`, which `requires` leaves out.
#[verifier::external_body]
pub(crate) fn encode_url_safe(bytes: &[u8]) -> (res: String)
    requires
        bytes@.len() / 3 * 4 + 3 <= usize::MAX,
    ensures
        res@ == b64url(bytes@),
{
    base64::encode_config(bytes, base64::URL_SAFE_NO_PAD)
}

/// Trusted: `base64::decode_config(text, URL_SAFE_NO_PAD)`. Its result is a function
/// of the text alone, named `base64_url_decode`; the error is moved variant by
/// variant into `Base64Error`. Of the result it is stated besides only that a text
/// that some byte sequence encodes to decodes back to that sequence; what other
/// texts (padded, or with stray symbols) give is left to the name.
#[verifier::external_body]
pub(crate) fn decode_url_safe(text: &str) -> (res: Result<Vec<u8>, Base64Error>)
    ensures
        decoded_view(res) == base64_url_decode(text@),
        decoded_view(res) == (if is_b64url(text@) {
            Ok::<Seq<u8>, Base64Error>(b64url_source(text@))
        } else {
            base64_url_decode(text@)
        }),
{
    match base64::decode_config(text, base64::URL_SAFE_NO_PAD) {
        Ok(v) => Ok(v),
        Err(base64::DecodeError::InvalidByte(index, byte)) => Err(Base64Error::InvalidByte(index, byte)),
        Err(base64::DecodeError::InvalidLength) => Err(Base64Error::InvalidLength),
        Err(base64::DecodeError::InvalidLastSymbol(index, byte)) => Err(
            Base64Error::InvalidLastSymbol(index, byte),
        ),
    }
}

} // verus!
