//! Hexadecimal text for keys and signatures.
use vstd::prelude::*;

use vstd::utf8::{encode_utf8, is_ascii_chars, is_ascii_chars_encode_utf8};

use crate::error::CryptoError;

verus! {

#[verifier::external_type_specification]
#[verifier::external_body]
pub struct ExFromHexError(hex::FromHexError);

/// The lower-case hexadecimal digit for a value below sixteen.
pub open spec fn hex_digit(n: int) -> char {
    if n < 10 {
        (n + 48) as char
    } else {
        (n + 87) as char
    }
}

/// Lower-case hexadecimal text of `b`: two digits per byte, high half first.
pub open spec fn hex_text(b: Seq<u8>) -> Seq<char> {
    Seq::new(
        2 * b.len(),
        |i: int|
            if i % 2 == 0 {
                hex_digit(b[i / 2] as int / 16)
            } else {
                hex_digit(b[i / 2] as int % 16)
            },
    )
}

/// An ASCII hexadecimal digit, of either case.
pub open spec fn is_hex_byte(c: u8) -> bool {
    (48 <= c <= 57) || (65 <= c <= 70) || (97 <= c <= 102)
}

/// The value of a hexadecimal digit.
pub open spec fn hex_value(c: u8) -> int {
    if c <= 57 {
        c - 48
    } else if c <= 70 {
        c - 55
    } else {
        c - 87
    }
}

/// Text that decodes: an even number of hexadecimal digits.
pub open spec fn is_hex_text(t: Seq<u8>) -> bool {
    &&& t.len() % 2 == 0
    &&& forall|i: int| 0 <= i < t.len() ==> is_hex_byte(#[trigger] t[i])
}

/// The bytes that hexadecimal text stands for, two digits per byte.
pub open spec fn hex_decoded(t: Seq<u8>) -> Seq<u8> {
    Seq::new(t.len() / 2, |i: int| (hex_value(t[2 * i]) * 16 + hex_value(t[2 * i + 1])) as u8)
}

/// Decoding of text that must stand for exactly `n` bytes; `wrong_length` is
/// the error for well-formed text of another length.
pub open spec fn decode_fixed(t: Seq<u8>, n: nat, wrong_length: CryptoError) -> Result<
    Seq<u8>,
    CryptoError,
> {
    if !is_hex_text(t) {
        Err(CryptoError::InvalidEncoding)
    } else if hex_decoded(t).len() != n {
        Err(wrong_length)
    } else {
        Ok(hex_decoded(t))
    }
}

/// Lower-case hexadecimal text of any bytes is ASCII, and its UTF-8 bytes
/// decode back to exactly those bytes.
pub proof fn lemma_hex_round_trip(b: Seq<u8>)
    ensures
        is_ascii_chars(hex_text(b)),
        encode_utf8(hex_text(b)).len() == 2 * b.len(),
        is_hex_text(encode_utf8(hex_text(b))),
        hex_decoded(encode_utf8(hex_text(b))) == b,
{
    let h = hex_text(b);
    assert forall|i: int| 0 <= i < h.len() implies '\0' <= #[trigger] h[i] <= '\u{7f}' && is_hex_byte(
        h[i] as u8,
    ) && hex_value(h[i] as u8) == if i % 2 == 0 {
        b[i / 2] as int / 16
    } else {
        b[i / 2] as int % 16
    } by {
        let n = if i % 2 == 0 {
            b[i / 2] as int / 16
        } else {
            b[i / 2] as int % 16
        };
        assert(0 <= n < 16);
    }
    is_ascii_chars_encode_utf8(h);
    let t = encode_utf8(h);
    assert(is_hex_text(t)) by {
        assert forall|i: int| 0 <= i < t.len() implies is_hex_byte(#[trigger] t[i]) by {
            assert(t[i] == h[i] as u8);
        }
    }
    assert forall|i: int| 0 <= i < b.len() implies #[trigger] hex_decoded(t)[i] == b[i] by {
        assert(t[2 * i] == h[2 * i] as u8);
        assert(t[2 * i + 1] == h[2 * i + 1] as u8);
        assert((2 * i) / 2 == i && (2 * i) % 2 == 0);
        assert((2 * i + 1) / 2 == i && (2 * i + 1) % 2 == 1);
        assert(hex_value(t[2 * i]) == b[i] as int / 16);
        assert(hex_value(t[2 * i + 1]) == b[i] as int % 16);
    }
    assert(hex_decoded(t) =~= b);
}

/// Relies on hex::encode: two lower-case digits for each byte, in order.
#[verifier::external_body]
pub(crate) fn hex_encode(b: &[u8]) -> (r: String)
    ensures
        r@ == hex_text(b@),
{
    hex::encode(b)
}

/// Relies on hex::decode: it accepts exactly the even-length runs of digits
/// of either case, and pairs them into bytes.
#[verifier::external_body]
fn hex_decode(t: &[u8]) -> (r: Result<Vec<u8>, hex::FromHexError>)
    ensures
        r is Ok <==> is_hex_text(t@),
        r matches Ok(v) ==> v@ == hex_decoded(t@),
{
    hex::decode(t)
}

/// Decodes hexadecimal text into exactly `N` bytes.
fn decode_fixed_array<const N: usize>(t: &[u8], wrong_length: CryptoError) -> (r: Result<
    [u8; N],
    CryptoError,
>)
    ensures
        r is Ok <==> decode_fixed(t@, N as nat, wrong_length) is Ok,
        r matches Ok(a) ==> decode_fixed(t@, N as nat, wrong_length) == Ok::<
            Seq<u8>,
            CryptoError,
        >(a@),
        r matches Err(e) ==> decode_fixed(t@, N as nat, wrong_length) == Err::<
            Seq<u8>,
            CryptoError,
        >(e),
{
    let bytes = match hex_decode(t) {
        Ok(v) => v,
        Err(_) => return Err(CryptoError::InvalidEncoding),
    };
    if bytes.len() != N {
        return Err(wrong_length);
    }
    let mut out: [u8; N] = [0u8; N];
    let mut i: usize = 0;
    while i < N
        invariant
            bytes@.len() == N,
            0 <= i <= N,
            forall|j: int| 0 <= j < i ==> out@[j] == bytes@[j],
        decreases N - i,
    {
        out[i] = bytes[i];
        i = i + 1;
    }
    assert(out@ =~= bytes@);
    Ok(out)
}

/// Decodes the hexadecimal text of a 32-byte key.
pub fn decode_key(text: &str) -> (r: Result<[u8; 32], CryptoError>)
    ensures
        r is Ok <==> decode_fixed(encode_utf8(text@), 32, CryptoError::InvalidKeyLength) is Ok,
        r matches Ok(a) ==> decode_fixed(encode_utf8(text@), 32, CryptoError::InvalidKeyLength)
            == Ok::<Seq<u8>, CryptoError>(a@),
        r matches Err(e) ==> decode_fixed(encode_utf8(text@), 32, CryptoError::InvalidKeyLength)
            == Err::<Seq<u8>, CryptoError>(e),
{
    decode_fixed_array::<32>(text.as_bytes(), CryptoError::InvalidKeyLength)
}

/// Decodes the hexadecimal text of a 64-byte signature.
pub fn decode_signature(text: &str) -> (r: Result<[u8; 64], CryptoError>)
    ensures
        r is Ok <==> decode_fixed(encode_utf8(text@), 64, CryptoError::InvalidSignatureLength) is Ok,
        r matches Ok(a) ==> decode_fixed(
            encode_utf8(text@),
            64,
            CryptoError::InvalidSignatureLength,
        ) == Ok::<Seq<u8>, CryptoError>(a@),
        r matches Err(e) ==> decode_fixed(
            encode_utf8(text@),
            64,
            CryptoError::InvalidSignatureLength,
        ) == Err::<Seq<u8>, CryptoError>(e),
{
    decode_fixed_array::<64>(text.as_bytes(), CryptoError::InvalidSignatureLength)
}

} // verus!
