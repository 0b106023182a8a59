use vstd::prelude::*;
use vstd::utf8::encode_utf8;

verus! {

/// Bytes that a URL may hold as they are: ASCII letters, digits and `-._~`.
pub open spec fn is_unreserved(b: u8) -> bool {
    ||| 48 <= b <= 57
    ||| 65 <= b <= 90
    ||| 97 <= b <= 122
    ||| b == 45
    ||| b == 46
    ||| b == 95
    ||| b == 126
}

/// The upper-case hexadecimal digit of a value below 16.
pub open spec fn upper_hex_digit(d: u8) -> char {
    if d < 10 {
        (48 + d) as char
    } else {
        (55 + d) as char
    }
}

/// The lower-case hexadecimal digit of a value below 16.
pub open spec fn lower_hex_digit(d: u8) -> char {
    if d < 10 {
        (48 + d) as char
    } else {
        (87 + d) as char
    }
}

/// Percent-encoding: an unreserved byte stands for itself, any other byte
/// becomes `%` and its two upper-case hexadecimal digits.
pub open spec fn percent_encoded(bytes: Seq<u8>) -> Seq<char>
    decreases bytes.len(),
{
    if bytes.len() == 0 {
        Seq::empty()
    } else {
        let b = bytes[0];
        let head = if is_unreserved(b) {
            seq![b as char]
        } else {
            seq!['%', upper_hex_digit(b >> 4), upper_hex_digit(b & 15)]
        };
        head + percent_encoded(bytes.drop_first())
    }
}

/// The URL encoding of a text: the percent-encoding of its UTF-8 bytes.
pub open spec fn url_encoded(text: Seq<char>) -> Seq<char> {
    percent_encoded(encode_utf8(text))
}

/// Lower-case hexadecimal text of a byte sequence, two digits per byte.
pub open spec fn hex_lower(bytes: Seq<u8>) -> Seq<char>
    decreases bytes.len(),
{
    if bytes.len() == 0 {
        Seq::empty()
    } else {
        let b = bytes[0];
        seq![lower_hex_digit(b >> 4), lower_hex_digit(b & 15)] + hex_lower(bytes.drop_first())
    }
}

/// The Keccak-256 digest of a byte sequence.
pub uninterp spec fn keccak256_digest(data: Seq<u8>) -> Seq<u8>;

/// `urlencoding::encode`: percent-encodes every byte of the text's UTF-8
/// form except ASCII letters, digits and `-._~`, with upper-case digits.
/// The contract states exactly that.
#[verifier::external_body]
pub(crate) fn url_encode(text: &str) -> (res: String)
    ensures
        res@ == url_encoded(text@),
{
    urlencoding::encode(text).into_owned()
}

/// `hex::encode`: two lower-case hexadecimal digits per byte, in order.
/// The contract states exactly that.
#[verifier::external_body]
pub(crate) fn hex_encode(bytes: &[u8]) -> (res: String)
    ensures
        res@ == hex_lower(bytes@),
{
    hex::encode(bytes)
}

/// `ic_web3_rs::signing::keccak256`: the contract names the digest as a
/// function of the input bytes and states its length, 32 bytes, which the
/// function's array type fixes.
#[verifier::external_body]
pub(crate) fn keccak256(data: &[u8]) -> (res: Vec<u8>)
    ensures
        res@ == keccak256_digest(data@),
        res@.len() == 32,
{
    ic_web3_rs::signing::keccak256(data).to_vec()
}

/// Appends the UTF-8 bytes of `text`.
pub fn push_utf8(buf: &mut Vec<u8>, text: &str)
    ensures
        final(buf)@ == old(buf)@ + encode_utf8(text@),
{
    let bytes = text.as_bytes();
    let ghost start = buf@;
    buf.extend_from_slice(bytes);
    assert(buf@ =~= start + encode_utf8(text@));
}

/// The 32-byte big-endian form of an unsigned integer below 2^128.
pub open spec fn uint256_be(x: u128) -> Seq<u8> {
    Seq::new(16, |i: int| 0u8) + Seq::new(16, |i: int| ((x >> ((8 * (15 - i)) as u32)) & 0xff) as u8)
}

/// Appends the 32-byte big-endian form of `x`, as `abi.encodePacked`
/// encodes a `uint256`.
pub fn push_uint256(buf: &mut Vec<u8>, x: u128)
    ensures
        final(buf)@ == old(buf)@ + uint256_be(x),
{
    let ghost start = buf@;
    let mut i: usize = 0;
    while i < 16
        invariant
            i <= 16,
            buf@ =~= start + Seq::new(i as nat, |k: int| 0u8),
        decreases 16 - i,
    {
        buf.push(0u8);
        i = i + 1;
    }
    let mut j: usize = 0;
    while j < 16
        invariant
            j <= 16,
            buf@ =~= start + Seq::new(16, |k: int| 0u8) + Seq::new(
                j as nat,
                |k: int| ((x >> ((8 * (15 - k)) as u32)) & 0xff) as u8,
            ),
        decreases 16 - j,
    {
        let shift: u32 = 8 * (15 - j as u32);
        let byte: u8 = ((x >> shift) & 0xff) as u8;
        buf.push(byte);
        j = j + 1;
    }
    assert(buf@ =~= start + uint256_be(x));
}

/// A percent-encoded text holds no `&` and no `=`, so an encoded value never
/// adds or splits a parameter of the query it is put in.
pub proof fn lemma_percent_encoded_has_no_separators(bytes: Seq<u8>)
    ensures
        forall|i: int|
            0 <= i < percent_encoded(bytes).len() ==> #[trigger] percent_encoded(bytes)[i] != '&'
                && percent_encoded(bytes)[i] != '=',
    decreases bytes.len(),
{
    if bytes.len() > 0 {
        let b = bytes[0];
        lemma_percent_encoded_has_no_separators(bytes.drop_first());
        let head = if is_unreserved(b) {
            seq![b as char]
        } else {
            seq!['%', upper_hex_digit(b >> 4), upper_hex_digit(b & 15)]
        };
        assert((b >> 4) < 16 && (b & 15) < 16) by (bit_vector);
        assert forall|i: int| 0 <= i < head.len() implies head[i] != '&' && head[i] != '=' by {
            if is_unreserved(b) {
                assert(head[i] == b as char);
            }
        }
        assert(percent_encoded(bytes) == head + percent_encoded(bytes.drop_first()));
    }
}

/// The URL encoding of any text holds no `&` and no `=`.
pub proof fn lemma_url_encoded_has_no_separators(text: Seq<char>)
    ensures
        forall|i: int|
            0 <= i < url_encoded(text).len() ==> #[trigger] url_encoded(text)[i] != '&'
                && url_encoded(text)[i] != '=',
{
    lemma_percent_encoded_has_no_separators(encode_utf8(text));
}

} // verus!
