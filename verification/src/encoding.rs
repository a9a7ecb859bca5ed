use vstd::prelude::*;
use vstd::utf8::encode_utf8;

verus! {

/// What `base64::encode` returns: the text of `bytes` in the standard
/// alphabet, with padding.
pub uninterp spec fn base64_encoding(bytes: Seq<u8>) -> Seq<char>;

/// What `base64::decode` returns on the bytes of a text: the bytes that the
/// text stands for, or nothing where it is no base64.
pub uninterp spec fn base64_decoding(text: Seq<u8>) -> Option<Seq<u8>>;

/// `text` is the base64 of `bytes`, and is read back as `bytes`.
pub open spec fn is_base64_of(text: Seq<char>, bytes: Seq<u8>) -> bool {
    &&& text == base64_encoding(bytes)
    &&& base64_decoding(encode_utf8(text)) == Some(bytes)
}

/// How much longer than its input a length must be able to grow while
/// `base64::decode` counts the chunks of the input.
pub const DECODE_ROOM: usize = 7;

/// What a text is read back as: its bytes by `base64::decode`, or nothing
/// where the text is no base64 or too long to be any.
pub open spec fn readable(text: Seq<char>) -> Option<Seq<u8>> {
    if encode_utf8(text).len() + DECODE_ROOM > usize::MAX {
        None
    } else {
        base64_decoding(encode_utf8(text))
    }
}

/// Whether the base64 of `len` bytes has a length that fits in `usize`.
pub open spec fn encodable_len(len: nat) -> bool {
    (len / 3) * 4 + 4 <= usize::MAX
}

/// The error of `base64::decode`.
#[verifier::external_type_specification]
#[verifier::external_body]
pub struct ExDecodeError(base64::DecodeError);

/// Calls `base64::encode`, which panics where the length of the text would
/// overflow. The contract names the text, and claims that `base64::decode`
/// reads it back as the bytes it was made from.
#[verifier::external_body]
fn encode_unchecked(input: &[u8]) -> (text: String)
    requires
        encodable_len(input@.len()),
    ensures
        text@ == base64_encoding(input@),
        base64_decoding(encode_utf8(text@)) == Some(input@),
{
    base64::encode(input)
}

/// Calls `base64::decode`, which panics where counting the chunks of the
/// input would overflow. The contract names what it returns.
#[verifier::external_body]
fn decode_unchecked(input: &[u8]) -> (r: Result<Vec<u8>, base64::DecodeError>)
    requires
        input@.len() + DECODE_ROOM <= usize::MAX,
    ensures
        match r {
            Ok(bytes) => base64_decoding(input@) == Some(bytes@),
            Err(_) => base64_decoding(input@) is None,
        },
{
    base64::decode(input)
}

/// Whether `bytes` can be written in base64 and read back: neither their
/// text nor the room for reading it is longer than a `usize` counts.
pub open spec fn encodable(bytes: Seq<u8>) -> bool {
    &&& encodable_len(bytes.len())
    &&& encode_utf8(base64_encoding(bytes)).len() + DECODE_ROOM <= usize::MAX
}

/// Writes `input` in base64, unless the text would be too long.
pub fn encode(input: &[u8]) -> (r: Option<String>)
    ensures
        match r {
            Some(text) => encodable(input@) && is_base64_of(text@, input@) && readable(text@)
                == Some(input@),
            None => !encodable(input@),
        },
{
    if input.len() / 3 > (usize::MAX - 4) / 4 {
        return None;
    }
    let text = encode_unchecked(input);
    if text.as_str().as_bytes().len() > usize::MAX - DECODE_ROOM {
        return None;
    }
    Some(text)
}

/// Reads base64 text back into bytes; `None` where `input` is no base64, or
/// too long to be any.
pub fn decode(input: &str) -> (r: Option<Vec<u8>>)
    ensures
        match r {
            Some(bytes) => readable(input@) == Some(bytes@),
            None => readable(input@) is None,
        },
{
    let input = input.as_bytes();
    if input.len() > usize::MAX - DECODE_ROOM {
        return None;
    }
    match decode_unchecked(input) {
        Ok(bytes) => Some(bytes),
        Err(_) => None,
    }
}

} // verus!
