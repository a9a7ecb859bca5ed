use vstd::prelude::*;
use vstd::string::{StrSliceExecFns, StringSliceAdditionalSpecFns};
use vstd::utf8::{decode_utf8, encode_utf8, valid_utf8};

verus! {

/// The byte that pads a decrypted buffer beyond its plaintext.
pub const NUL: u8 = 0;

/// The length of `bytes` once every trailing NUL byte is dropped.
pub open spec fn stripped_len(bytes: Seq<u8>) -> nat
    decreases bytes.len(),
{
    if bytes.len() == 0 || bytes.last() != NUL {
        bytes.len()
    } else {
        stripped_len(bytes.drop_last())
    }
}

/// `bytes` without its trailing NUL bytes.
pub open spec fn strip_nul(bytes: Seq<u8>) -> Seq<u8> {
    bytes.subrange(0, stripped_len(bytes) as int)
}

/// The stripped length is the one place that leaves only NUL bytes behind it
/// and none right before it.
pub proof fn lemma_stripped_len(bytes: Seq<u8>, n: int)
    requires
        0 <= n <= bytes.len(),
        forall|i: int| n <= i < bytes.len() ==> bytes[i] == NUL,
        n > 0 ==> bytes[n - 1] != NUL,
    ensures
        stripped_len(bytes) == n,
    decreases bytes.len(),
{
    if n < bytes.len() {
        lemma_stripped_len(bytes.drop_last(), n);
    }
}

/// Bytes that do not end in NUL are left as they are.
pub proof fn lemma_strip_nul_keeps(bytes: Seq<u8>)
    requires
        bytes.len() == 0 || bytes.last() != NUL,
    ensures
        strip_nul(bytes) == bytes,
{
}

/// The last byte of a character other than NUL is no NUL.
proof fn lemma_scalar_last(c: u32)
    requires
        c != 0,
    ensures
        vstd::utf8::encode_scalar(c).len() > 0,
        vstd::utf8::encode_scalar(c).last() != NUL,
{
    assert(c <= 0x7f ==> (c & 0x7F) as u8 != 0) by (bit_vector)
        requires
            c != 0,
    ;
    assert((0x80 | (c & 0x3F) as u8) != 0) by (bit_vector);
}

/// The bytes of a text that ends in another character than NUL do not end
/// in NUL.
pub proof fn lemma_last_byte(text: Seq<char>)
    requires
        text.len() > 0,
        text.last() != '\0',
    ensures
        encode_utf8(text).len() > 0,
        encode_utf8(text).last() != NUL,
    decreases text.len(),
{
    let rest = text.drop_first();
    if rest.len() == 0 {
        assert(text[0] == text.last());
        let c = text[0];
        let u = c as u32;
        assert(u != 0) by {
            vstd::utf8::char_u32_cast(c, u);
            vstd::utf8::char_u32_cast('\0', 0u32);
        }
        lemma_scalar_last(u);
        assert(encode_utf8(rest).len() == 0);
        assert(encode_utf8(text) =~= vstd::utf8::encode_scalar(u));
    } else {
        assert(rest.last() == text.last());
        lemma_last_byte(rest);
    }
}

/// The error of `String::from_utf8`.
#[verifier::external_type_specification]
#[verifier::external_body]
pub struct ExFromUtf8Error(std::string::FromUtf8Error);

/// Calls `String::from_utf8`, which std documents to accept exactly the byte
/// strings that are UTF-8 and to keep their bytes.
#[verifier::external_body]
pub(crate) fn string_from_utf8(bytes: Vec<u8>) -> (r: Result<String, std::string::FromUtf8Error>)
    ensures
        match r {
            Ok(text) => valid_utf8(bytes@) && text@ == decode_utf8(bytes@),
            Err(_) => !valid_utf8(bytes@),
        },
{
    String::from_utf8(bytes)
}

/// Drops the NUL characters that end `text`.
pub fn strip_trailing_nul(text: &str) -> (r: &str)
    ensures
        r.spec_bytes() == strip_nul(text.spec_bytes()),
{
    let bytes = text.as_bytes();
    let mut n: usize = bytes.len();
    while n > 0 && bytes[n - 1] == NUL
        invariant
            n <= bytes@.len(),
            forall|i: int| n <= i < bytes@.len() ==> bytes@[i] == NUL,
        decreases n,
    {
        n = n - 1;
    }
    proof {
        lemma_stripped_len(bytes@, n as int);
        vstd::utf8::encode_utf8_valid_utf8(text@);
        if n < bytes@.len() {
            vstd::utf8::is_char_boundary_iff_not_is_continuation_byte(bytes@, n as int);
        } else {
            vstd::utf8::is_char_boundary_start_end_of_seq(bytes@);
        }
    }
    let (kept, _) = text.split_at(n);
    kept
}

/// How many characters at the front of `text` are slashes.
pub open spec fn leading_slashes(text: Seq<char>) -> nat
    decreases text.len(),
{
    if text.len() == 0 || text.first() != '/' {
        0
    } else {
        1 + leading_slashes(text.drop_first())
    }
}

/// The count of leading slashes is the one place that has only slashes
/// before it and none at it.
pub proof fn lemma_leading_slashes(text: Seq<char>, n: int)
    requires
        0 <= n <= text.len(),
        forall|i: int| 0 <= i < n ==> text[i] == '/',
        n < text.len() ==> text[n] != '/',
    ensures
        leading_slashes(text) == n,
    decreases n,
{
    if n > 0 {
        lemma_leading_slashes(text.drop_first(), n - 1);
    }
}

/// Drops the slashes that `text` starts with.
pub fn strip_leading_slashes(text: &str) -> (r: &str)
    ensures
        r@ == text@.skip(leading_slashes(text@) as int),
{
    let len = text.unicode_len();
    let mut n: usize = 0;
    while n < len && text.get_char(n) == '/'
        invariant
            n <= len,
            len == text@.len(),
            forall|i: int| 0 <= i < n ==> text@[i] == '/',
        decreases len - n,
    {
        n = n + 1;
    }
    proof {
        lemma_leading_slashes(text@, n as int);
    }
    text.substring_char(n, len)
}

/// Calls `String::push`, which std documents to append the character.
#[verifier::external_body]
pub(crate) fn push_char(text: &mut String, c: char)
    ensures
        final(text)@ == old(text)@.push(c),
{
    text.push(c)
}

/// The character of a decimal digit.
pub open spec fn digit(d: nat) -> char {
    (0x30 + d) as char
}

/// A number in decimal, without leading zeros.
pub open spec fn decimal(n: nat) -> Seq<char>
    decreases n,
{
    if n < 10 {
        seq![digit(n)]
    } else {
        decimal(n / 10).push(digit(n % 10))
    }
}

/// Appends a number in decimal.
pub fn push_decimal(text: &mut String, n: u64)
    ensures
        final(text)@ == old(text)@ + decimal(n as nat),
    decreases n,
{
    if n >= 10 {
        push_decimal(text, n / 10);
    }
    let d: u8 = (n % 10) as u8;
    push_char(text, (0x30 + d) as char);
}

/// A number in decimal, with a minus sign where it is negative.
pub open spec fn signed_decimal(n: int) -> Seq<char> {
    if n < 0 {
        seq!['-'] + decimal((-n) as nat)
    } else {
        decimal(n as nat)
    }
}

/// Appends a number in decimal, with a minus sign where it is negative.
pub fn push_signed_decimal(text: &mut String, n: i64)
    ensures
        final(text)@ == old(text)@ + signed_decimal(n as int),
{
    if n < 0 {
        push_char(text, '-');
        let magnitude: u64 = (-(n + 1)) as u64 + 1;
        push_decimal(text, magnitude);
    } else {
        push_decimal(text, n as u64);
    }
}

/// A character with the ASCII letters `a` to `z` turned into `A` to `Z`.
pub open spec fn upper(c: char) -> char {
    if 'a' <= c <= 'z' {
        ((c as u32) - 32) as char
    } else {
        c
    }
}

/// Turns an ASCII letter into its capital, and leaves any other character.
pub fn to_upper(c: char) -> (r: char)
    ensures
        r == upper(c),
{
    if 'a' <= c && c <= 'z' {
        let code: u8 = c as u8;
        (code - 32) as char
    } else {
        c
    }
}

/// Writes `text` in capitals, as far as its letters are ASCII.
pub fn to_uppercase(text: &str) -> (r: String)
    ensures
        r@ == text@.map_values(|c: char| upper(c)),
{
    let mut r = String::new();
    let n = text.unicode_len();
    let mut i: usize = 0;
    while i < n
        invariant
            i <= n,
            n == text@.len(),
            r@ == text@.subrange(0, i as int).map_values(|c: char| upper(c)),
        decreases n - i,
    {
        push_char(&mut r, to_upper(text.get_char(i)));
        i = i + 1;
    }
    r
}

} // verus!
