use crate::encoding::{encodable, is_base64_of, readable};
use crate::encryption::aes::{
    decrypt_aes_256_cbc, derive_key_material, derived_iv, derived_key, encrypt_aes_256_cbc,
    padded_encryption, unpadded_decryption, MAX_INPUT_LEN,
};
use crate::encryption::rsa::{rsa_decrypt, rsa_decrypt_gives, rsa_encrypt_gives, valid_key_pair};
use crate::error::{
    text_result, CipherError, ConfigurationError, DecodeFailure, EncryptError, Error,
    RequestError, RequestErrorView,
};
use crate::json::{
    find_member, json_object, member_named, members_view, read_object, same_text, Member,
    MemberView,
};
use crate::text::{string_from_utf8, strip_nul, strip_trailing_nul, NUL};
use vstd::prelude::*;
use vstd::string::{StringExecFns, StringSliceAdditionalSpecFns};
use vstd::utf8::{decode_utf8, encode_utf8, valid_utf8};

verus! {

/// `text` without the NUL characters that end it.
pub open spec fn strip_text(text: Seq<char>) -> Seq<char> {
    decode_utf8(strip_nul(encode_utf8(text)))
}

/// What the cipher makes of `plaintext` under the key material of `password`.
pub open spec fn ciphertext(plaintext: Seq<char>, password: Seq<char>) -> Result<
    Seq<u8>,
    CipherError,
> {
    padded_encryption(derived_key(password), derived_iv(password), encode_utf8(plaintext))
}

/// What opening `data` under the key material of `password` gives, where the
/// key derivation runs: the base64 is read, the bytes are decrypted, read as
/// UTF-8, and the NUL characters at their end are dropped.
pub open spec fn opened(data: Seq<char>, password: Seq<char>) -> Result<Seq<char>, Error> {
    match readable(data) {
        None => Err(Error::Deserialize(DecodeFailure::Base64)),
        Some(cipher) => match unpadded_decryption(
            derived_key(password),
            derived_iv(password),
            cipher,
        ) {
            Err(e) => Err(Error::Deserialize(DecodeFailure::Cipher(e))),
            Ok(bytes) => if valid_utf8(bytes) {
                Ok(decode_utf8(strip_nul(bytes)))
            } else {
                Err(Error::Deserialize(DecodeFailure::Utf8))
            },
        },
    }
}

/// What sealing `plaintext` under the key material of `password` gives, where
/// the key derivation runs: the base64 of the ciphertext, which is opened
/// again to the plaintext.
pub open spec fn sealed(plaintext: Seq<char>, password: Seq<char>, r: Result<
    Seq<char>,
    Error,
>) -> bool {
    match ciphertext(plaintext, password) {
        Err(e) => r == Err::<Seq<char>, Error>(Error::Encrypt(EncryptError::Cipher(e))),
        Ok(cipher) => if encodable(cipher) {
            &&& r matches Ok(data)
            &&& is_base64_of(data, cipher)
            &&& opened(data, password) == Ok::<Seq<char>, Error>(strip_text(plaintext))
        } else {
            r == Err::<Seq<char>, Error>(Error::Encrypt(EncryptError::TooLong))
        },
    }
}

/// The error of a key derivation that did not run.
pub open spec fn no_key() -> Error {
    Error::Configuration(ConfigurationError::KeyDerivation)
}

/// Seals a plaintext under the key material of a password: AES-256-CBC with
/// PKCS padding, then base64. What comes out is opened again by `unseal`
/// under the same password.
pub fn seal(plaintext: &str, password: &str) -> (r: Result<String, Error>)
    ensures
        password.spec_bytes().len() > MAX_INPUT_LEN ==> text_result(r) == Err::<Seq<char>, Error>(
            no_key(),
        ),
        text_result(r) == Err::<Seq<char>, Error>(no_key()) || sealed(
            plaintext@,
            password@,
            text_result(r),
        ),
{
    let material = derive_key_material(password)?;
    match encrypt_aes_256_cbc(
        plaintext.as_bytes(),
        material.key.as_slice(),
        material.iv.as_slice(),
    ) {
        Err(e) => Err(Error::Encrypt(EncryptError::Cipher(e))),
        Ok(encrypted_payload) => match crate::encoding::encode(encrypted_payload.as_slice()) {
            None => Err(Error::Encrypt(EncryptError::TooLong)),
            Some(data) => {
                proof {
                    vstd::utf8::encode_utf8_valid_utf8(plaintext@);
                }
                Ok(data)
            },
        },
    }
}

/// Opens what `seal` made: reads the base64, decrypts it under the key
/// material of the password, reads the bytes as UTF-8 and drops the NUL
/// characters at their end.
pub fn unseal(data: &str, password: &str) -> (r: Result<String, Error>)
    ensures
        password.spec_bytes().len() > MAX_INPUT_LEN ==> text_result(r) == Err::<Seq<char>, Error>(
            no_key(),
        ),
        text_result(r) == Err::<Seq<char>, Error>(no_key()) || text_result(r) == opened(
            data@,
            password@,
        ),
{
    let material = derive_key_material(password)?;
    let encrypted = match crate::encoding::decode(data) {
        Some(bytes) => bytes,
        None => {
            return Err(Error::Deserialize(DecodeFailure::Base64));
        },
    };
    let decrypted = match decrypt_aes_256_cbc(
        encrypted.as_slice(),
        material.key.as_slice(),
        material.iv.as_slice(),
    ) {
        Ok(bytes) => bytes,
        Err(e) => {
            return Err(Error::Deserialize(DecodeFailure::Cipher(e)));
        },
    };
    let ghost bytes = decrypted@;
    match string_from_utf8(decrypted) {
        Err(_) => Err(Error::Deserialize(DecodeFailure::Utf8)),
        Ok(text) => {
            let kept = strip_trailing_nul(text.as_str());
            proof {
                vstd::utf8::decode_utf8_encode_utf8(bytes);
                vstd::utf8::encode_utf8_decode_utf8(kept@);
            }
            Ok(String::from_str(kept))
        },
    }
}

/// The server's encrypted reply: the data, sealed under a password, and that
/// password, encrypted under the caller's public key; both in base64.
#[derive(Default, Debug, Clone, PartialEq, Eq)]
pub struct KudaResponse {
    pub data: String,
    pub password: String,
}

/// Whether an HTTP status reports success: the codes from 200 to 299.
pub open spec fn is_success(status: u16) -> bool {
    200 <= status < 300
}

/// The string value of the first member called `name`, if it has one.
pub open spec fn text_member(members: Seq<MemberView>, name: Seq<char>) -> Option<Seq<char>> {
    match member_named(members, name) {
        Some(member) => member.text,
        None => None,
    }
}

/// The two fields of the reply in `body`, or the words that say why `body`
/// is no reply: those of the parser, or which field is not there as a string.
pub open spec fn reply_of(body: Seq<u8>) -> Result<(Seq<char>, Seq<char>), Seq<char>> {
    match json_object(body) {
        Err(message) => Err(message),
        Ok(members) => match text_member(members, "data"@) {
            None => Err("missing string `data`"@),
            Some(data) => match text_member(members, "password"@) {
                None => Err("missing string `password`"@),
                Some(password) => Ok((data, password)),
            },
        },
    }
}

/// The error that the server reports in `body` with the status `status`.
/// Where `body` is no JSON object, or its `message` is no string, the message
/// says so; a `message` that is not there is empty; `data` is the JSON text
/// of that member, unless it is not there or `null`.
pub open spec fn request_error_of(status: u16, body: Seq<u8>) -> RequestErrorView {
    match json_object(body) {
        Err(message) => RequestErrorView {
            http_status: status,
            message: "failed to deserialize error: "@ + message,
            data: None,
        },
        Ok(members) => match member_named(members, "message"@) {
            Some(member) => match member.text {
                None => RequestErrorView {
                    http_status: status,
                    message: "failed to deserialize error: `message` is no string"@,
                    data: None,
                },
                Some(text) => RequestErrorView {
                    http_status: status,
                    message: text,
                    data: details_of(members),
                },
            },
            None => RequestErrorView {
                http_status: status,
                message: Seq::<char>::empty(),
                data: details_of(members),
            },
        },
    }
}

/// The JSON text of the member `data`, unless it is not there or `null`.
pub open spec fn details_of(members: Seq<MemberView>) -> Option<Seq<char>> {
    match member_named(members, "data"@) {
        Some(member) => if member.json == "null"@ {
            None
        } else {
            Some(member.json)
        },
        None => None,
    }
}

/// What opening the reply `(data, password)` under the private key in `pem`
/// may give: the error at which `rsa_decrypt` stopped, the error of a key
/// derivation that did not run, or what `data` is opened to under the
/// decrypted password without the NUL characters at its end.
pub open spec fn unsealed(data: Seq<char>, password: Seq<char>, pem: Seq<u8>, r: Result<
    Seq<char>,
    Error,
>) -> bool {
    exists|first: Result<Seq<char>, Error>|
        #![trigger rsa_decrypt_gives(password, pem, first)]
        {
            &&& rsa_decrypt_gives(password, pem, first)
            &&& match first {
                Err(e) => r == Err::<Seq<char>, Error>(e),
                Ok(text) => r == Err::<Seq<char>, Error>(no_key()) || r == opened(
                    data,
                    strip_text(text),
                ),
            }
        }
}

/// What `decode` returns for a response: for a status that reports no
/// success the error in the body, for a body that is no reply the words that
/// say why, and else what the reply is opened to.
pub open spec fn decoded(
    status: u16,
    body: Seq<u8>,
    pem: Seq<u8>,
    r: Result<String, Error>,
) -> bool {
    if !is_success(status) {
        r matches Err(Error::Kuda(e)) && e@ == request_error_of(status, body)
    } else {
        match reply_of(body) {
            Err(message) => r matches Err(Error::Deserialize(DecodeFailure::Json(text))) && text@
                == message,
            Ok((data, password)) => unsealed(data, password, pem, text_result(r)),
        }
    }
}

/// Tells whether an HTTP status reports success.
pub fn status_is_success(status: u16) -> (r: bool)
    ensures
        r == is_success(status),
{
    200 <= status && status < 300
}

/// Copies the string value of the first member called `name`.
fn text_of(members: &Vec<Member>, name: &str) -> (r: Option<String>)
    ensures
        match r {
            Some(text) => text_member(members_view(members@), name@) == Some(text@),
            None => text_member(members_view(members@), name@) is None,
        },
{
    match find_member(members, name) {
        Some(member) => match &member.text {
            Some(text) => Some(text.clone()),
            None => None,
        },
        None => None,
    }
}

/// Copies the JSON text of the member `data`, unless it is not there or `null`.
fn details(members: &Vec<Member>) -> (r: Option<String>)
    ensures
        match r {
            Some(text) => details_of(members_view(members@)) == Some(text@),
            None => details_of(members_view(members@)) is None,
        },
{
    match find_member(members, "data") {
        Some(member) => if same_text(member.json.as_str(), "null") {
            None
        } else {
            Some(member.json.clone())
        },
        None => None,
    }
}

impl KudaResponse {
    /// Reads the reply from the body of a response.
    pub fn from_json(body: &[u8]) -> (r: Result<KudaResponse, Error>)
        ensures
            match reply_of(body@) {
                Ok((data, password)) => r matches Ok(reply) && reply.data@ == data
                    && reply.password@ == password,
                Err(message) => r matches Err(Error::Deserialize(DecodeFailure::Json(text)))
                    && text@ == message,
            },
    {
        let members = match read_object(body) {
            Ok(members) => members,
            Err(message) => {
                return Err(Error::Deserialize(DecodeFailure::Json(message)));
            },
        };
        let data = match text_of(&members, "data") {
            Some(data) => data,
            None => {
                let words = String::from_str("missing string `data`");
                return Err(Error::Deserialize(DecodeFailure::Json(words)));
            },
        };
        let password = match text_of(&members, "password") {
            Some(password) => password,
            None => {
                let words = String::from_str("missing string `password`");
                return Err(Error::Deserialize(DecodeFailure::Json(words)));
            },
        };
        Ok(KudaResponse { data, password })
    }
}

/// Reads the error that the server reports in the body of a response with
/// the status `status`.
pub fn request_error(status: u16, body: &[u8]) -> (r: RequestError)
    ensures
        r@ == request_error_of(status, body@),
{
    let members = match read_object(body) {
        Ok(members) => members,
        Err(words) => {
            let mut message = String::from_str("failed to deserialize error: ");
            message.append(words.as_str());
            return RequestError { http_status: status, message, data: None };
        },
    };
    match find_member(&members, "message") {
        Some(member) => match &member.text {
            None => RequestError {
                http_status: status,
                message: String::from_str("failed to deserialize error: `message` is no string"),
                data: None,
            },
            Some(text) => RequestError {
                http_status: status,
                message: text.clone(),
                data: details(&members),
            },
        },
        None => RequestError {
            http_status: status,
            message: String::new(),
            data: details(&members),
        },
    }
}

/// Opens the response of the server: fails with the error that the body
/// reports where the status reports no success, and else reads the reply,
/// decrypts its password under the caller's private key, and opens its data
/// under the key material of that password.
pub fn decode(status: u16, body: &[u8], private_key: &str) -> (r: Result<String, Error>)
    ensures
        decoded(status, body@, private_key.spec_bytes(), r),
{
    if !status_is_success(status) {
        return Err(Error::Kuda(request_error(status, body)));
    }
    let encrypted_response = KudaResponse::from_json(body)?;
    let decrypted_password = rsa_decrypt(encrypted_response.password, private_key)?;
    let password = strip_trailing_nul(decrypted_password.as_str());
    proof {
        vstd::utf8::encode_utf8_decode_utf8(password@);
    }
    unseal(encrypted_response.data.as_str(), password)
}

/// Whoever opens `data` with the encrypted password `header` under the
/// private key in `pem` gets `plaintext`, unless OpenSSL refuses to read the
/// key, to decrypt or to derive the key material.
pub open spec fn opens_to(
    data: Seq<char>,
    header: Seq<char>,
    pem: Seq<u8>,
    plaintext: Seq<char>,
) -> bool {
    forall|outcome: Result<Seq<char>, Error>| #[trigger]
        unsealed(data, header, pem, outcome) ==> {
            ||| outcome == Ok::<Seq<char>, Error>(plaintext)
            ||| outcome == Err::<Seq<char>, Error>(
                Error::Configuration(ConfigurationError::PrivateKey),
            )
            ||| outcome == Err::<Seq<char>, Error>(Error::Deserialize(DecodeFailure::Rsa))
            ||| outcome == Err::<Seq<char>, Error>(no_key())
        }
}

/// The bytes of `text` do not end in NUL, so that stripping leaves it whole.
pub open spec fn ends_without_nul(text: Seq<char>) -> bool {
    encode_utf8(text).len() == 0 || encode_utf8(text).last() != NUL
}

/// Text that does not end in NUL is left as it is.
pub proof fn lemma_strip_text_keeps(text: Seq<char>)
    requires
        ends_without_nul(text),
    ensures
        strip_text(text) == text,
{
    crate::text::lemma_strip_nul_keeps(encode_utf8(text));
    vstd::utf8::encode_utf8_decode_utf8(text);
}

/// Round trip: what was sealed for a server is opened to itself by the one
/// who holds the private key that belongs to the server's public key.
///
/// `data` and `header` are the sealed plaintext and the encrypted password of
/// an envelope made for `plaintext` under `password`; `outcome` is what
/// opening a reply with these two fields gave. Then `outcome` is the
/// plaintext, unless OpenSSL refused to read the private key, to decrypt or
/// to derive the key material. The law leaves out plaintexts and passwords
/// that end in NUL, which opening strips.
pub proof fn lemma_round_trip(
    plaintext: Seq<char>,
    password: Seq<char>,
    public_pem: Seq<u8>,
    private_pem: Seq<u8>,
    data: Seq<char>,
    header: Seq<char>,
    outcome: Result<Seq<char>, Error>,
)
    requires
        valid_key_pair(public_pem, private_pem),
        ends_without_nul(plaintext),
        ends_without_nul(password),
        sealed(plaintext, password, Ok::<Seq<char>, Error>(data)),
        rsa_encrypt_gives(password, public_pem, Ok::<Seq<char>, Error>(header)),
        unsealed(data, header, private_pem, outcome),
    ensures
        outcome == Ok::<Seq<char>, Error>(plaintext) || outcome == Err::<Seq<char>, Error>(
            Error::Configuration(ConfigurationError::PrivateKey),
        ) || outcome == Err::<Seq<char>, Error>(Error::Deserialize(DecodeFailure::Rsa)) || outcome
            == Err::<Seq<char>, Error>(no_key()),
{
    lemma_strip_text_keeps(plaintext);
    lemma_strip_text_keeps(password);
    vstd::utf8::encode_utf8_valid_utf8(password);
    vstd::utf8::encode_utf8_decode_utf8(password);
}

} // verus!
