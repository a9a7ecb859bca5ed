use crate::encoding::is_base64_of;
use crate::encryption::aes::MAX_INPUT_LEN;
use crate::error::{text_result, ConfigurationError, DecodeFailure, EncryptError, Error};
use crate::text::string_from_utf8;
use openssl::pkey::{Private, Public};
use openssl::rsa::Rsa;
use vstd::prelude::*;
use vstd::string::StringSliceAdditionalSpecFns;
use vstd::utf8::{decode_utf8, encode_utf8, valid_utf8};

verus! {

/// The errors of OpenSSL, as the bindings hand them on.
#[verifier::external_type_specification]
#[verifier::external_body]
pub struct ExErrorStack(openssl::error::ErrorStack);

/// An RSA key of OpenSSL.
#[verifier::external_type_specification]
#[verifier::external_body]
#[verifier::reject_recursive_types(T)]
pub struct ExRsa<T>(openssl::rsa::Rsa<T>);

/// The mark of a key that has its private half.
#[verifier::external_type_specification]
#[verifier::external_body]
pub struct ExPrivate(openssl::pkey::Private);

/// The mark of a key that has only its public half.
#[verifier::external_type_specification]
#[verifier::external_body]
pub struct ExPublic(openssl::pkey::Public);

/// The PEM text that a public key was read from.
pub uninterp spec fn public_key_source(key: Rsa<Public>) -> Seq<u8>;

/// The PEM text that a private key was read from.
pub uninterp spec fn private_key_source(key: Rsa<Private>) -> Seq<u8>;

/// Reading `pem` with `Rsa::public_key_from_pem` came out as `accepted`:
/// with a key, or with an error. The outcome is that of the OpenSSL at hand.
pub uninterp spec fn public_key_read(pem: Seq<u8>, accepted: bool) -> bool;

/// Reading `pem` with `Rsa::private_key_from_pem_passphrase` and an empty
/// passphrase came out as `accepted`: with a key, or with an error. The
/// outcome is that of the OpenSSL at hand.
pub uninterp spec fn private_key_read(pem: Seq<u8>, accepted: bool) -> bool;

/// `cipher` is an encryption of `message` that `Rsa::public_encrypt` gave,
/// with PKCS#1 v1.5 padding, under the public key read from `pem`. The
/// padding is random, so one message has many encryptions.
pub uninterp spec fn rsa_encrypts(pem: Seq<u8>, message: Seq<u8>, cipher: Seq<u8>) -> bool;

/// `message` is what `Rsa::private_decrypt` made of `cipher`, with PKCS#1
/// v1.5 padding, under the private key read from `pem`.
pub uninterp spec fn rsa_decrypts(pem: Seq<u8>, cipher: Seq<u8>, message: Seq<u8>) -> bool;

/// The two keys belong together: what is encrypted under the public one is
/// decrypted to itself under the private one.
pub open spec fn valid_key_pair(public_pem: Seq<u8>, private_pem: Seq<u8>) -> bool {
    forall|message: Seq<u8>, cipher: Seq<u8>, opened: Seq<u8>|
        #[trigger] rsa_encrypts(public_pem, message, cipher) && #[trigger] rsa_decrypts(
            private_pem,
            cipher,
            opened,
        ) ==> opened == message
}

/// Calls `Rsa::public_key_from_pem`, which panics on more bytes than a C
/// `int` counts. The contract records which text was read and how that came
/// out, and which text a key came from.
#[verifier::external_body]
fn read_public_key(pem: &[u8]) -> (r: Result<Rsa<Public>, openssl::error::ErrorStack>)
    requires
        pem@.len() <= MAX_INPUT_LEN,
    ensures
        public_key_read(pem@, r is Ok),
        r matches Ok(key) ==> public_key_source(key) == pem@,
{
    Rsa::public_key_from_pem(pem)
}

/// Calls `Rsa::private_key_from_pem_passphrase` with an empty passphrase, so
/// that OpenSSL asks nobody for the passphrase of a key that is encrypted.
/// The call panics on more bytes than a C `int` counts. The contract records
/// which text was read and how that came out, and which text a key came from.
#[verifier::external_body]
fn read_private_key(pem: &[u8]) -> (r: Result<Rsa<Private>, openssl::error::ErrorStack>)
    requires
        pem@.len() <= MAX_INPUT_LEN,
    ensures
        private_key_read(pem@, r is Ok),
        r matches Ok(key) ==> private_key_source(key) == pem@,
{
    Rsa::private_key_from_pem_passphrase(pem, b"")
}

/// Calls `Rsa::public_encrypt` with `Padding::PKCS1` on a zeroed buffer of
/// `Rsa::size` bytes, and returns the buffer with the count of bytes written.
/// The contract records what was encrypted and under which key.
#[verifier::external_body]
fn public_encrypt(key: &Rsa<Public>, message: &[u8]) -> (r: Result<
    (Vec<u8>, usize),
    openssl::error::ErrorStack,
>)
    requires
        message@.len() <= MAX_INPUT_LEN,
    ensures
        r matches Ok((buffer, written)) ==> written <= buffer@.len() && rsa_encrypts(
            public_key_source(*key),
            message@,
            buffer@.subrange(0, written as int),
        ),
{
    let mut buffer = vec![0; key.size() as usize];
    key.public_encrypt(message, &mut buffer, openssl::rsa::Padding::PKCS1).map(|n| (buffer, n))
}

/// Calls `Rsa::private_decrypt` with `Padding::PKCS1` on a zeroed buffer of
/// `Rsa::size` bytes, and returns the buffer with the count of bytes written.
/// The contract records what was decrypted and under which key.
#[verifier::external_body]
fn private_decrypt(key: &Rsa<Private>, cipher: &[u8]) -> (r: Result<
    (Vec<u8>, usize),
    openssl::error::ErrorStack,
>)
    requires
        cipher@.len() <= MAX_INPUT_LEN,
    ensures
        r matches Ok((buffer, written)) ==> written <= buffer@.len() && rsa_decrypts(
            private_key_source(*key),
            cipher@,
            buffer@.subrange(0, written as int),
        ),
{
    let mut buffer = vec![0; key.size() as usize];
    key.private_decrypt(cipher, &mut buffer, openssl::rsa::Padding::PKCS1).map(|n| (buffer, n))
}

/// What a check of a public key may give: the key is accepted where it is
/// short enough for OpenSSL and reading it came out with a key, and else it
/// is refused.
pub open spec fn public_key_checked(pem: Seq<u8>, r: Result<(), Error>) -> bool {
    match r {
        Ok(_) => pem.len() <= MAX_INPUT_LEN && public_key_read(pem, true),
        Err(e) => e == Error::Configuration(ConfigurationError::PublicKey) && (pem.len()
            > MAX_INPUT_LEN || public_key_read(pem, false)),
    }
}

/// What a check of a private key may give: the key is accepted where it is
/// short enough for OpenSSL and reading it came out with a key, and else it
/// is refused.
pub open spec fn private_key_checked(pem: Seq<u8>, r: Result<(), Error>) -> bool {
    match r {
        Ok(_) => pem.len() <= MAX_INPUT_LEN && private_key_read(pem, true),
        Err(e) => e == Error::Configuration(ConfigurationError::PrivateKey) && (pem.len()
            > MAX_INPUT_LEN || private_key_read(pem, false)),
    }
}

/// Asks OpenSSL to read the server's public key, given as PEM, so that a
/// malformed key is found before the first request.
pub fn check_public_key(public_key: &str) -> (r: Result<(), Error>)
    ensures
        public_key_checked(public_key.spec_bytes(), r),
{
    let pem = public_key.as_bytes();
    if pem.len() > MAX_INPUT_LEN {
        return Err(Error::Configuration(ConfigurationError::PublicKey));
    }
    match read_public_key(pem) {
        Ok(_) => Ok(()),
        Err(_) => Err(Error::Configuration(ConfigurationError::PublicKey)),
    }
}

/// Asks OpenSSL to read the caller's private key, given as PEM, so that a
/// malformed key is found before the first response.
pub fn check_private_key(private_key: &str) -> (r: Result<(), Error>)
    ensures
        private_key_checked(private_key.spec_bytes(), r),
{
    let pem = private_key.as_bytes();
    if pem.len() > MAX_INPUT_LEN {
        return Err(Error::Configuration(ConfigurationError::PrivateKey));
    }
    match read_private_key(pem) {
        Ok(_) => Ok(()),
        Err(_) => Err(Error::Configuration(ConfigurationError::PrivateKey)),
    }
}

/// What `rsa_encrypt` may return. Where the key is too long for OpenSSL, or
/// reading it came out with an error, it is the error of the public key.
/// Where reading came out with a key, it is the error of a password too long
/// for OpenSSL or of an encryption that OpenSSL refused, the error of a
/// ciphertext too long for base64, or the base64 of one of the encryptions
/// of the password.
pub open spec fn rsa_encrypt_gives(password: Seq<char>, pem: Seq<u8>, r: Result<
    Seq<char>,
    Error,
>) -> bool {
    if pem.len() > MAX_INPUT_LEN {
        r == Err::<Seq<char>, Error>(Error::Configuration(ConfigurationError::PublicKey))
    } else if r == Err::<Seq<char>, Error>(Error::Configuration(ConfigurationError::PublicKey)) {
        public_key_read(pem, false)
    } else {
        &&& public_key_read(pem, true)
        &&& if encode_utf8(password).len() > MAX_INPUT_LEN {
            r == Err::<Seq<char>, Error>(Error::Encrypt(EncryptError::Rsa))
        } else {
            match r {
                Err(e) => e == Error::Encrypt(EncryptError::Rsa) || e == Error::Encrypt(
                    EncryptError::TooLong,
                ),
                Ok(text) => exists|cipher: Seq<u8>|
                    #![trigger rsa_encrypts(pem, encode_utf8(password), cipher)]
                    {
                        &&& rsa_encrypts(pem, encode_utf8(password), cipher)
                        &&& is_base64_of(text, cipher)
                        &&& crate::encoding::readable(text) == Some(cipher)
                    },
            }
        }
    }
}

/// Encrypts a password under the server's public key, given as PEM, and
/// writes the ciphertext in base64.
pub fn rsa_encrypt(password: &str, public_key: &str) -> (r: Result<String, Error>)
    ensures
        rsa_encrypt_gives(password@, public_key.spec_bytes(), text_result(r)),
{
    let pem = public_key.as_bytes();
    if pem.len() > MAX_INPUT_LEN {
        return Err(Error::Configuration(ConfigurationError::PublicKey));
    }
    let rsa = match read_public_key(pem) {
        Ok(key) => key,
        Err(_) => {
            return Err(Error::Configuration(ConfigurationError::PublicKey));
        },
    };
    let message = password.as_bytes();
    if message.len() > MAX_INPUT_LEN {
        return Err(Error::Encrypt(EncryptError::Rsa));
    }
    match public_encrypt(&rsa, message) {
        Err(_) => Err(Error::Encrypt(EncryptError::Rsa)),
        Ok((mut buf, written)) => {
            buf.truncate(written);
            match crate::encoding::encode(buf.as_slice()) {
                Some(text) => Ok(text),
                None => Err(Error::Encrypt(EncryptError::TooLong)),
            }
        },
    }
}

/// What `rsa_decrypt` returns for a decryption that came out as `message`.
pub open spec fn decrypted_text(message: Seq<u8>) -> Result<Seq<char>, Error> {
    if valid_utf8(message) {
        Ok(decode_utf8(message))
    } else {
        Err(Error::Deserialize(DecodeFailure::Utf8))
    }
}

/// What `rsa_decrypt` may return. For a text that is no base64 it is that
/// error. Else, where the key is too long for OpenSSL, or reading it came out
/// with an error, it is the error of the private key. Where reading came out
/// with a key, it is the error of a ciphertext too long for OpenSSL or of a
/// decryption that OpenSSL refused, or the text of what the decryption came
/// out as.
pub open spec fn rsa_decrypt_gives(encrypted: Seq<char>, pem: Seq<u8>, r: Result<
    Seq<char>,
    Error,
>) -> bool {
    if crate::encoding::readable(encrypted) is None {
        r == Err::<Seq<char>, Error>(Error::Deserialize(DecodeFailure::Base64))
    } else if pem.len() > MAX_INPUT_LEN {
        r == Err::<Seq<char>, Error>(Error::Configuration(ConfigurationError::PrivateKey))
    } else if r == Err::<Seq<char>, Error>(Error::Configuration(ConfigurationError::PrivateKey)) {
        private_key_read(pem, false)
    } else {
        &&& private_key_read(pem, true)
        &&& {
            ||| r == Err::<Seq<char>, Error>(Error::Deserialize(DecodeFailure::Rsa))
            ||| exists|cipher: Seq<u8>, message: Seq<u8>|
                #![trigger rsa_decrypts(pem, cipher, message)]
                {
                    &&& crate::encoding::readable(encrypted) == Some(cipher)
                    &&& cipher.len() <= MAX_INPUT_LEN
                    &&& rsa_decrypts(pem, cipher, message)
                    &&& r == decrypted_text(message)
                }
        }
    }
}

/// Reads base64, decrypts it under the caller's private key, given as PEM,
/// and reads the plaintext as UTF-8.
pub fn rsa_decrypt(encrypted_data: String, private_key: &str) -> (r: Result<String, Error>)
    ensures
        rsa_decrypt_gives(encrypted_data@, private_key.spec_bytes(), text_result(r)),
{
    let cipher = match crate::encoding::decode(encrypted_data.as_str()) {
        Some(bytes) => bytes,
        None => {
            return Err(Error::Deserialize(DecodeFailure::Base64));
        },
    };
    let pem = private_key.as_bytes();
    if pem.len() > MAX_INPUT_LEN {
        return Err(Error::Configuration(ConfigurationError::PrivateKey));
    }
    let rsa = match read_private_key(pem) {
        Ok(key) => key,
        Err(_) => {
            return Err(Error::Configuration(ConfigurationError::PrivateKey));
        },
    };
    if cipher.len() > MAX_INPUT_LEN {
        return Err(Error::Deserialize(DecodeFailure::Rsa));
    }
    match private_decrypt(&rsa, cipher.as_slice()) {
        Err(_) => Err(Error::Deserialize(DecodeFailure::Rsa)),
        Ok((mut buf, written)) => {
            buf.truncate(written);
            match string_from_utf8(buf) {
                Ok(text) => Ok(text),
                Err(_) => Err(Error::Deserialize(DecodeFailure::Utf8)),
            }
        },
    }
}

} // verus!
