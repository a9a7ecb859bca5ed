use crate::text::{decimal, push_decimal};
use vstd::prelude::*;
use vstd::string::StringExecFns;

verus! {

/// Why a run of the block cipher stopped without a result.
#[derive(Debug, Clone, Copy, PartialEq, Eq, Structural)]
pub enum CipherError {
    /// The input is not made of whole blocks.
    InvalidLength,
    /// The last block does not end in a well-formed padding.
    InvalidPadding,
    /// The key is not 32 bytes long, or the initialization vector is not 16.
    InvalidKey,
}

/// Key material that cannot be used.
#[derive(Debug, Clone, Copy, PartialEq, Eq, Structural)]
pub enum ConfigurationError {
    /// The caller's private key is no PEM-encoded RSA private key.
    PrivateKey,
    /// The server's public key is no PEM-encoded RSA public key.
    PublicKey,
    /// The key derivation function refused to run.
    KeyDerivation,
    /// The generator of correlation ids could not read the clock.
    Generator,
}

/// The stage at which sealing a request failed.
#[derive(Debug, Clone, Copy, PartialEq, Eq, Structural)]
pub enum EncryptError {
    /// RSA encryption of the one-time password failed.
    Rsa,
    /// The block cipher stopped with an error.
    Cipher(CipherError),
    /// The ciphertext is too long to be written in base64.
    TooLong,
}

/// The stage at which opening a response failed.
#[derive(Debug, Clone, PartialEq, Eq)]
pub enum DecodeFailure {
    /// The text is not the JSON document that was expected; with the parser's words.
    Json(String),
    /// A field is not base64.
    Base64,
    /// RSA decryption of the password failed.
    Rsa,
    /// The block cipher stopped with an error.
    Cipher(CipherError),
    /// The decrypted bytes are not UTF-8.
    Utf8,
}

/// An http or networking error.
#[derive(Debug, Clone, PartialEq, Eq)]
pub enum HttpError {
    /// An error handling HTTP streams, with its message.
    Stream(String),
    /// The request timed out.
    Timeout,
}

/// An error reported by the server in a request's response.
#[derive(Debug, Clone, PartialEq, Eq)]
pub struct RequestError {
    /// The HTTP status in the response.
    pub http_status: u16,
    /// A human-readable message providing more details about the error.
    pub message: String,
    /// Some types of errors also include details: the JSON text of that member.
    pub data: Option<String>,
}

/// A reported error as plain values.
pub ghost struct RequestErrorView {
    pub http_status: u16,
    pub message: Seq<char>,
    pub data: Option<Seq<char>>,
}

impl View for RequestError {
    type V = RequestErrorView;

    open spec fn view(&self) -> RequestErrorView {
        RequestErrorView {
            http_status: self.http_status,
            message: self.message@,
            data: match self.data {
                Some(data) => Some(data@),
                None => None,
            },
        }
    }
}

/// An error encountered when exchanging an envelope with the server.
#[derive(Debug, Clone, PartialEq, Eq)]
pub enum Error {
    /// An error reported by the server in the response body.
    Kuda(RequestError),
    /// An http or networking error communicating with the server.
    Http(HttpError),
    /// An error reading the response body, with its message.
    Io(String),
    /// An error serializing a request before it is sent, with the serializer's words.
    Serialize(String),
    /// An error sealing a serialized request.
    Encrypt(EncryptError),
    /// An error opening or deserializing a response.
    Deserialize(DecodeFailure),
    /// Key material that cannot be used.
    Configuration(ConfigurationError),
    /// Indicates an operation not supported by this library.
    Unsupported(&'static str),
    /// An invariant has been violated.
    Unexpected(&'static str),
}

impl CipherError {
    /// The words for the error.
    pub open spec fn description_of(self) -> Seq<char> {
        match self {
            CipherError::InvalidLength => "invalid length"@,
            CipherError::InvalidPadding => "invalid padding"@,
            CipherError::InvalidKey => "invalid key"@,
        }
    }

    /// The words for the error.
    pub fn description(&self) -> (r: &'static str)
        ensures
            r@ == self.description_of(),
    {
        match self {
            CipherError::InvalidLength => "invalid length",
            CipherError::InvalidPadding => "invalid padding",
            CipherError::InvalidKey => "invalid key",
        }
    }
}

impl ConfigurationError {
    /// The words for the error.
    pub open spec fn description_of(self) -> Seq<char> {
        match self {
            ConfigurationError::PrivateKey => "the private key is no RSA key in PEM"@,
            ConfigurationError::PublicKey => "the public key is no RSA key in PEM"@,
            ConfigurationError::KeyDerivation => "the key derivation did not run"@,
            ConfigurationError::Generator => "the generator of correlation ids failed"@,
        }
    }

    /// The words for the error.
    pub fn description(&self) -> (r: &'static str)
        ensures
            r@ == self.description_of(),
    {
        match self {
            ConfigurationError::PrivateKey => "the private key is no RSA key in PEM",
            ConfigurationError::PublicKey => "the public key is no RSA key in PEM",
            ConfigurationError::KeyDerivation => "the key derivation did not run",
            ConfigurationError::Generator => "the generator of correlation ids failed",
        }
    }
}

impl EncryptError {
    /// The words for the error.
    pub open spec fn description_of(self) -> Seq<char> {
        match self {
            EncryptError::Rsa => "RSA encryption failed"@,
            EncryptError::Cipher(e) => e.description_of(),
            EncryptError::TooLong => "the ciphertext is too long"@,
        }
    }

    /// The words for the error.
    pub fn description(&self) -> (r: &'static str)
        ensures
            r@ == self.description_of(),
    {
        match self {
            EncryptError::Rsa => "RSA encryption failed",
            EncryptError::Cipher(e) => e.description(),
            EncryptError::TooLong => "the ciphertext is too long",
        }
    }
}

impl DecodeFailure {
    /// The words for the failure: those of the parser, or the name of the stage.
    pub open spec fn description_of(self) -> Seq<char> {
        match self {
            DecodeFailure::Json(words) => words@,
            DecodeFailure::Base64 => "invalid base64"@,
            DecodeFailure::Rsa => "RSA decryption failed"@,
            DecodeFailure::Cipher(e) => e.description_of(),
            DecodeFailure::Utf8 => "invalid UTF-8"@,
        }
    }

    /// The words for the failure: those of the parser, or the name of the stage.
    pub fn description(&self) -> (r: &str)
        ensures
            r@ == self.description_of(),
    {
        match self {
            DecodeFailure::Json(words) => words.as_str(),
            DecodeFailure::Base64 => "invalid base64",
            DecodeFailure::Rsa => "RSA decryption failed",
            DecodeFailure::Cipher(e) => e.description(),
            DecodeFailure::Utf8 => "invalid UTF-8",
        }
    }
}

impl HttpError {
    /// The words for the error.
    pub open spec fn description_of(self) -> Seq<char> {
        match self {
            HttpError::Stream(words) => words@,
            HttpError::Timeout => "request timed out"@,
        }
    }

    /// The words for the error.
    pub fn description(&self) -> (r: &str)
        ensures
            r@ == self.description_of(),
    {
        match self {
            HttpError::Stream(words) => words.as_str(),
            HttpError::Timeout => "request timed out",
        }
    }
}

impl RequestError {
    /// The message that the server sent.
    pub fn description(&self) -> (r: &str)
        ensures
            r@ == self.message@,
    {
        self.message.as_str()
    }

    /// The line that shows the error: the status in brackets, then the
    /// details where there are any.
    pub open spec fn line_of(self) -> Seq<char> {
        "("@ + decimal(self.http_status as nat) + ")"@ + match self.data {
            Some(data) => data@,
            None => Seq::<char>::empty(),
        }
    }

    /// The line that shows the error: the status in brackets, then the
    /// details where there are any.
    pub fn line(&self) -> (r: String)
        ensures
            r@ == self.line_of(),
    {
        let mut text = String::from_str("(");
        push_decimal(&mut text, self.http_status as u64);
        text.append(")");
        match &self.data {
            Some(data) => {
                text.append(data.as_str());
            },
            None => {},
        }
        text
    }
}

impl Error {
    /// The error of a request that timed out.
    pub fn timeout() -> (r: Error)
        ensures
            r == Error::Http(HttpError::Timeout),
    {
        Error::Http(HttpError::Timeout)
    }

    /// The error of a request that could not be serialized, with the
    /// serializer's words.
    pub fn serialize(words: String) -> (r: Error)
        ensures
            r == Error::Serialize(words),
    {
        Error::Serialize(words)
    }

    /// The error of a response that could not be opened or deserialized.
    pub fn deserialize(failure: DecodeFailure) -> (r: Error)
        ensures
            r == Error::Deserialize(failure),
    {
        Error::Deserialize(failure)
    }

    /// The words for the kind of the error.
    pub open spec fn description_of(self) -> Seq<char> {
        match self {
            Error::Kuda(_) => "error reported by kuda"@,
            Error::Http(_) => "error communicating with kuda"@,
            Error::Io(_) => "error reading response from kuda"@,
            Error::Serialize(_) => "error serializing a request"@,
            Error::Encrypt(_) => "error sealing a request"@,
            Error::Deserialize(_) => "error deserializing a response"@,
            Error::Configuration(_) => "key material cannot be used"@,
            Error::Unsupported(_) => "an unsupported operation was attempted"@,
            Error::Unexpected(_) => "an unexpected error has occurred"@,
        }
    }

    /// The words for the kind of the error.
    pub fn description(&self) -> (r: &'static str)
        ensures
            r@ == self.description_of(),
    {
        match self {
            Error::Kuda(_) => "error reported by kuda",
            Error::Http(_) => "error communicating with kuda",
            Error::Io(_) => "error reading response from kuda",
            Error::Serialize(_) => "error serializing a request",
            Error::Encrypt(_) => "error sealing a request",
            Error::Deserialize(_) => "error deserializing a response",
            Error::Configuration(_) => "key material cannot be used",
            Error::Unsupported(_) => "an unsupported operation was attempted",
            Error::Unexpected(_) => "an unexpected error has occurred",
        }
    }

    /// What follows the words for the kind in the line that shows the error:
    /// a colon and the line of what lies beneath, or, for the last two kinds,
    /// the words they carry.
    pub open spec fn detail_of(self) -> Seq<char> {
        match self {
            Error::Kuda(e) => ": "@ + e.line_of(),
            Error::Http(e) => ": "@ + e.description_of(),
            Error::Io(words) => ": "@ + words@,
            Error::Serialize(words) => ": "@ + words@,
            Error::Encrypt(e) => ": "@ + e.description_of(),
            Error::Deserialize(e) => ": "@ + e.description_of(),
            Error::Configuration(e) => ": "@ + e.description_of(),
            Error::Unsupported(words) => words@,
            Error::Unexpected(words) => words@,
        }
    }

    /// The line that shows the error: the words for its kind, then its detail.
    pub fn message(&self) -> (r: String)
        ensures
            r@ == self.description_of() + self.detail_of(),
    {
        let mut text = String::from_str(self.description());
        match self {
            Error::Kuda(e) => {
                text.append(": ");
                text.append(e.line().as_str());
            },
            Error::Http(e) => {
                text.append(": ");
                text.append(e.description());
            },
            Error::Io(words) => {
                text.append(": ");
                text.append(words.as_str());
            },
            Error::Serialize(words) => {
                text.append(": ");
                text.append(words.as_str());
            },
            Error::Encrypt(e) => {
                text.append(": ");
                text.append(e.description());
            },
            Error::Deserialize(e) => {
                text.append(": ");
                text.append(e.description());
            },
            Error::Configuration(e) => {
                text.append(": ");
                text.append(e.description());
            },
            Error::Unsupported(words) => {
                text.append(words);
            },
            Error::Unexpected(words) => {
                text.append(words);
            },
        }
        text
    }
}

impl From<RequestError> for Error {
    fn from(err: RequestError) -> (r: Error) {
        Error::Kuda(err)
    }
}

impl vstd::std_specs::convert::FromSpecImpl<RequestError> for Error {
    open spec fn obeys_from_spec() -> bool {
        true
    }

    open spec fn from_spec(err: RequestError) -> Error {
        Error::Kuda(err)
    }
}

/// A result whose text is taken as plain characters.
pub open spec fn text_result(r: Result<String, Error>) -> Result<Seq<char>, Error> {
    match r {
        Ok(text) => Ok(text@),
        Err(e) => Err(e),
    }
}

} // verus!
