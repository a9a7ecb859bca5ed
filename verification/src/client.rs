use crate::encryption::aes::MAX_INPUT_LEN;
use crate::encryption::rsa::{
    check_private_key, check_public_key, private_key_checked, public_key_checked, rsa_encrypt,
    rsa_encrypt_gives, valid_key_pair,
};
use crate::envelope::{
    decode, decoded, lemma_round_trip, no_key, opens_to, seal, sealed, unsealed,
};
use crate::error::{ConfigurationError, DecodeFailure, Error};
use crate::json::{json_string_literal, string_literal};
use crate::params::{request_json, Headers, Request};
use crate::text::{
    leading_slashes, lemma_last_byte, push_char, strip_leading_slashes, to_upper, to_uppercase,
    upper,
};
use rand::Rng;
use std::sync::Arc;
use vstd::prelude::*;
use vstd::string::StringExecFns;
use vstd::utf8::encode_utf8;

verus! {

/// The content type of every request.
pub const CONTENT_TYPE: &'static str = "application/json";

/// The name of the header that carries the encrypted one-time password.
pub const PASSWORD_HEADER: &'static str = "password";

/// How many random characters end a one-time password.
pub const SUFFIX_LEN: usize = 7;

/// How many characters an identifier of the generator has.
pub const ID_LEN: usize = 20;

/// The generator of identifiers of `libxid`.
#[verifier::external_type_specification]
#[verifier::external_body]
pub struct ExGenerator(libxid::Generator);

/// The error of that generator.
#[verifier::external_type_specification]
#[verifier::external_body]
pub struct ExIDGenerationError(libxid::IDGenerationError);

/// A byte that is an ASCII letter or digit.
pub open spec fn is_alphanumeric(b: u8) -> bool {
    ||| 0x30 <= b <= 0x39
    ||| 0x41 <= b <= 0x5a
    ||| 0x61 <= b <= 0x7a
}

/// A capital ASCII letter or a digit.
pub open spec fn is_upper_alphanumeric(c: char) -> bool {
    ||| '0' <= c <= '9'
    ||| 'A' <= c <= 'Z'
}

/// A character that a client key is made of: an ASCII letter, a digit, `_` or `-`.
pub open spec fn is_key_char(c: char) -> bool {
    ||| '0' <= c <= '9'
    ||| 'A' <= c <= 'Z'
    ||| 'a' <= c <= 'z'
    ||| c == '_'
    ||| c == '-'
}

/// A digit of base 32 as the generator writes it: `0` to `9`, `a` to `v`.
pub open spec fn is_base32(c: char) -> bool {
    ||| '0' <= c <= '9'
    ||| 'a' <= c <= 'v'
}

/// A digit of base 32 in capitals: `0` to `9`, `A` to `V`.
pub open spec fn is_upper_base32(c: char) -> bool {
    ||| '0' <= c <= '9'
    ||| 'A' <= c <= 'V'
}

/// An identifier as the generator writes it: twenty digits of base 32.
pub open spec fn is_xid(text: Seq<char>) -> bool {
    &&& text.len() == ID_LEN
    &&& forall|i: int| 0 <= i < text.len() ==> is_base32(#[trigger] text[i])
}

/// A correlation id: `SP-`, then twenty digits of base 32 in capitals.
pub open spec fn is_request_ref(text: Seq<char>) -> bool {
    &&& text.len() == ID_LEN + 3
    &&& text[0] == 'S'
    &&& text[1] == 'P'
    &&& text[2] == '-'
    &&& forall|i: int| 3 <= i < text.len() ==> is_upper_base32(#[trigger] text[i])
}

/// A one-time password of a client key: the key, a hyphen, and seven capital
/// letters or digits.
pub open spec fn is_password_for(client_key: Seq<char>, password: Seq<char>) -> bool {
    &&& password.len() == client_key.len() + 1 + SUFFIX_LEN
    &&& password.subrange(0, client_key.len() as int) == client_key
    &&& password[client_key.len() as int] == '-'
    &&& forall|i: int|
        client_key.len() < i < password.len() ==> is_upper_alphanumeric(#[trigger] password[i])
}

/// The one-time password made of a client key and drawn bytes: the key, a
/// hyphen, and the characters of the bytes in capitals.
pub open spec fn password_text(client_key: Seq<char>, drawn: Seq<u8>) -> Seq<char> {
    client_key + "-"@ + drawn.map_values(|b: u8| upper(b as char))
}

/// The correlation id made of an identifier: `SP-` and the identifier in
/// capitals.
pub open spec fn request_ref_text(id: Seq<char>) -> Seq<char> {
    "SP-"@ + id.map_values(|c: char| upper(c))
}

/// Seven drawn letters or digits make a one-time password of the client key.
pub proof fn lemma_password_text(client_key: Seq<char>, drawn: Seq<u8>)
    requires
        drawn.len() == SUFFIX_LEN,
        forall|i: int| 0 <= i < drawn.len() ==> is_alphanumeric(#[trigger] drawn[i]),
    ensures
        is_password_for(client_key, password_text(client_key, drawn)),
{
    reveal_strlit("-");
    let password = password_text(client_key, drawn);
    assert(password.subrange(0, client_key.len() as int) == client_key);
    assert forall|i: int| client_key.len() < i < password.len() implies is_upper_alphanumeric(
        #[trigger] password[i],
    ) by {
        assert(is_alphanumeric(drawn[i - client_key.len() - 1]));
    }
}

/// An identifier of the generator makes a correlation id.
pub proof fn lemma_request_ref_text(id: Seq<char>)
    requires
        is_xid(id),
    ensures
        is_request_ref(request_ref_text(id)),
{
    reveal_strlit("SP-");
    let text = request_ref_text(id);
    assert forall|i: int| 3 <= i < text.len() implies is_upper_base32(#[trigger] text[i]) by {
        assert(is_base32(id[i - 3]));
    }
}

/// The shape `^[A-Za-z0-9_-]+-[A-Z0-9]{7}$`: at least one key character, a
/// hyphen, and exactly seven capital letters or digits.
pub open spec fn matches_password_format(password: Seq<char>) -> bool {
    &&& password.len() >= 2 + SUFFIX_LEN
    &&& forall|i: int|
        0 <= i < password.len() - 1 - SUFFIX_LEN ==> is_key_char(#[trigger] password[i])
    &&& password[password.len() - 1 - SUFFIX_LEN] == '-'
    &&& forall|i: int|
        password.len() - SUFFIX_LEN <= i < password.len() ==> is_upper_alphanumeric(
            #[trigger] password[i],
        )
}

/// Password format: the one-time password of a client key that is made of
/// at least one letter, digit, `_` or `-` has the shape
/// `^[A-Za-z0-9_-]+-[A-Z0-9]{7}$`.
pub proof fn lemma_password_format(client_key: Seq<char>, password: Seq<char>)
    requires
        client_key.len() > 0,
        forall|i: int| 0 <= i < client_key.len() ==> is_key_char(#[trigger] client_key[i]),
        is_password_for(client_key, password),
    ensures
        matches_password_format(password),
{
    assert forall|i: int| 0 <= i < password.len() - 1 - SUFFIX_LEN implies is_key_char(
        #[trigger] password[i],
    ) by {
        assert(is_key_char(client_key[i]));
    }
}

/// The address of a path on a host: the host, one slash, and the path
/// without the slashes it starts with.
pub open spec fn url_of(host: Seq<char>, path: Seq<char>) -> Seq<char> {
    host + "/"@ + path.skip(leading_slashes(path) as int)
}

/// The body of a request that carries `data`: a JSON object with that one member.
pub open spec fn body_json(data: Seq<char>) -> Seq<char> {
    "{\"data\":"@ + json_string_literal(data) + "}"@
}

/// Calls `libxid::new_generator`, which reads the machine's identity and
/// draws the start of its counter; nothing is claimed of it. It panics on a
/// machine whose host name is no UTF-8, or that offers no randomness.
#[verifier::external_body]
fn new_generator() -> libxid::Generator {
    libxid::new_generator()
}

/// Calls `Generator::new_id` and `ID::encode`. The identifier depends on the
/// clock, the machine and the counter; the contract claims its shape only.
#[verifier::external_body]
fn next_id(generator: &libxid::Generator) -> (r: Result<String, libxid::IDGenerationError>)
    ensures
        r matches Ok(id) ==> is_xid(id@),
{
    generator.new_id().map(|id| id.encode())
}

/// Draws `count` bytes from `rand::distributions::Alphanumeric` with
/// `rand::thread_rng`. The contract claims only what holds of every draw:
/// each byte is an ASCII letter or digit. It panics on a machine that offers
/// no randomness.
#[verifier::external_body]
fn random_alphanumeric(count: usize) -> (r: Vec<u8>)
    ensures
        r@.len() == count,
        forall|i: int| 0 <= i < r@.len() ==> is_alphanumeric(#[trigger] r@[i]),
{
    rand::thread_rng().sample_iter(&rand::distributions::Alphanumeric).take(count).collect()
}

/// A request ready to be sent: its address, its body, and the header that
/// carries the encrypted one-time password.
#[derive(Debug, Clone, PartialEq, Eq)]
pub struct Envelope {
    /// Where the request goes.
    pub url: String,
    /// The body: a JSON object whose `data` is the sealed request.
    pub body: String,
    /// The value of the header `password`: the one-time password, encrypted
    /// under the server's public key, in base64.
    pub password: String,
}

/// What making an envelope for `plaintext` under `password` and the public
/// key in `pem` may give. A password too long for the key derivation gives
/// the error of a derivation that did not run. Else an envelope holds the
/// address, the body around the sealed plaintext, and one of the encryptions
/// of the password; and an error is that of a key derivation that did not
/// run, that at which the sealing stopped, or that at which the encryption
/// of the password stopped.
pub open spec fn enveloped(
    url: Seq<char>,
    plaintext: Seq<char>,
    password: Seq<char>,
    pem: Seq<u8>,
    r: Result<Envelope, Error>,
) -> bool {
    if encode_utf8(password).len() > MAX_INPUT_LEN {
        r matches Err(e) && e == no_key()
    } else {
        match r {
            Ok(envelope) => exists|data: Seq<char>|
                #![trigger body_json(data)]
                {
                    &&& envelope.url@ == url
                    &&& sealed(plaintext, password, Ok::<Seq<char>, Error>(data))
                    &&& envelope.body@ == body_json(data)
                    &&& rsa_encrypt_gives(
                        password,
                        pem,
                        Ok::<Seq<char>, Error>(envelope.password@),
                    )
                },
            Err(e) => {
                ||| e == no_key()
                ||| sealed(plaintext, password, Err::<Seq<char>, Error>(e))
                ||| rsa_encrypt_gives(password, pem, Err::<Seq<char>, Error>(e))
            },
        }
    }
}

/// Round trip of a request: what `post_body` made for a server is opened to
/// the request by the one who holds the private key that belongs to the
/// server's public key. The body of the envelope carries sealed data that,
/// opened with the header of the envelope, give the JSON document of the
/// operation, a correlation id and the payload, unless OpenSSL refuses.
pub proof fn lemma_posted_round_trip(
    client: Client,
    path: Seq<char>,
    service_type: Seq<char>,
    body: Option<Seq<char>>,
    private_pem: Seq<u8>,
    envelope: Envelope,
)
    requires
        valid_key_pair(encode_utf8(client.public_key()), private_pem),
        client.posted(path, service_type, body, Ok::<Envelope, Error>(envelope)),
    ensures
        exists|request_ref: Seq<char>, data: Seq<char>|
            #![trigger request_json(service_type, request_ref, body), body_json(data)]
            {
                &&& is_request_ref(request_ref)
                &&& envelope.body@ == body_json(data)
                &&& opens_to(
                    data,
                    envelope.password@,
                    private_pem,
                    request_json(service_type, request_ref, body),
                )
            },
{
    let public_pem = encode_utf8(client.public_key());
    let r = Ok::<Envelope, Error>(envelope);
    let (request_ref, password) = choose|request_ref: Seq<char>, password: Seq<char>|
        #![trigger
            is_request_ref(request_ref),
            is_password_for(client.client_key(), password),
        ]
        {
            &&& is_request_ref(request_ref)
            &&& is_password_for(client.client_key(), password)
            &&& enveloped(
                url_of(client.host(), path),
                request_json(service_type, request_ref, body),
                password,
                public_pem,
                r,
            )
        };
    let plaintext = request_json(service_type, request_ref, body);
    let data = choose|data: Seq<char>|
        #![trigger body_json(data)]
        {
            &&& envelope.url@ == url_of(client.host(), path)
            &&& sealed(plaintext, password, Ok::<Seq<char>, Error>(data))
            &&& envelope.body@ == body_json(data)
            &&& rsa_encrypt_gives(password, public_pem, Ok::<Seq<char>, Error>(envelope.password@))
        };
    reveal_strlit("}");
    assert(plaintext.last() == '}');
    lemma_last_byte(plaintext);
    assert(is_upper_alphanumeric(password[password.len() - 1]));
    lemma_last_byte(password);
    assert forall|outcome: Result<Seq<char>, Error>| #[trigger]
        unsealed(data, envelope.password@, private_pem, outcome) implies {
        ||| outcome == Ok::<Seq<char>, Error>(plaintext)
        ||| outcome == Err::<Seq<char>, Error>(Error::Configuration(ConfigurationError::PrivateKey))
        ||| outcome == Err::<Seq<char>, Error>(Error::Deserialize(DecodeFailure::Rsa))
        ||| outcome == Err::<Seq<char>, Error>(no_key())
    } by {
        lemma_round_trip(
            plaintext,
            password,
            public_pem,
            private_pem,
            data,
            envelope.password@,
            outcome,
        );
    }
    assert(opens_to(data, envelope.password@, private_pem, plaintext));
}

/// The caller's side of the exchange: where the server is, the keys, and the
/// generator of correlation ids, which the copies of a client share.
#[derive(Clone)]
pub struct Client {
    host: String,
    private_key: String,
    public_key: String,
    client_key: String,
    headers: Headers,
    generator: Arc<libxid::Generator>,
}

impl Client {
    /// The address of the server.
    pub closed spec fn host(&self) -> Seq<char> {
        self.host@
    }

    /// The caller's private key, as PEM.
    pub closed spec fn private_key(&self) -> Seq<char> {
        self.private_key@
    }

    /// The server's public key, as PEM.
    pub closed spec fn public_key(&self) -> Seq<char> {
        self.public_key@
    }

    /// The key that starts every one-time password.
    pub closed spec fn client_key(&self) -> Seq<char> {
        self.client_key@
    }

    /// Creates a new client.
    pub fn new(
        scheme_host: String,
        private_key: String,
        public_key: String,
        client_key: String,
    ) -> (r: Client)
        ensures
            r.host() == scheme_host@,
            r.private_key() == private_key@,
            r.public_key() == public_key@,
            r.client_key() == client_key@,
    {
        Client::from_url(scheme_host, private_key, public_key, client_key)
    }

    /// Creates a new client posted to a custom `scheme://host/`.
    pub fn from_url(
        scheme_host: String,
        private_key: String,
        public_key: String,
        client_key: String,
    ) -> (r: Client)
        ensures
            r.host() == scheme_host@,
            r.private_key() == private_key@,
            r.public_key() == public_key@,
            r.client_key() == client_key@,
    {
        Client {
            host: scheme_host,
            private_key,
            public_key,
            client_key,
            headers: Headers {  },
            generator: Arc::new(new_generator()),
        }
    }

    /// Creates a new client, unless one of its keys is malformed: the keys
    /// are read once, so that a key that OpenSSL does not take is found here
    /// and not at the first request.
    pub fn try_new(
        scheme_host: String,
        private_key: String,
        public_key: String,
        client_key: String,
    ) -> (r: Result<Client, Error>)
        ensures
            match r {
                Ok(client) => {
                    &&& client.host() == scheme_host@
                    &&& client.private_key() == private_key@
                    &&& client.public_key() == public_key@
                    &&& client.client_key() == client_key@
                    &&& private_key_checked(encode_utf8(private_key@), Ok::<(), Error>(()))
                    &&& public_key_checked(encode_utf8(public_key@), Ok::<(), Error>(()))
                },
                Err(e) => {
                    ||| private_key_checked(encode_utf8(private_key@), Err::<(), Error>(e))
                    ||| private_key_checked(encode_utf8(private_key@), Ok::<(), Error>(()))
                        && public_key_checked(encode_utf8(public_key@), Err::<(), Error>(e))
                },
            },
    {
        check_private_key(private_key.as_str())?;
        check_public_key(public_key.as_str())?;
        Ok(Client::from_url(scheme_host, private_key, public_key, client_key))
    }

    /// The headers that go out with every request, beyond those of the envelope.
    pub fn headers(&self) -> (r: Headers)
        ensures
            r == (Headers {  }),
    {
        self.headers
    }

    /// The address of a path on the server.
    pub fn url(&self, path: &str) -> (r: String)
        ensures
            r@ == url_of(self.host(), path@),
    {
        let mut url = self.host.clone();
        url.append("/");
        url.append(strip_leading_slashes(path));
        url
    }

    /// Makes the envelope of a request under a given one-time password: the
    /// request is written as JSON and sealed under the key material of the
    /// password, and the password is encrypted under the server's public key.
    pub fn envelope(&self, path: &str, request: &Request<String>, password: &str) -> (r: Result<
        Envelope,
        Error,
    >)
        ensures
            enveloped(
                url_of(self.host(), path@),
                request_json(request.service_type@, request.request_ref@, request.payload()),
                password@,
                encode_utf8(self.public_key()),
                r,
            ),
    {
        let url = self.url(path);
        let payload = request.to_json()?;
        let data = seal(payload.as_str(), password)?;
        let encrypted_password = rsa_encrypt(password, self.public_key.as_str())?;
        let literal = string_literal(data.as_str())?;
        let mut body = String::from_str("{\"data\":");
        body.append(literal.as_str());
        body.append("}");
        assert(body@ == body_json(data@));
        Ok(Envelope { url, body, password: encrypted_password })
    }

    /// What posting the payload `body` for the operation `service_type` may
    /// give: the error of the generator, or what making an envelope gives for
    /// a request with that operation, some correlation id and that payload,
    /// if there is one, under some one-time password of the client key.
    pub open spec fn posted(
        &self,
        path: Seq<char>,
        service_type: Seq<char>,
        body: Option<Seq<char>>,
        r: Result<Envelope, Error>,
    ) -> bool {
        ||| r matches Err(e) && e == Error::Configuration(ConfigurationError::Generator)
        ||| exists|request_ref: Seq<char>, password: Seq<char>|
            #![trigger
                is_request_ref(request_ref),
                is_password_for(self.client_key(), password),
            ]
            {
                &&& is_request_ref(request_ref)
                &&& is_password_for(self.client_key(), password)
                &&& enveloped(
                    url_of(self.host(), path),
                    request_json(service_type, request_ref, body),
                    password,
                    encode_utf8(self.public_key()),
                    r,
                )
            }
    }

    /// Makes the envelope of a `POST` request: `body` is the JSON text of the
    /// payload, where the request has one; a request without payload is
    /// written without the member `data`. The request gets a fresh
    /// correlation id and is sealed under a fresh one-time password.
    pub fn post_body(&self, path: &str, service_type: &str, body: Option<&str>) -> (r: Result<
        Envelope,
        Error,
    >)
        ensures
            self.posted(
                path@,
                service_type@,
                match body {
                    Some(payload) => Some(payload@),
                    None => None,
                },
                r,
            ),
    {
        let req = Request {
            service_type: String::from_str(service_type),
            request_ref: self.request_ref()?,
            data: match body {
                Some(payload) => Some(String::from_str(payload)),
                None => None,
            },
        };
        let password = self.password();
        self.envelope(path, &req, password.as_str())
    }

    /// Opens the response to a request: `status` is its HTTP status and
    /// `body` its body. The reply is opened under the caller's private key.
    pub fn decode(&self, status: u16, body: &[u8]) -> (r: Result<String, Error>)
        ensures
            decoded(status, body@, encode_utf8(self.private_key()), r),
    {
        decode(status, body, self.private_key.as_str())
    }

    /// Makes a fresh correlation id: `SP-` and the next identifier of the
    /// generator, in capitals. It fails only where the generator does.
    pub fn request_ref(&self) -> (r: Result<String, Error>)
        ensures
            match r {
                Ok(text) => is_request_ref(text@) && exists|id: Seq<char>|
                    is_xid(id) && text@ == #[trigger] request_ref_text(id),
                Err(e) => e == Error::Configuration(ConfigurationError::Generator),
            },
    {
        let id = match next_id(&*self.generator) {
            Ok(id) => id,
            Err(_) => {
                return Err(Error::Configuration(ConfigurationError::Generator));
            },
        };
        proof {
            lemma_request_ref_text(id@);
        }
        Ok(request_ref_of(id.as_str()))
    }

    /// Makes a fresh one-time password: the client key, a hyphen, and seven
    /// random letters or digits, in capitals.
    pub fn password(&self) -> (r: String)
        ensures
            is_password_for(self.client_key(), r@),
            exists|drawn: Seq<u8>|
                drawn.len() == SUFFIX_LEN && r@ == #[trigger] password_text(
                    self.client_key(),
                    drawn,
                ),
    {
        let random = random_alphanumeric(SUFFIX_LEN);
        proof {
            lemma_password_text(self.client_key@, random@);
        }
        password_of(self.client_key.as_str(), random.as_slice())
    }
}

/// Writes the correlation id of an identifier: `SP-` and the identifier in
/// capitals.
pub fn request_ref_of(id: &str) -> (r: String)
    ensures
        r@ == request_ref_text(id@),
{
    let capitals = to_uppercase(id);
    let mut text = String::from_str("SP-");
    text.append(capitals.as_str());
    text
}

/// Writes the one-time password of a client key and drawn bytes: the key, a
/// hyphen, and the characters of the bytes in capitals.
pub fn password_of(client_key: &str, drawn: &[u8]) -> (r: String)
    ensures
        r@ == password_text(client_key@, drawn@),
{
    let mut text = String::from_str(client_key);
    text.append("-");
    let mut i: usize = 0;
    while i < drawn.len()
        invariant
            i <= drawn@.len(),
            text@ == client_key@ + "-"@ + drawn@.subrange(0, i as int).map_values(
                |b: u8| upper(b as char),
            ),
        decreases drawn@.len() - i,
    {
        push_char(&mut text, to_upper(drawn[i] as char));
        i = i + 1;
        assert(text@ =~= client_key@ + "-"@ + drawn@.subrange(0, i as int).map_values(
            |b: u8| upper(b as char),
        ));
    }
    assert(drawn@.subrange(0, drawn@.len() as int) == drawn@);
    text
}

} // verus!
