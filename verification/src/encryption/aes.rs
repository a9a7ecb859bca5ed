use crate::error::{CipherError, ConfigurationError, Error};
use vstd::prelude::*;
use vstd::string::StringSliceAdditionalSpecFns;
use vstd::utf8::encode_utf8;

verus! {

/// The length of an AES-256 key, in bytes.
pub const KEY_LEN: usize = 32;

/// The length of an AES block, and so of the initialization vector, in bytes.
pub const IV_LEN: usize = 16;

/// The length of an AES block, in bytes.
pub const BLOCK_LEN: usize = 16;

/// How many bytes of output are taken from the cipher at a time.
pub const CHUNK_LEN: usize = 4096;

/// How many rounds the key derivation runs.
pub const ITERATIONS: usize = 1000;

/// The longest input, in bytes, that the bindings of OpenSSL take.
pub const MAX_INPUT_LEN: usize = 0x7fff_ffff;

/// What `openssl::pkcs5::pbkdf2_hmac` writes for the digest SHA-1: the
/// PBKDF2-HMAC-SHA1 key of `length` bytes.
pub uninterp spec fn pbkdf2_hmac_sha1(
    password: Seq<u8>,
    salt: Seq<u8>,
    iterations: nat,
    length: nat,
) -> Seq<u8>;

/// The salt of every derivation: the bytes of the word `randomsalt`.
pub open spec fn salt() -> Seq<u8> {
    encode_utf8("randomsalt"@)
}

/// The AES key that belongs to a password.
pub open spec fn derived_key(password: Seq<char>) -> Seq<u8> {
    pbkdf2_hmac_sha1(encode_utf8(password), salt(), ITERATIONS as nat, KEY_LEN as nat)
}

/// The initialization vector that belongs to a password: a derivation of its
/// own, with the same inputs and a shorter output.
pub open spec fn derived_iv(password: Seq<char>) -> Seq<u8> {
    pbkdf2_hmac_sha1(encode_utf8(password), salt(), ITERATIONS as nat, IV_LEN as nat)
}

/// Calls `openssl::pkcs5::pbkdf2_hmac` with the digest of
/// `openssl::hash::MessageDigest::sha1` on a zeroed array of `N` bytes. The
/// contract names the key that a successful call leaves there; it leaves open
/// when OpenSSL refuses.
#[verifier::external_body]
fn pbkdf2_sha1<const N: usize>(password: &[u8], salt: &[u8], iterations: usize) -> (r: Result<
    [u8; N],
    openssl::error::ErrorStack,
>)
    requires
        password@.len() <= MAX_INPUT_LEN,
        salt@.len() <= MAX_INPUT_LEN,
        iterations <= MAX_INPUT_LEN,
        N <= MAX_INPUT_LEN,
    ensures
        r matches Ok(key) ==> key@ == pbkdf2_hmac_sha1(
            password@,
            salt@,
            iterations as nat,
            N as nat,
        ),
{
    let mut key = [0u8; N];
    let digest = openssl::hash::MessageDigest::sha1();
    openssl::pkcs5::pbkdf2_hmac(password, salt, iterations, digest, &mut key).map(|_| key)
}

/// The salt is ten bytes long.
proof fn lemma_salt_len()
    ensures
        salt().len() == 10,
{
    reveal_strlit("randomsalt");
    vstd::utf8::is_ascii_chars_encode_utf8("randomsalt"@);
}

/// Derives the 256-bit AES key of a password with PBKDF2-HMAC-SHA1, the fixed
/// salt and 1000 rounds.
pub fn make_derived_key(password: &str) -> (r: Result<[u8; 32], Error>)
    ensures
        password.spec_bytes().len() > MAX_INPUT_LEN ==> r is Err,
        match r {
            Ok(key) => key@ == derived_key(password@),
            Err(e) => e == Error::Configuration(ConfigurationError::KeyDerivation),
        },
{
    let bytes = password.as_bytes();
    if bytes.len() > MAX_INPUT_LEN {
        return Err(Error::Configuration(ConfigurationError::KeyDerivation));
    }
    let salt_bytes = "randomsalt".as_bytes();
    proof {
        lemma_salt_len();
    }
    match pbkdf2_sha1::<32>(bytes, salt_bytes, ITERATIONS) {
        Ok(derived_key) => Ok(derived_key),
        Err(_) => Err(Error::Configuration(ConfigurationError::KeyDerivation)),
    }
}

/// Derives the initialization vector of a password: the same derivation as for
/// the key, asked for 16 bytes.
pub fn make_iv(password: &str) -> (r: Result<[u8; 16], Error>)
    ensures
        password.spec_bytes().len() > MAX_INPUT_LEN ==> r is Err,
        match r {
            Ok(iv) => iv@ == derived_iv(password@),
            Err(e) => e == Error::Configuration(ConfigurationError::KeyDerivation),
        },
{
    let bytes = password.as_bytes();
    if bytes.len() > MAX_INPUT_LEN {
        return Err(Error::Configuration(ConfigurationError::KeyDerivation));
    }
    let salt_bytes = "randomsalt".as_bytes();
    proof {
        lemma_salt_len();
    }
    match pbkdf2_sha1::<16>(bytes, salt_bytes, ITERATIONS) {
        Ok(iv) => Ok(iv),
        Err(_) => Err(Error::Configuration(ConfigurationError::KeyDerivation)),
    }
}

/// The key material of one envelope: the AES key and the initialization
/// vector that belong to its password.
#[derive(Debug, Clone, Copy, PartialEq, Eq)]
pub struct DerivedKeyMaterial {
    pub key: [u8; 32],
    pub iv: [u8; 16],
}

/// `material` is the key material of `password`.
pub open spec fn derives(password: Seq<char>, material: DerivedKeyMaterial) -> bool {
    &&& material.key@ == derived_key(password)
    &&& material.iv@ == derived_iv(password)
}

/// Derives the key material of a password: its key and its initialization
/// vector, each by a derivation of its own.
pub fn derive_key_material(password: &str) -> (r: Result<DerivedKeyMaterial, Error>)
    ensures
        password.spec_bytes().len() > MAX_INPUT_LEN ==> r is Err,
        match r {
            Ok(material) => derives(password@, material),
            Err(e) => e == Error::Configuration(ConfigurationError::KeyDerivation),
        },
{
    let key = make_derived_key(password)?;
    let iv = make_iv(password)?;
    Ok(DerivedKeyMaterial { key, iv })
}

/// Key derivation is deterministic: two derivations from one password give
/// the same key and the same initialization vector.
pub proof fn lemma_derivation_is_deterministic(
    password: Seq<char>,
    first: DerivedKeyMaterial,
    second: DerivedKeyMaterial,
)
    requires
        derives(password, first),
        derives(password, second),
    ensures
        first.key@ == second.key@,
        first.iv@ == second.iv@,
{
}

/// How many bytes of padding follow `len` bytes of data: as many as fill the
/// last block, and a whole block where the data ends on a block.
pub open spec fn padding_len(len: nat) -> nat {
    (BLOCK_LEN - len % (BLOCK_LEN as nat)) as nat
}

/// `data` with its PKCS#7 padding: each byte of the padding holds the length
/// of the padding.
pub open spec fn pkcs7_padded(data: Seq<u8>) -> Seq<u8> {
    data + Seq::new(padding_len(data.len()), |i: int| padding_len(data.len()) as u8)
}

/// Whether `bytes` end in a PKCS#7 padding: the last byte is a length from 1
/// to 16, no more than there are bytes, and that many bytes at the end hold it.
pub open spec fn ends_in_padding(bytes: Seq<u8>) -> bool {
    &&& bytes.len() > 0
    &&& 1 <= bytes.last() <= BLOCK_LEN
    &&& bytes.last() <= bytes.len()
    &&& forall|i: int| bytes.len() - bytes.last() <= i < bytes.len() ==> bytes[i] == bytes.last()
}

/// `bytes` without their PKCS#7 padding, or the error of bytes that do not
/// end in one.
pub open spec fn pkcs7_unpadded(bytes: Seq<u8>) -> Result<Seq<u8>, CipherError> {
    if ends_in_padding(bytes) {
        Ok(bytes.subrange(0, bytes.len() - bytes.last()))
    } else {
        Err(CipherError::InvalidPadding)
    }
}

/// Taking the padding off padded data gives the data.
pub proof fn lemma_unpadded_padded(data: Seq<u8>)
    ensures
        pkcs7_padded(data).len() == data.len() + padding_len(data.len()),
        pkcs7_padded(data).len() % (BLOCK_LEN as nat) == 0,
        pkcs7_unpadded(pkcs7_padded(data)) == Ok::<Seq<u8>, CipherError>(data),
{
    let padded = pkcs7_padded(data);
    assert(padded.last() == padding_len(data.len()) as u8);
    assert(padded.subrange(0, padded.len() - padded.last()) == data);
}

/// A result whose bytes are taken as a sequence.
pub open spec fn bytes_result(r: Result<Vec<u8>, CipherError>) -> Result<Seq<u8>, CipherError> {
    match r {
        Ok(bytes) => Ok(bytes@),
        Err(e) => Err(e),
    }
}

/// Puts the PKCS#7 padding behind `data`, unless their length leaves no room
/// for it.
pub fn pad(data: &[u8]) -> (r: Option<Vec<u8>>)
    ensures
        match r {
            Some(padded) => data@.len() + BLOCK_LEN <= usize::MAX && padded@ == pkcs7_padded(data@),
            None => data@.len() + BLOCK_LEN > usize::MAX,
        },
{
    if data.len() > usize::MAX - BLOCK_LEN {
        return None;
    }
    let count: usize = BLOCK_LEN - data.len() % BLOCK_LEN;
    let mut padded: Vec<u8> = Vec::with_capacity(data.len() + count);
    padded.extend_from_slice(data);
    let mut i: usize = 0;
    while i < count
        invariant
            i <= count,
            count == padding_len(data@.len()),
            padded@ == data@ + Seq::new(i as nat, |j: int| count as u8),
        decreases count - i,
    {
        padded.push(count as u8);
        i = i + 1;
    }
    Some(padded)
}

/// Takes the PKCS#7 padding off `bytes`.
pub fn unpad(bytes: Vec<u8>) -> (r: Result<Vec<u8>, CipherError>)
    ensures
        bytes_result(r) == pkcs7_unpadded(bytes@),
{
    let len = bytes.len();
    if len == 0 {
        return Err(CipherError::InvalidPadding);
    }
    let last = bytes[len - 1];
    let count = last as usize;
    if count == 0 || count > BLOCK_LEN || count > len {
        return Err(CipherError::InvalidPadding);
    }
    let mut i: usize = len - count;
    while i < len
        invariant
            len == bytes@.len(),
            0 < count <= len,
            len - count <= i <= len,
            last == bytes@.last(),
            count == last,
            forall|j: int| len - count <= j < i ==> bytes@[j] == last,
        decreases len - i,
    {
        if bytes[i] != last {
            return Err(CipherError::InvalidPadding);
        }
        i = i + 1;
    }
    let mut kept = bytes;
    kept.truncate(len - count);
    Ok(kept)
}

/// What `crypto::aes::cbc_encryptor` makes of `data` for a 256-bit key
/// without padding: all the bytes that its cipher hands out when it is fed
/// `data` up to its end, or the error that it stops with.
pub uninterp spec fn aes_256_cbc_encryption(key: Seq<u8>, iv: Seq<u8>, data: Seq<u8>) -> Result<
    Seq<u8>,
    CipherError,
>;

/// What `crypto::aes::cbc_decryptor` makes of `data` for a 256-bit key
/// without padding: all the bytes that its cipher hands out when it is fed
/// `data` up to its end, or the error that it stops with.
pub uninterp spec fn aes_256_cbc_decryption(key: Seq<u8>, iv: Seq<u8>, data: Seq<u8>) -> Result<
    Seq<u8>,
    CipherError,
>;

/// What encrypting `data` comes to: what the cipher makes of the padded
/// data, or the error of data too long to be padded.
pub open spec fn padded_encryption(key: Seq<u8>, iv: Seq<u8>, data: Seq<u8>) -> Result<
    Seq<u8>,
    CipherError,
> {
    if data.len() + BLOCK_LEN > usize::MAX {
        Err(CipherError::InvalidLength)
    } else {
        aes_256_cbc_encryption(key, iv, pkcs7_padded(data))
    }
}

/// What decrypting `data` comes to: what the cipher makes of it, without the
/// padding that ends it.
pub open spec fn unpadded_decryption(key: Seq<u8>, iv: Seq<u8>, data: Seq<u8>) -> Result<
    Seq<u8>,
    CipherError,
> {
    match aes_256_cbc_decryption(key, iv, data) {
        Ok(bytes) => pkcs7_unpadded(bytes),
        Err(e) => Err(e),
    }
}

/// A running encryption: the boxed cipher of `crypto` and the reader that
/// keeps its place in the input.
#[verifier::external_body]
pub struct Encryption<'a> {
    cipher: Box<dyn crypto::symmetriccipher::Encryptor + 'static>,
    input: crypto::buffer::RefReadBuffer<'a>,
}

/// A running decryption: the boxed cipher of `crypto` and the reader that
/// keeps its place in the input.
#[verifier::external_body]
pub struct Decryption<'a> {
    cipher: Box<dyn crypto::symmetriccipher::Decryptor + 'static>,
    input: crypto::buffer::RefReadBuffer<'a>,
}

/// What a running encryption comes to from here on: the bytes that it has
/// not handed out yet, or the error that it will stop with.
pub uninterp spec fn encryption_rest(run: Encryption) -> Result<Seq<u8>, CipherError>;

/// How much work a running encryption has left: a bound on the steps that
/// still ask for more room.
pub uninterp spec fn encryption_work(run: Encryption) -> nat;

/// What a running decryption comes to from here on: the bytes that it has
/// not handed out yet, or the error that it will stop with.
pub uninterp spec fn decryption_rest(run: Decryption) -> Result<Seq<u8>, CipherError>;

/// How much work a running decryption has left: a bound on the steps that
/// still ask for more room.
pub uninterp spec fn decryption_work(run: Decryption) -> nat;

/// One step of a run that came to `before` and comes to `after` from now on.
/// The step wrote `n` bytes to the front of `buffer`, and `more` tells
/// whether the run asks for more room. In a run that comes to bytes, the
/// step hands out the next of them, and all that are left where it asks for
/// no more room. A run that comes to an error asks for more room until it
/// stops with that error. A step that asks for more room leaves less work.
pub open spec fn run_step(
    before: Result<Seq<u8>, CipherError>,
    after: Result<Seq<u8>, CipherError>,
    work_before: nat,
    work_after: nat,
    buffer: Seq<u8>,
    step: Result<(usize, bool), CipherError>,
) -> bool {
    match step {
        Err(e) => before == Err::<Seq<u8>, CipherError>(e),
        Ok((n, more)) => {
            &&& n <= buffer.len()
            &&& more ==> work_after < work_before
            &&& match before {
                Ok(rest) => {
                    &&& n <= rest.len()
                    &&& buffer.subrange(0, n as int) == rest.subrange(0, n as int)
                    &&& after == Ok::<Seq<u8>, CipherError>(rest.skip(n as int))
                    &&& !more ==> n == rest.len()
                },
                Err(_) => more && after == before,
            }
        },
    }
}

/// What the cipher without padding comes to on `data`: as many bytes as it
/// was given where these are whole blocks, and the error of a broken block
/// where they are not.
pub open spec fn whole_blocks(data: Seq<u8>, outcome: Result<Seq<u8>, CipherError>) -> bool {
    if data.len() % (BLOCK_LEN as nat) == 0 {
        outcome matches Ok(bytes) && bytes.len() == data.len()
    } else {
        outcome matches Err(e) && e == CipherError::InvalidLength
    }
}

/// What holds while the output of a run is gathered: in a run that comes to
/// the bytes `whole`, what was gathered and what is left make up `whole`.
pub open spec fn gathering(
    whole: Result<Seq<u8>, CipherError>,
    gathered: Seq<u8>,
    rest: Result<Seq<u8>, CipherError>,
) -> bool {
    match whole {
        Ok(bytes) => rest matches Ok(left) && gathered + left == bytes,
        Err(e) => rest == whole,
    }
}

/// Calls `crypto::aes::cbc_encryptor` for a 256-bit key with `NoPadding` and
/// sets a `RefReadBuffer` on `data`. The contract gives what the run comes to
/// a name. It claims that the cipher hands out as many bytes as it is given
/// where these are whole blocks, and stops with the error of a broken block
/// where they are not. It also claims that this cipher is undone by the
/// decrypting one: from the bytes that the run comes to, the decryption
/// under the same key and vector comes to `data`.
#[verifier::external_body]
fn start_encryption<'a>(data: &'a [u8], key: &[u8], iv: &[u8]) -> (run: Encryption<'a>)
    requires
        key@.len() == KEY_LEN,
        iv@.len() == IV_LEN,
    ensures
        encryption_rest(run) == aes_256_cbc_encryption(key@, iv@, data@),
        whole_blocks(data@, encryption_rest(run)),
        encryption_rest(run) matches Ok(bytes) ==> (aes_256_cbc_decryption(key@, iv@, bytes)
            matches Ok(back) && back == data@),
{
    Encryption {
        cipher: crypto::aes::cbc_encryptor(
            crypto::aes::KeySize::KeySize256,
            key,
            iv,
            crypto::blockmodes::NoPadding,
        ),
        input: crypto::buffer::RefReadBuffer::new(data),
    }
}

/// Calls `Encryptor::encrypt` once, at end of input, with a `RefWriteBuffer`
/// on `buffer`, and tells how much was written and whether the cipher
/// reported an overflow. The contract claims that the bytes written are the
/// next ones of the run, and that the cipher reports an overflow only after
/// it has filled the buffer, so that every such step brings the run on.
#[verifier::external_body]
fn encrypt_next(run: &mut Encryption<'_>, buffer: &mut Vec<u8>) -> (step: Result<
    (usize, bool),
    CipherError,
>)
    requires
        old(buffer)@.len() > 0,
    ensures
        final(buffer)@.len() == old(buffer)@.len(),
        run_step(
            encryption_rest(*old(run)),
            encryption_rest(*final(run)),
            encryption_work(*old(run)),
            encryption_work(*final(run)),
            final(buffer)@,
            step,
        ),
{
    let mut output = crypto::buffer::RefWriteBuffer::new(buffer.as_mut_slice());
    let result = run.cipher.encrypt(&mut run.input, &mut output, true);
    let written = crypto::buffer::WriteBuffer::position(&output);
    match result {
        Ok(crypto::buffer::BufferResult::BufferUnderflow) => Ok((written, false)),
        Ok(crypto::buffer::BufferResult::BufferOverflow) => Ok((written, true)),
        Err(crypto::symmetriccipher::SymmetricCipherError::InvalidLength) => Err(
            CipherError::InvalidLength,
        ),
        Err(crypto::symmetriccipher::SymmetricCipherError::InvalidPadding) => Err(
            CipherError::InvalidPadding,
        ),
    }
}

/// What the cipher functions return for keys of a given length: the error of
/// a key or vector of the wrong length, or what the cipher comes to.
pub open spec fn cipher_result(
    key: Seq<u8>,
    iv: Seq<u8>,
    whole: Result<Seq<u8>, CipherError>,
) -> Result<Seq<u8>, CipherError> {
    if key.len() != KEY_LEN || iv.len() != IV_LEN {
        Err(CipherError::InvalidKey)
    } else {
        whole
    }
}

/// Gathers what the cipher without padding makes of `data`, chunk by chunk.
fn encrypt_blocks(data: &[u8], key: &[u8], iv: &[u8]) -> (r: Result<Vec<u8>, CipherError>)
    requires
        key@.len() == KEY_LEN,
        iv@.len() == IV_LEN,
    ensures
        bytes_result(r) == aes_256_cbc_encryption(key@, iv@, data@),
        whole_blocks(data@, bytes_result(r)),
        r matches Ok(bytes) ==> aes_256_cbc_decryption(key@, iv@, bytes@) == Ok::<
            Seq<u8>,
            CipherError,
        >(data@),
{
    let mut final_result: Vec<u8> = Vec::new();
    let mut run = start_encryption(data, key, iv);
    let mut buffer: Vec<u8> = vec![0u8; CHUNK_LEN];
    let ghost whole = aes_256_cbc_encryption(key@, iv@, data@);
    loop
        invariant
            whole == aes_256_cbc_encryption(key@, iv@, data@),
            whole_blocks(data@, whole),
            buffer@.len() == CHUNK_LEN,
            gathering(whole, final_result@, encryption_rest(run)),
        ensures
            bytes_result(Ok::<Vec<u8>, CipherError>(final_result)) == whole,
        decreases encryption_work(run),
    {
        let ghost before = encryption_rest(run);
        match encrypt_next(&mut run, &mut buffer) {
            Err(e) => {
                return Err(e);
            },
            Ok((n, more)) => {
                let ghost gathered = final_result@;
                let chunk = vstd::slice::slice_subrange(buffer.as_slice(), 0, n);
                final_result.extend_from_slice(chunk);
                proof {
                    if before is Ok {
                        let rest = before->Ok_0;
                        assert(final_result@ + rest.skip(n as int) =~= gathered + rest);
                    }
                }
                if !more {
                    break;
                }
            },
        }
    }
    Ok(final_result)
}

/// Encrypts `data` with AES-256 in CBC mode under `key` and `iv`, with
/// PKCS#7 padding, taking the output from the cipher chunk by chunk. With a
/// key of 32 bytes and a vector of 16 it succeeds on all data that leave
/// room for the padding, what comes out is as long as the padded data, and
/// it is decrypted to `data` again under the same key and vector.
pub fn encrypt_aes_256_cbc(data: &[u8], key: &[u8], iv: &[u8]) -> (r: Result<Vec<u8>, CipherError>)
    ensures
        bytes_result(r) == cipher_result(key@, iv@, padded_encryption(key@, iv@, data@)),
        key@.len() == KEY_LEN && iv@.len() == IV_LEN && data@.len() + BLOCK_LEN <= usize::MAX
            ==> r is Ok,
        r matches Ok(bytes) ==> bytes@.len() == data@.len() + padding_len(data@.len())
            && unpadded_decryption(key@, iv@, bytes@) == Ok::<Seq<u8>, CipherError>(data@),
{
    if key.len() != KEY_LEN || iv.len() != IV_LEN {
        return Err(CipherError::InvalidKey);
    }
    let padded = match pad(data) {
        Some(padded) => padded,
        None => {
            return Err(CipherError::InvalidLength);
        },
    };
    proof {
        lemma_unpadded_padded(data@);
    }
    encrypt_blocks(padded.as_slice(), key, iv)
}

/// Calls `crypto::aes::cbc_decryptor` for a 256-bit key with `NoPadding` and
/// sets a `RefReadBuffer` on `data`. The contract gives what the run comes to
/// a name. It claims that the cipher hands out as many bytes as it is given
/// where these are whole blocks, and stops with the error of a broken block
/// where they are not.
#[verifier::external_body]
fn start_decryption<'a>(data: &'a [u8], key: &[u8], iv: &[u8]) -> (run: Decryption<'a>)
    requires
        key@.len() == KEY_LEN,
        iv@.len() == IV_LEN,
    ensures
        decryption_rest(run) == aes_256_cbc_decryption(key@, iv@, data@),
        whole_blocks(data@, decryption_rest(run)),
{
    Decryption {
        cipher: crypto::aes::cbc_decryptor(
            crypto::aes::KeySize::KeySize256,
            key,
            iv,
            crypto::blockmodes::NoPadding,
        ),
        input: crypto::buffer::RefReadBuffer::new(data),
    }
}

/// Calls `Decryptor::decrypt` once, at end of input, with a `RefWriteBuffer`
/// on `buffer`, and tells how much was written and whether the cipher
/// reported an overflow. The contract claims that the bytes written are the
/// next ones of the run, and that the cipher reports an overflow only after
/// it has filled the buffer, so that every such step brings the run on.
#[verifier::external_body]
fn decrypt_next(run: &mut Decryption<'_>, buffer: &mut Vec<u8>) -> (step: Result<
    (usize, bool),
    CipherError,
>)
    requires
        old(buffer)@.len() > 0,
    ensures
        final(buffer)@.len() == old(buffer)@.len(),
        run_step(
            decryption_rest(*old(run)),
            decryption_rest(*final(run)),
            decryption_work(*old(run)),
            decryption_work(*final(run)),
            final(buffer)@,
            step,
        ),
{
    let mut output = crypto::buffer::RefWriteBuffer::new(buffer.as_mut_slice());
    let result = run.cipher.decrypt(&mut run.input, &mut output, true);
    let written = crypto::buffer::WriteBuffer::position(&output);
    match result {
        Ok(crypto::buffer::BufferResult::BufferUnderflow) => Ok((written, false)),
        Ok(crypto::buffer::BufferResult::BufferOverflow) => Ok((written, true)),
        Err(crypto::symmetriccipher::SymmetricCipherError::InvalidLength) => Err(
            CipherError::InvalidLength,
        ),
        Err(crypto::symmetriccipher::SymmetricCipherError::InvalidPadding) => Err(
            CipherError::InvalidPadding,
        ),
    }
}

/// Gathers what the cipher without padding makes of `data`, chunk by chunk.
fn decrypt_blocks(data: &[u8], key: &[u8], iv: &[u8]) -> (r: Result<Vec<u8>, CipherError>)
    requires
        key@.len() == KEY_LEN,
        iv@.len() == IV_LEN,
    ensures
        bytes_result(r) == aes_256_cbc_decryption(key@, iv@, data@),
        whole_blocks(data@, bytes_result(r)),
{
    let mut final_result: Vec<u8> = Vec::new();
    let mut run = start_decryption(data, key, iv);
    let mut buffer: Vec<u8> = vec![0u8; CHUNK_LEN];
    let ghost whole = aes_256_cbc_decryption(key@, iv@, data@);
    loop
        invariant
            whole == aes_256_cbc_decryption(key@, iv@, data@),
            whole_blocks(data@, whole),
            buffer@.len() == CHUNK_LEN,
            gathering(whole, final_result@, decryption_rest(run)),
        ensures
            bytes_result(Ok::<Vec<u8>, CipherError>(final_result)) == whole,
        decreases decryption_work(run),
    {
        let ghost before = decryption_rest(run);
        match decrypt_next(&mut run, &mut buffer) {
            Err(e) => {
                return Err(e);
            },
            Ok((n, more)) => {
                let ghost gathered = final_result@;
                let chunk = vstd::slice::slice_subrange(buffer.as_slice(), 0, n);
                final_result.extend_from_slice(chunk);
                proof {
                    if before is Ok {
                        let rest = before->Ok_0;
                        assert(final_result@ + rest.skip(n as int) =~= gathered + rest);
                    }
                }
                if !more {
                    break;
                }
            },
        }
    }
    Ok(final_result)
}

/// Decrypts `encrypted_data` with AES-256 in CBC mode under `key` and `iv`,
/// taking the output from the cipher chunk by chunk, and takes the PKCS#7
/// padding off. Data that are not whole blocks are an invalid length; data
/// that do not decrypt to a well-formed padding, and so no data at all, are
/// an invalid padding.
pub fn decrypt_aes_256_cbc(encrypted_data: &[u8], key: &[u8], iv: &[u8]) -> (r: Result<
    Vec<u8>,
    CipherError,
>)
    ensures
        bytes_result(r) == cipher_result(
            key@,
            iv@,
            unpadded_decryption(key@, iv@, encrypted_data@),
        ),
        key@.len() == KEY_LEN && iv@.len() == IV_LEN && encrypted_data@.len() % (BLOCK_LEN as nat)
            != 0 ==> r == Err::<Vec<u8>, CipherError>(CipherError::InvalidLength),
        key@.len() == KEY_LEN && iv@.len() == IV_LEN && encrypted_data@.len() == 0 ==> r == Err::<
            Vec<u8>,
            CipherError,
        >(CipherError::InvalidPadding),
{
    if key.len() != KEY_LEN || iv.len() != IV_LEN {
        return Err(CipherError::InvalidKey);
    }
    let decrypted = decrypt_blocks(encrypted_data, key, iv)?;
    unpad(decrypted)
}

} // verus!
