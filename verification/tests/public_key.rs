use kuda::encryption::{rsa_decrypt, rsa_encrypt};
use kuda::{ConfigurationError, DecodeFailure, EncryptError, Error};
use openssl::rsa::Rsa;

fn key_pair(bits: u32) -> (String, String) {
    let rsa = Rsa::generate(bits).unwrap();
    let public = String::from_utf8(rsa.public_key_to_pem().unwrap()).unwrap();
    let private = String::from_utf8(rsa.private_key_to_pem().unwrap()).unwrap();
    (public, private)
}

#[test]
fn rsa_round_trip_of_a_password() {
    let (public, private) = key_pair(2048);
    let encrypted = rsa_encrypt("CLIENT-ABC1234", &public).unwrap();
    assert_ne!(encrypted, "CLIENT-ABC1234");
    assert_eq!(base64::decode(&encrypted).unwrap().len(), 256);
    assert_eq!(rsa_decrypt(encrypted, &private), Ok("CLIENT-ABC1234".to_string()));
}

#[test]
fn rsa_round_trip_of_other_texts() {
    let (public, private) = key_pair(2048);
    for text in ["", "a", "pässwörd-1234567", "key_with-both-ABCDEFG"] {
        let encrypted = rsa_encrypt(text, &public).unwrap();
        assert_eq!(rsa_decrypt(encrypted, &private), Ok(text.to_string()));
    }
}

#[test]
fn two_encryptions_of_one_password_differ_and_open_alike() {
    let (public, private) = key_pair(2048);
    let first = rsa_encrypt("CLIENT-ABC1234", &public).unwrap();
    let second = rsa_encrypt("CLIENT-ABC1234", &public).unwrap();
    assert_ne!(first, second);
    assert_eq!(rsa_decrypt(first, &private), rsa_decrypt(second, &private));
}

#[test]
fn the_wrong_private_key_does_not_decrypt() {
    let (public, _) = key_pair(2048);
    let (_, other) = key_pair(2048);
    let encrypted = rsa_encrypt("CLIENT-ABC1234", &public).unwrap();
    assert_eq!(rsa_decrypt(encrypted, &other), Err(Error::Deserialize(DecodeFailure::Rsa)));
}

#[test]
fn a_malformed_public_key_is_a_configuration_error() {
    assert_eq!(
        rsa_encrypt("CLIENT-ABC1234", "CHANGE_ME"),
        Err(Error::Configuration(ConfigurationError::PublicKey))
    );
}

#[test]
fn a_malformed_private_key_is_a_configuration_error() {
    let (public, _) = key_pair(2048);
    let encrypted = rsa_encrypt("CLIENT-ABC1234", &public).unwrap();
    assert_eq!(
        rsa_decrypt(encrypted, "CHANGE_ME"),
        Err(Error::Configuration(ConfigurationError::PrivateKey))
    );
}

#[test]
fn a_private_key_is_no_public_key() {
    let (_, private) = key_pair(2048);
    assert_eq!(
        rsa_encrypt("CLIENT-ABC1234", &private),
        Err(Error::Configuration(ConfigurationError::PublicKey))
    );
}

#[test]
fn a_password_longer_than_the_key_is_not_encrypted() {
    let (public, _) = key_pair(1024);
    let long = "x".repeat(200);
    assert_eq!(rsa_encrypt(&long, &public), Err(Error::Encrypt(EncryptError::Rsa)));
}

#[test]
fn text_that_is_no_base64_is_not_decrypted() {
    let (_, private) = key_pair(2048);
    assert_eq!(
        rsa_decrypt("not base64!".to_string(), &private),
        Err(Error::Deserialize(DecodeFailure::Base64))
    );
}

#[test]
fn base64_of_no_ciphertext_is_not_decrypted() {
    let (_, private) = key_pair(2048);
    assert_eq!(
        rsa_decrypt(base64::encode([1u8, 2, 3]), &private),
        Err(Error::Deserialize(DecodeFailure::Rsa))
    );
}

#[test]
fn a_decryption_that_is_no_utf8_is_refused() {
    let rsa = Rsa::generate(2048).unwrap();
    let private = String::from_utf8(rsa.private_key_to_pem().unwrap()).unwrap();
    let mut buffer = vec![0u8; rsa.size() as usize];
    let written = rsa
        .public_encrypt(&[0xff, 0xfe, 0xfd], &mut buffer, openssl::rsa::Padding::PKCS1)
        .unwrap();
    buffer.truncate(written);
    assert_eq!(
        rsa_decrypt(base64::encode(buffer), &private),
        Err(Error::Deserialize(DecodeFailure::Utf8))
    );
}
