pub use self::aes::{decrypt_aes_256_cbc, encrypt_aes_256_cbc, make_derived_key, make_iv};

pub use self::rsa::{rsa_decrypt, rsa_encrypt};

pub mod aes;
pub mod rsa;
