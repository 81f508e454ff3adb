//! Detached file signing for packaged artifacts: key pair creation, secret
//! key decoding, the overwrite policy for stored keys, and signatures that
//! carry a trusted comment naming the signed file and the signing time.

pub mod codec;
pub mod config;
pub mod error;
pub mod keys;
pub mod paths;
pub mod signer;
pub mod store;
pub mod text;

pub use config::SigningConfig;
pub use error::Error;
pub use keys::{decode_private_key, generate_key, KeyPair};
pub use signer::{sign_file, sign_file_with_secret_key};
pub use store::save_keypair;
