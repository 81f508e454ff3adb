//! The parameters of a signing operation.

use vstd::prelude::*;

verus! {

/// Signing configuration: the encoded private key and its password.
///
/// A `password` of `None` means that the password has to be asked for;
/// `Some` of the empty string means that the key is not protected.
#[derive(Clone, Debug)]
#[non_exhaustive]
pub struct SigningConfig {
    /// The private key to use for signing, in its stored (encoded) form.
    pub private_key: String,
    /// The private key password.
    pub password: Option<String>,
}

impl Default for SigningConfig {
    fn default() -> (config: Self)
        ensures
            config.private_key@ == Seq::<char>::empty(),
            config.password is None,
    {
        SigningConfig { private_key: String::new(), password: None }
    }
}

impl SigningConfig {
    /// The text of the password, if one is set.
    pub open spec fn password_text(self) -> Option<Seq<char>> {
        match self.password {
            Some(password) => Some(password@),
            None => None,
        }
    }

    /// Creates a configuration with an empty private key and no password.
    pub fn new() -> (config: Self)
        ensures
            config.private_key@ == Seq::<char>::empty(),
            config.password is None,
    {
        SigningConfig { private_key: String::new(), password: None }
    }

    /// Sets the private key to use for signing; the password is kept.
    pub fn private_key(self, private_key: &str) -> (config: Self)
        ensures
            config.private_key@ == private_key@,
            config.password == self.password,
    {
        SigningConfig { private_key: private_key.to_owned(), password: self.password }
    }

    /// Sets the private key password; the private key is kept.
    pub fn password(self, password: &str) -> (config: Self)
        ensures
            config.private_key == self.private_key,
            config.password is Some,
            config.password->0@ == password@,
    {
        SigningConfig { private_key: self.private_key, password: Some(password.to_owned()) }
    }
}

} // verus!
