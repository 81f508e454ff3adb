//! Signing key pairs: creation, storage form, and decoding of a stored
//! secret key with its password.

use vstd::prelude::*;

use crate::codec::{can_store, decode_base64, decoded_text, encode_text, stored_text};
use crate::error::Error;
use crate::text::same_text;

verus! {

/// The secret key of the signature library. Its contents are not read here:
/// a key is obtained from `decode_private_key` and handed to the signer.
#[verifier::external_type_specification]
#[verifier::external_body]
pub struct ExSecretKey(minisign::SecretKey);

/// The failure type of the signature library.
#[verifier::external_type_specification]
#[verifier::external_body]
pub struct ExFailure(minisign::PError);

/// Whether the secret key box with the text `box_text` opens under
/// `password`: the box parses, and the key derived from the password
/// decrypts it to a key whose checksum matches.
pub uninterp spec fn box_unlocks(box_text: Seq<char>, password: Seq<char>) -> bool;

/// Whether the stored secret key `stored` decodes under `password`.
pub open spec fn key_opens(stored: Seq<char>, password: Seq<char>) -> bool {
    decoded_text(stored) is Some && box_unlocks(decoded_text(stored)->0, password)
}

/// The text of the password that was passed, if one was.
pub open spec fn password_text(password: Option<&str>) -> Option<Seq<char>> {
    match password {
        Some(password) => Some(password@),
        None => None,
    }
}

/// Whether decoding the stored secret key `stored` with `password` gives
/// a key: a password is there, and the key opens under it.
pub open spec fn key_decodes(stored: Seq<char>, password: Option<Seq<char>>) -> bool {
    password is Some && key_opens(stored, password->0)
}

/// Whether `failure` is one of the failures of a box that did not open.
pub open spec fn is_unlock_failure(failure: Error) -> bool {
    failure is WrongPassword || failure is MalformedKeyBox || failure is DecryptionFailed
        || failure is Minisign
}

/// Whether `failure` is what decoding the stored secret key `stored` with
/// `password` reports where it gives no key. Text that does not decode
/// comes first, then a missing password, then the box that did not open.
pub open spec fn is_decode_failure(
    stored: Seq<char>,
    password: Option<Seq<char>>,
    failure: Error,
) -> bool {
    if decoded_text(stored) is None {
        failure == Error::InvalidEncoding
    } else if password is None {
        failure == Error::PasswordRequired
    } else {
        is_unlock_failure(failure)
    }
}

/// A public and secret key pair, each in its stored form: the base64 of
/// the text of the signature library's key box.
#[derive(Clone, Debug)]
pub struct KeyPair {
    /// Public key.
    pub pk: String,
    /// Secret key.
    pub sk: String,
}

impl KeyPair {
    /// Both keys are stored text that decodes.
    pub open spec fn wf(self) -> bool {
        decoded_text(self.pk@) is Some && decoded_text(self.sk@) is Some
    }
}

/// Calls `KeyPair::generate_encrypted_keypair` of minisign with the given
/// password, then `to_box` and `to_string` on each key; the result holds
/// the text of the public key box, then that of the secret key box.
///
/// Trusted: a secret key box made with a password opens under that
/// password. The keys are random, so nothing else is said of them.
#[verifier::external_body]
fn generate_boxes(password: &str) -> (boxes: Result<(String, String), minisign::PError>)
    ensures
        boxes is Ok ==> box_unlocks(boxes->Ok_0.1@, password@),
{
    let pair = minisign::KeyPair::generate_encrypted_keypair(Some(password.to_string()))?;
    Ok((pair.pk.to_box()?.to_string(), pair.sk.to_box(None)?.to_string()))
}

/// Calls `SecretKeyBox::from_string` and `SecretKeyBox::into_secret_key`
/// of minisign, with the password given.
///
/// Trusted: whether the call succeeds depends on the box text and the
/// password alone, which is what `box_unlocks` names.
#[verifier::external_body]
fn open_box(box_text: &str, password: &str) -> (key: Result<minisign::SecretKey, minisign::PError>)
    ensures
        key is Ok <==> box_unlocks(box_text@, password@),
{
    minisign::SecretKeyBox::from_string(box_text)?.into_secret_key(Some(password.to_string()))
}

/// Calls `description` on a failure of minisign: the name of its kind,
/// such as `verify error` or `io error`.
#[verifier::external_body]
#[allow(deprecated)]
pub(crate) fn failure_kind(failure: &minisign::PError) -> (kind: String) {
    std::error::Error::description(failure).to_string()
}

/// Calls `to_string` on a failure of minisign: its message.
#[verifier::external_body]
pub(crate) fn failure_text(failure: &minisign::PError) -> (text: String) {
    failure.to_string()
}

/// The failure to report when a secret key box did not open, from the
/// kind and the message that the signature library gave.
///
/// A verification failure means that the checksum of the decrypted key did
/// not match: the password is wrong. An input or encoding failure means
/// that the box could not be parsed. A key derivation failure means that
/// the box asks for parameters that are not supported.
pub fn unlock_failure(kind: &str, detail: String) -> (failure: Error)
    ensures
        kind@ == "verify error"@ ==> failure == Error::WrongPassword,
        kind@ == "io error"@ || kind@ == "encoding error"@ ==> failure == Error::MalformedKeyBox(
            detail,
        ),
        kind@ == "key derivation error"@ ==> failure == Error::DecryptionFailed(detail),
        kind@ != "verify error"@ && kind@ != "io error"@ && kind@ != "encoding error"@ && kind@
            != "key derivation error"@ ==> failure == Error::Minisign(detail),
        is_unlock_failure(failure),
{
    proof {
        reveal_strlit("verify error");
        reveal_strlit("io error");
        reveal_strlit("encoding error");
        reveal_strlit("key derivation error");
        assert("verify error"@.len() == 12);
        assert("io error"@.len() == 8);
        assert("encoding error"@.len() == 14);
        assert("key derivation error"@.len() == 20);
    }
    if same_text(kind, "verify error") {
        Error::WrongPassword
    } else if same_text(kind, "io error") || same_text(kind, "encoding error") {
        Error::MalformedKeyBox(detail)
    } else if same_text(kind, "key derivation error") {
        Error::DecryptionFailed(detail)
    } else {
        Error::Minisign(detail)
    }
}

/// Puts the text of a public key box and of a secret key box in stored
/// form. Fails with `PayloadTooLarge` where one of them is too long to be
/// encoded.
pub fn keypair_from_boxes(pk_box: &str, sk_box: &str) -> (pair: Result<KeyPair, Error>)
    ensures
        pair is Ok <==> can_store(pk_box@) && can_store(sk_box@),
        pair is Err ==> pair->Err_0 == Error::PayloadTooLarge,
        pair is Ok ==> pair->Ok_0.pk@ == stored_text(pk_box@),
        pair is Ok ==> pair->Ok_0.sk@ == stored_text(sk_box@),
        pair is Ok ==> decoded_text(pair->Ok_0.pk@) == Some(pk_box@),
        pair is Ok ==> decoded_text(pair->Ok_0.sk@) == Some(sk_box@),
        pair is Ok ==> pair->Ok_0.wf(),
{
    let pk = match encode_text(pk_box) {
        Ok(pk) => pk,
        Err(_) => { return Err(Error::PayloadTooLarge); },
    };
    let sk = match encode_text(sk_box) {
        Ok(sk) => sk,
        Err(_) => { return Err(Error::PayloadTooLarge); },
    };
    Ok(KeyPair { pk, sk })
}

/// Generates a new signing key pair and returns it in stored form.
///
/// With a password the secret key is encrypted under it; the empty
/// password leaves the key unencrypted. Without one the call fails with
/// `PasswordRequired`: asking the user is left to the caller. A pair that
/// is returned decodes again under the same password.
pub fn generate_key(password: Option<String>) -> (pair: Result<KeyPair, Error>)
    ensures
        password is None ==> pair is Err && pair->Err_0 == Error::PasswordRequired,
        pair is Ok ==> password is Some && pair->Ok_0.wf() && key_opens(
            pair->Ok_0.sk@,
            password->0@,
        ),
        pair is Err && password is Some ==> pair->Err_0 is Minisign || pair->Err_0
            == Error::PayloadTooLarge,
{
    let password = match password {
        Some(password) => password,
        None => { return Err(Error::PasswordRequired); },
    };
    match generate_boxes(password.as_str()) {
        Ok((pk_box, sk_box)) => keypair_from_boxes(pk_box.as_str(), sk_box.as_str()),
        Err(failure) => Err(Error::Minisign(failure_text(&failure))),
    }
}

/// Decodes a stored secret key using the specified password.
///
/// The stored text is decoded first, so text that does not decode is
/// reported as `InvalidEncoding` whether or not a password is given.
/// Without a password the call then fails with `PasswordRequired`.
/// Otherwise the box is opened, and the key is returned exactly when the
/// box opens under the password.
pub fn decode_private_key(
    private_key: &str,
    password: Option<&str>,
) -> (key: Result<minisign::SecretKey, Error>)
    ensures
        key is Ok <==> key_decodes(private_key@, password_text(password)),
        key is Err ==> is_decode_failure(private_key@, password_text(password), key->Err_0),
{
    let box_text = match decode_base64(private_key) {
        Ok(box_text) => box_text,
        Err(_) => { return Err(Error::InvalidEncoding); },
    };
    let password = match password {
        Some(password) => password,
        None => { return Err(Error::PasswordRequired); },
    };
    match open_box(box_text.as_str(), password) {
        Ok(key) => Ok(key),
        Err(failure) => {
            let kind = failure_kind(&failure);
            Err(unlock_failure(kind.as_str(), failure_text(&failure)))
        },
    }
}

} // verus!
