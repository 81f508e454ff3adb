//! The failures that key handling and signing report.

use vstd::prelude::*;

verus! {

/// Why an operation of this library failed.
#[derive(Clone, Debug, PartialEq, Eq)]
pub enum Error {
    /// Stored text is not valid base64, or what it encodes is not UTF-8.
    InvalidEncoding,
    /// The secret key box could not be parsed; the payload is the
    /// signature library's description of the fault.
    MalformedKeyBox(String),
    /// The password does not open the secret key box.
    WrongPassword,
    /// The key could not be derived or decrypted for another reason than a
    /// wrong password.
    DecryptionFailed(String),
    /// No password was supplied. This library never prompts: the caller
    /// has to ask for the password and pass it on.
    PasswordRequired,
    /// A secret key file already exists at the path and must not be
    /// overwritten.
    SigningKeyExists(String),
    /// The path has no file name component to record in the signature.
    FailedToExtractFilename(String),
    /// A file operation failed; the first payload is the path involved,
    /// the second the cause.
    IoWithPath(String, String),
    /// The system clock is set before the Unix epoch.
    ClockBeforeEpoch,
    /// The text to store is too long to be encoded on this machine.
    PayloadTooLarge,
    /// Any other failure reported by the signature library, with its
    /// message.
    Minisign(String),
}

impl Error {
    /// The path that the failure is about, for the failures that name one.
    pub open spec fn spec_path(self) -> Option<Seq<char>> {
        match self {
            Error::SigningKeyExists(path) => Some(path@),
            Error::FailedToExtractFilename(path) => Some(path@),
            Error::IoWithPath(path, _) => Some(path@),
            _ => None,
        }
    }

    /// The path that the failure is about, for the failures that name one.
    pub fn path(&self) -> (path: Option<&str>)
        ensures
            path is Some <==> self.spec_path() is Some,
            path is Some ==> path->0@ == self.spec_path()->0,
    {
        match self {
            Error::SigningKeyExists(path) => Some(path.as_str()),
            Error::FailedToExtractFilename(path) => Some(path.as_str()),
            Error::IoWithPath(path, _) => Some(path.as_str()),
            _ => None,
        }
    }

    /// The text of `message`, as a sequence of characters.
    pub open spec fn spec_message(self) -> Seq<char> {
        match self {
            Error::InvalidEncoding => "invalid encoding: expected base64 of UTF-8 text"@,
            Error::MalformedKeyBox(detail) => "malformed secret key box: "@ + detail@,
            Error::WrongPassword => "wrong password for that key"@,
            Error::DecryptionFailed(detail) => "failed to decrypt the secret key: "@ + detail@,
            Error::PasswordRequired => "a password is required"@,
            Error::SigningKeyExists(path) => "signing key already exists at "@ + path@,
            Error::FailedToExtractFilename(path) => "failed to extract a file name from "@ + path@,
            Error::IoWithPath(path, cause) => path@ + ": "@ + cause@,
            Error::ClockBeforeEpoch => "the system clock is set before the Unix epoch"@,
            Error::PayloadTooLarge => "the text is too long to be encoded"@,
            Error::Minisign(detail) => "signature library: "@ + detail@,
        }
    }

    /// A message for the user. A failure that is about a file names its path.
    pub fn message(&self) -> (text: String)
        ensures
            text@ == self.spec_message(),
    {
        match self {
            Error::InvalidEncoding => String::from_str(
                "invalid encoding: expected base64 of UTF-8 text",
            ),
            Error::MalformedKeyBox(detail) => String::from_str("malformed secret key box: ").concat(
                detail.as_str(),
            ),
            Error::WrongPassword => String::from_str("wrong password for that key"),
            Error::DecryptionFailed(detail) => String::from_str(
                "failed to decrypt the secret key: ",
            ).concat(detail.as_str()),
            Error::PasswordRequired => String::from_str("a password is required"),
            Error::SigningKeyExists(path) => String::from_str(
                "signing key already exists at ",
            ).concat(path.as_str()),
            Error::FailedToExtractFilename(path) => String::from_str(
                "failed to extract a file name from ",
            ).concat(path.as_str()),
            Error::IoWithPath(path, cause) => path.clone().concat(": ").concat(cause.as_str()),
            Error::ClockBeforeEpoch => String::from_str(
                "the system clock is set before the Unix epoch",
            ),
            Error::PayloadTooLarge => String::from_str("the text is too long to be encoded"),
            Error::Minisign(detail) => String::from_str("signature library: ").concat(detail.as_str()),
        }
    }
}

} // verus!
