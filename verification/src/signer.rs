//! Detached signatures: the trusted comment, the signature's path, and the
//! signing of an artifact's bytes.

use vstd::prelude::*;

use crate::codec::{decoded_text, encode_text};
use crate::config::SigningConfig;
use crate::error::Error;
use crate::keys::{decode_private_key, failure_text, is_decode_failure, key_decodes};
use crate::paths::{file_name, spec_file_name, with_suffix};
use crate::text::{decimal, decimal_text, is_digit, lemma_decimal_is_digits};

verus! {

/// A point in time, as std's clock gives it.
#[verifier::external_type_specification]
#[verifier::external_body]
pub struct ExSystemTime(std::time::SystemTime);

/// The untrusted comment that every signature of this library carries.
pub open spec fn untrusted_comment_text() -> Seq<char> {
    "signature from cargo-packager secret key"@
}

/// The trusted comment of a signature made at `unix_seconds` for the file
/// named `file_name`.
pub open spec fn trusted_comment_text(unix_seconds: nat, file_name: Seq<char>) -> Seq<char> {
    "timestamp:"@ + decimal(unix_seconds) + "\tfile:"@ + file_name
}

/// The text of a signature box: four lines, the second and the fourth
/// holding the signature and the signature over the trusted comment.
pub open spec fn signature_box_text(
    untrusted_comment: Seq<char>,
    signature_line: Seq<char>,
    trusted_comment: Seq<char>,
    global_signature_line: Seq<char>,
) -> Seq<char> {
    "untrusted comment: "@ + untrusted_comment + "\n"@ + signature_line + "\n"@
        + "trusted comment: "@ + trusted_comment + "\n"@ + global_signature_line + "\n"@
}

/// Whether `text` is a signature box with the two comments given.
pub open spec fn is_signature_box(
    text: Seq<char>,
    untrusted_comment: Seq<char>,
    trusted_comment: Seq<char>,
) -> bool {
    exists|signature_line: Seq<char>, global_signature_line: Seq<char>|
        text == #[trigger] signature_box_text(
            untrusted_comment,
            signature_line,
            trusted_comment,
            global_signature_line,
        )
}

/// Whether `encoded` is the stored form of a signature box that this
/// library made at `unix_seconds` for the file named `file_name`.
pub open spec fn is_signature_of(
    encoded: Seq<char>,
    unix_seconds: nat,
    file_name: Seq<char>,
) -> bool {
    decoded_text(encoded) is Some && is_signature_box(
        decoded_text(encoded)->0,
        untrusted_comment_text(),
        trusted_comment_text(unix_seconds, file_name),
    )
}

/// Whether `failure` says that `path` has no file name.
pub open spec fn refuses_path(failure: Error, path: Seq<char>) -> bool {
    failure is FailedToExtractFilename && failure->FailedToExtractFilename_0@ == path
}

/// Whether `signed` is an outcome of signing the file at `path` as of the
/// time `unix_seconds`.
///
/// A path without a file name is refused. Otherwise the signature library
/// decides: either it fails, or the result holds the path of the
/// signature file and a stored signature box whose trusted comment
/// records the time and the file's name.
pub open spec fn signed_at(
    path: Seq<char>,
    unix_seconds: nat,
    signed: Result<(String, String), Error>,
) -> bool {
    match signed {
        Ok(pair) => {
            &&& spec_file_name(path) is Some
            &&& is_signature_path(path, pair.0@)
            &&& is_signature_of(pair.1@, unix_seconds, spec_file_name(path)->0)
        },
        Err(failure) => if spec_file_name(path) is None {
            refuses_path(failure, path)
        } else {
            failure is Minisign || failure == Error::PayloadTooLarge
        },
    }
}

/// Whether `signed` is an outcome of signing the file at `path` at the
/// time of the call: an outcome of signing it as of some time, or, for a
/// path with a file name, the failure of a clock set before the epoch.
pub open spec fn signed_now(path: Seq<char>, signed: Result<(String, String), Error>) -> bool {
    ||| exists|unix_seconds: nat| #[trigger] signed_at(path, unix_seconds, signed)
    ||| spec_file_name(path) is Some && signed is Err && signed->Err_0 == Error::ClockBeforeEpoch
}

/// The four characters `\\?\` that start a verbatim Windows path.
pub open spec fn verbatim_prefix() -> Seq<char> {
    seq!['\\', '\\', '?', '\\']
}

/// Whether `simple` may be the simplified form of `path`: the path
/// itself, or a verbatim path without its prefix.
pub open spec fn is_simplified(path: Seq<char>, simple: Seq<char>) -> bool {
    simple == path || (path.len() >= 4 && path.take(4) == verbatim_prefix() && simple
        == path.skip(4))
}

/// Whether `signature_path` may be the path of the signature of the file
/// at `path`: the path with `.sig` appended, simplified.
pub open spec fn is_signature_path(path: Seq<char>, signature_path: Seq<char>) -> bool {
    is_simplified(path + ".sig"@, signature_path)
}

/// Calls `simplified` of dunce.
///
/// Trusted: the result is the path unchanged, or, on Windows and for a
/// verbatim disk path that is safe to shorten, the path without its first
/// four characters. Which of the two depends on the platform.
#[verifier::external_body]
fn simplified(path: &str) -> (simple: String)
    ensures
        is_simplified(path@, simple@),
{
    dunce::simplified(std::path::Path::new(path)).to_string_lossy().into_owned()
}

/// Calls `SystemTime::now` of std.
#[verifier::external_body]
fn now() -> (time: std::time::SystemTime) {
    std::time::SystemTime::now()
}

/// Calls `SystemTime::duration_since` of std with the Unix epoch. The
/// result is `None` where `time` lies before the epoch.
#[verifier::external_body]
fn since_epoch(time: &std::time::SystemTime) -> (elapsed: Option<std::time::Duration>) {
    time.duration_since(std::time::UNIX_EPOCH).ok()
}

/// Calls `Duration::as_secs` of std.
#[verifier::external_body]
fn whole_seconds(elapsed: &std::time::Duration) -> (seconds: u64) {
    elapsed.as_secs()
}

/// Calls `sign` of minisign on the bytes given, without a public key and
/// with both comments, then `to_string` on the signature box.
///
/// Trusted: the text of the box has four lines, of which the first holds
/// the untrusted comment and the third the trusted comment as they were
/// passed. The signatures on the other two lines depend on random bytes.
#[verifier::external_body]
fn sign_bytes(
    secret_key: &minisign::SecretKey,
    data: &[u8],
    trusted_comment: &str,
    untrusted_comment: &str,
) -> (text: Result<String, minisign::PError>)
    ensures
        text is Ok ==> is_signature_box(text->Ok_0@, untrusted_comment@, trusted_comment@),
{
    let signature_box = minisign::sign(
        None,
        secret_key,
        std::io::Cursor::new(data),
        Some(trusted_comment),
        Some(untrusted_comment),
    )?;
    Ok(signature_box.to_string())
}

/// A trusted comment has the form `timestamp:<digits>\tfile:<name>`, with
/// one or more decimal digits between the two fixed parts.
pub proof fn lemma_trusted_comment_form(unix_seconds: nat, file_name: Seq<char>)
    ensures
        exists|digits: Seq<char>|
            {
                &&& digits.len() >= 1
                &&& forall|i: int| 0 <= i < digits.len() ==> is_digit(#[trigger] digits[i])
                &&& trusted_comment_text(unix_seconds, file_name) == "timestamp:"@ + digits
                    + "\tfile:"@ + file_name
            },
{
    lemma_decimal_is_digits(unix_seconds);
    let digits = decimal(unix_seconds);
    assert(digits.len() >= 1 && (forall|i: int|
        0 <= i < digits.len() ==> is_digit(#[trigger] digits[i])) && trusted_comment_text(
        unix_seconds,
        file_name,
    ) == "timestamp:"@ + digits + "\tfile:"@ + file_name);
}

/// The untrusted comment that every signature of this library carries.
pub fn untrusted_comment() -> (comment: &'static str)
    ensures
        comment@ == untrusted_comment_text(),
{
    "signature from cargo-packager secret key"
}

/// Builds the trusted comment: the signing time in seconds since the
/// Unix epoch, a tab, and the name of the signed file.
pub fn trusted_comment(unix_seconds: u64, file_name: &str) -> (comment: String)
    ensures
        comment@ == trusted_comment_text(unix_seconds as nat, file_name@),
{
    String::from_str("timestamp:").concat(decimal_text(unix_seconds).as_str()).concat(
        "\tfile:",
    ).concat(file_name)
}

/// The path of the signature of the file at `path`.
pub fn signature_path(path: &str) -> (signature_path: String)
    ensures
        is_signature_path(path@, signature_path@),
{
    simplified(with_suffix(path, ".sig").as_str())
}

/// Whole seconds since the Unix epoch, read from the system clock, which
/// alone decides the value; `None` where it is set before the epoch.
fn unix_seconds_now() -> (seconds: Option<u64>) {
    match since_epoch(&now()) {
        Some(elapsed) => Some(whole_seconds(&elapsed)),
        None => None,
    }
}

/// Signs `data`, the contents of the file at `path`, as of the time
/// `unix_seconds`, and returns the path of the signature file and the
/// signature in stored form.
///
/// A path without a file name is refused with `FailedToExtractFilename`
/// before anything is signed.
pub fn sign_at(
    secret_key: &minisign::SecretKey,
    path: &str,
    data: &[u8],
    unix_seconds: u64,
) -> (signed: Result<(String, String), Error>)
    ensures
        signed_at(path@, unix_seconds as nat, signed),
{
    let name = match file_name(path) {
        Some(name) => name,
        None => { return Err(Error::FailedToExtractFilename(path.to_owned())); },
    };
    let signature_path = signature_path(path);
    let comment = trusted_comment(unix_seconds, name.as_str());
    let box_text = match sign_bytes(secret_key, data, comment.as_str(), untrusted_comment()) {
        Ok(box_text) => box_text,
        Err(failure) => { return Err(Error::Minisign(failure_text(&failure))); },
    };
    match encode_text(box_text.as_str()) {
        Ok(encoded) => Ok((signature_path, encoded)),
        Err(_) => Err(Error::PayloadTooLarge),
    }
}

/// Signs `data`, the contents of the file at `path`, using an already
/// decoded secret key, and returns the path of the signature file and the
/// signature in stored form. The trusted comment records the time of the
/// call and the file's name.
pub fn sign_file_with_secret_key(
    secret_key: &minisign::SecretKey,
    path: &str,
    data: &[u8],
) -> (signed: Result<(String, String), Error>)
    ensures
        signed_now(path@, signed),
{
    if file_name(path).is_none() {
        let signed = Err(Error::FailedToExtractFilename(path.to_owned()));
        assert(signed_at(path@, 0, signed));
        return signed;
    }
    match unix_seconds_now() {
        Some(unix_seconds) => {
            let signed = sign_at(secret_key, path, data, unix_seconds);
            assert(signed_at(path@, unix_seconds as nat, signed));
            signed
        },
        None => Err(Error::ClockBeforeEpoch),
    }
}

/// Signs `data`, the contents of the file at `path`, using the specified
/// signing configuration. The secret key is decoded first, so a fault of
/// the key or its password is reported before one of the path.
pub fn sign_file(
    config: &SigningConfig,
    path: &str,
    data: &[u8],
) -> (signed: Result<(String, String), Error>)
    ensures
        key_decodes(config.private_key@, config.password_text()) ==> signed_now(path@, signed),
        !key_decodes(config.private_key@, config.password_text()) ==> signed is Err
            && is_decode_failure(config.private_key@, config.password_text(), signed->Err_0),
{
    let password = match &config.password {
        Some(password) => Some(password.as_str()),
        None => None,
    };
    match decode_private_key(config.private_key.as_str(), password) {
        Ok(secret_key) => sign_file_with_secret_key(&secret_key, path, data),
        Err(failure) => Err(failure),
    }
}

} // verus!
