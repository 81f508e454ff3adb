use std::io::Cursor;

use packager_sign::codec::decode_base64;
use std::time::{SystemTime, UNIX_EPOCH};

use packager_sign::signer::{sign_at, signature_path, trusted_comment, untrusted_comment};
use packager_sign::{
    decode_private_key, generate_key, sign_file, sign_file_with_secret_key, Error, KeyPair,
    SigningConfig,
};

fn plain_pair() -> KeyPair {
    generate_key(Some(String::new())).unwrap()
}

fn public_key(pair: &KeyPair) -> minisign::PublicKey {
    let text = decode_base64(&pair.pk).unwrap();
    minisign::PublicKeyBox::from_string(&text).unwrap().into_public_key().unwrap()
}

fn unix_seconds_now() -> u64 {
    SystemTime::now().duration_since(UNIX_EPOCH).unwrap().as_secs()
}

fn signature_box(encoded: &str) -> minisign::SignatureBox {
    minisign::SignatureBox::from_string(&decode_base64(encoded).unwrap()).unwrap()
}

fn timestamp_of(comment: &str, name: &str) -> u64 {
    let rest = comment.strip_prefix("timestamp:").unwrap();
    let (digits, file) = rest.split_once('\t').unwrap();
    assert_eq!(file, format!("file:{}", name));
    assert!(!digits.is_empty());
    assert!(digits.chars().all(|c| c.is_ascii_digit()));
    digits.parse().unwrap()
}

#[test]
fn trusted_comment_has_timestamp_and_file() {
    assert_eq!(trusted_comment(1700000000, "app.exe"), "timestamp:1700000000\tfile:app.exe");
    assert_eq!(trusted_comment(0, "a b"), "timestamp:0\tfile:a b");
    assert_eq!(
        trusted_comment(u64::MAX, "x"),
        "timestamp:18446744073709551615\tfile:x"
    );
}

#[test]
fn untrusted_comment_names_the_tool() {
    assert_eq!(untrusted_comment(), "signature from cargo-packager secret key");
}

#[test]
fn signature_path_appends_sig() {
    assert_eq!(signature_path("out/app.exe"), "out/app.exe.sig");
    assert_eq!(signature_path("app"), "app.sig");
    assert_eq!(signature_path("out/../app.tar.gz"), "out/../app.tar.gz.sig");
}

#[test]
fn signature_of_app_exe_has_the_trusted_comment() {
    let pair = plain_pair();
    let key = decode_private_key(&pair.sk, Some("")).unwrap();
    let before = unix_seconds_now();
    let (path, encoded) = sign_file_with_secret_key(&key, "app.exe", b"contents").unwrap();
    let after = unix_seconds_now();
    assert_eq!(path, "app.exe.sig");
    let comment = signature_box(&encoded).trusted_comment().unwrap();
    let stamp = timestamp_of(&comment, "app.exe");
    assert!(before <= stamp && stamp <= after);
}

#[test]
fn signature_text_has_four_lines() {
    let pair = plain_pair();
    let key = decode_private_key(&pair.sk, Some("")).unwrap();
    let (_, encoded) = sign_at(&key, "dist/app.exe", b"contents", 1700000000).unwrap();
    assert!(encoded.is_ascii());
    let text = decode_base64(&encoded).unwrap();
    let lines: Vec<&str> = text.lines().collect();
    assert_eq!(lines.len(), 4);
    assert_eq!(lines[0], "untrusted comment: signature from cargo-packager secret key");
    assert_eq!(lines[2], "trusted comment: timestamp:1700000000\tfile:app.exe");
    assert!(text.ends_with('\n'));
    assert!(!lines[1].is_empty() && !lines[3].is_empty());
}

#[test]
fn sign_at_records_the_given_time_and_name() {
    let pair = plain_pair();
    let key = decode_private_key(&pair.sk, Some("")).unwrap();
    let (path, encoded) = sign_at(&key, "out/pkg/app.tar.gz", b"data", 42).unwrap();
    assert_eq!(path, "out/pkg/app.tar.gz.sig");
    let signature = signature_box(&encoded);
    assert_eq!(signature.trusted_comment().unwrap(), "timestamp:42\tfile:app.tar.gz");
    assert_eq!(
        signature.untrusted_comment().unwrap(),
        "signature from cargo-packager secret key"
    );
}

#[test]
fn signature_verifies_against_the_public_key() {
    let pair = plain_pair();
    let key = decode_private_key(&pair.sk, Some("")).unwrap();
    let data = b"the artifact".to_vec();
    let (_, encoded) = sign_at(&key, "app.exe", &data, 1700000000).unwrap();
    let signature = signature_box(&encoded);
    let pk = public_key(&pair);
    assert!(minisign::verify(&pk, &signature, Cursor::new(&data), true, false, false).is_ok());
    let other = b"another artifact".to_vec();
    assert!(minisign::verify(&pk, &signature, Cursor::new(&other), true, false, false).is_err());
}

#[test]
fn signature_of_empty_file_verifies() {
    let pair = plain_pair();
    let key = decode_private_key(&pair.sk, Some("")).unwrap();
    let (_, encoded) = sign_at(&key, "empty.bin", &[], 1).unwrap();
    let signature = signature_box(&encoded);
    let pk = public_key(&pair);
    let data: Vec<u8> = Vec::new();
    assert!(minisign::verify(&pk, &signature, Cursor::new(&data), true, false, false).is_ok());
}

#[test]
fn signing_twice_gives_two_signatures_that_verify() {
    let pair = plain_pair();
    let key = decode_private_key(&pair.sk, Some("")).unwrap();
    let data = b"the artifact".to_vec();
    let (first_path, first) = sign_at(&key, "app.exe", &data, 1700000000).unwrap();
    let (second_path, second) = sign_at(&key, "app.exe", &data, 1700000001).unwrap();
    assert_eq!(first_path, second_path);
    assert_ne!(first, second);
    let pk = public_key(&pair);
    for encoded in [first, second] {
        let signature = signature_box(&encoded);
        assert!(minisign::verify(&pk, &signature, Cursor::new(&data), true, false, false).is_ok());
    }
}

#[test]
fn resigning_through_the_clock_succeeds_both_times() {
    let pair = plain_pair();
    let key = decode_private_key(&pair.sk, Some("")).unwrap();
    let data = b"the artifact".to_vec();
    let pk = public_key(&pair);
    for _ in 0..2 {
        let (path, encoded) = sign_file_with_secret_key(&key, "app.exe", &data).unwrap();
        assert_eq!(path, "app.exe.sig");
        let signature = signature_box(&encoded);
        assert!(minisign::verify(&pk, &signature, Cursor::new(&data), true, false, false).is_ok());
    }
}

#[test]
fn path_without_file_name_is_refused() {
    let pair = plain_pair();
    let key = decode_private_key(&pair.sk, Some("")).unwrap();
    for path in ["/", "out/", "", "..", "C:\\"] {
        assert_eq!(
            sign_file_with_secret_key(&key, path, b"data"),
            Err(Error::FailedToExtractFilename(path.to_string()))
        );
        assert_eq!(
            sign_at(&key, path, b"data", 5),
            Err(Error::FailedToExtractFilename(path.to_string()))
        );
    }
}

#[test]
fn sign_file_with_config_signs() {
    let pair = plain_pair();
    let config = SigningConfig::new().private_key(&pair.sk).password("");
    let data = b"the artifact".to_vec();
    let (path, encoded) = sign_file(&config, "dist/app.exe", &data).unwrap();
    assert_eq!(path, "dist/app.exe.sig");
    let signature = signature_box(&encoded);
    timestamp_of(&signature.trusted_comment().unwrap(), "app.exe");
    let pk = public_key(&pair);
    assert!(minisign::verify(&pk, &signature, Cursor::new(&data), true, false, false).is_ok());
}

#[test]
fn sign_file_with_protected_key() {
    let pair = generate_key(Some("correct horse".to_string())).unwrap();
    let config = SigningConfig::new().private_key(&pair.sk).password("correct horse");
    let data = b"the artifact".to_vec();
    let (_, encoded) = sign_file(&config, "app.exe", &data).unwrap();
    let pk = public_key(&pair);
    let signature = signature_box(&encoded);
    assert!(minisign::verify(&pk, &signature, Cursor::new(&data), true, false, false).is_ok());

    let wrong = SigningConfig::new().private_key(&pair.sk).password("battery staple");
    assert_eq!(sign_file(&wrong, "app.exe", &data), Err(Error::WrongPassword));
}

#[test]
fn sign_file_reports_key_faults_before_path_faults() {
    let unset = SigningConfig::new();
    assert!(matches!(sign_file(&unset, "out/", b"data"), Err(Error::PasswordRequired)));
    let garbage = SigningConfig::new().private_key("***").password("");
    assert_eq!(sign_file(&garbage, "out/", b"data"), Err(Error::InvalidEncoding));
    let pair = plain_pair();
    let no_password = SigningConfig::new().private_key(&pair.sk);
    assert_eq!(sign_file(&no_password, "app.exe", b"data"), Err(Error::PasswordRequired));
    let good = SigningConfig::new().private_key(&pair.sk).password("");
    assert_eq!(
        sign_file(&good, "out/", b"data"),
        Err(Error::FailedToExtractFilename("out/".to_string()))
    );
}
