use std::collections::BTreeMap;

use packager_sign::keys::keypair_from_boxes;
use packager_sign::store::{FileAction, SavePlan};
use packager_sign::{save_keypair, Error, KeyPair};

fn pair(tag: &str) -> KeyPair {
    keypair_from_boxes(&format!("public {}", tag), &format!("secret {}", tag)).unwrap()
}

fn carry_out(files: &mut BTreeMap<String, String>, plan: &SavePlan) {
    for action in &plan.actions {
        match action {
            FileAction::Remove(path) => {
                assert!(files.remove(path).is_some());
            }
            FileAction::Write(path, contents) => {
                files.insert(path.clone(), contents.clone());
            }
        }
    }
}

fn save(
    files: &mut BTreeMap<String, String>,
    keypair: &KeyPair,
    path: &str,
    force: bool,
) -> Result<(String, String), Error> {
    let secret_exists = files.contains_key(path);
    let public_exists = files.contains_key(&format!("{}.pub", path));
    let plan = save_keypair(keypair, path, force, secret_exists, public_exists)?;
    carry_out(files, &plan);
    Ok((plan.secret_key_path, plan.public_key_path))
}

#[test]
fn fresh_save_writes_secret_then_public() {
    let keys = pair("one");
    let plan = save_keypair(&keys, "keys/app.key", false, false, false).unwrap();
    assert_eq!(plan.secret_key_path, "keys/app.key");
    assert_eq!(plan.public_key_path, "keys/app.key.pub");
    assert_eq!(
        plan.actions,
        vec![
            FileAction::Write("keys/app.key".to_string(), keys.sk.clone()),
            FileAction::Write("keys/app.key.pub".to_string(), keys.pk.clone()),
        ]
    );
}

#[test]
fn existing_secret_key_without_force_is_refused() {
    let keys = pair("one");
    for public_exists in [false, true] {
        assert_eq!(
            save_keypair(&keys, "keys/app.key", false, true, public_exists).err(),
            Some(Error::SigningKeyExists("keys/app.key".to_string()))
        );
    }
}

#[test]
fn existing_secret_key_with_force_is_deleted_first() {
    let keys = pair("one");
    let plan = save_keypair(&keys, "app.key", true, true, false).unwrap();
    assert_eq!(
        plan.actions,
        vec![
            FileAction::Remove("app.key".to_string()),
            FileAction::Write("app.key".to_string(), keys.sk.clone()),
            FileAction::Write("app.key.pub".to_string(), keys.pk.clone()),
        ]
    );
}

#[test]
fn existing_public_key_is_deleted_without_force() {
    let keys = pair("one");
    let plan = save_keypair(&keys, "app.key", false, false, true).unwrap();
    assert_eq!(
        plan.actions,
        vec![
            FileAction::Remove("app.key.pub".to_string()),
            FileAction::Write("app.key".to_string(), keys.sk.clone()),
            FileAction::Write("app.key.pub".to_string(), keys.pk.clone()),
        ]
    );
}

#[test]
fn both_existing_with_force_are_deleted_in_order() {
    let keys = pair("one");
    let plan = save_keypair(&keys, "app.key", true, true, true).unwrap();
    assert_eq!(
        plan.actions,
        vec![
            FileAction::Remove("app.key".to_string()),
            FileAction::Remove("app.key.pub".to_string()),
            FileAction::Write("app.key".to_string(), keys.sk.clone()),
            FileAction::Write("app.key.pub".to_string(), keys.pk.clone()),
        ]
    );
}

#[test]
fn force_without_existing_files_only_writes() {
    let keys = pair("one");
    let plan = save_keypair(&keys, "app.key", true, false, false).unwrap();
    assert_eq!(plan.actions.len(), 2);
    assert_eq!(plan.actions[0].path(), "app.key");
    assert_eq!(plan.actions[1].path(), "app.key.pub");
}

#[test]
fn second_save_without_force_leaves_first_pair() {
    let mut files = BTreeMap::new();
    files.insert("other.txt".to_string(), "untouched".to_string());
    let first = pair("one");
    let second = pair("two");
    assert_eq!(
        save(&mut files, &first, "app.key", false),
        Ok(("app.key".to_string(), "app.key.pub".to_string()))
    );
    let after_first = files.clone();
    assert_eq!(
        save(&mut files, &second, "app.key", false),
        Err(Error::SigningKeyExists("app.key".to_string()))
    );
    assert_eq!(files, after_first);
    assert_eq!(files["app.key"], first.sk);
    assert_eq!(files["app.key.pub"], first.pk);
    assert_eq!(files["other.txt"], "untouched");
}

#[test]
fn second_save_with_force_replaces_first_pair() {
    let mut files = BTreeMap::new();
    files.insert("other.txt".to_string(), "untouched".to_string());
    let first = pair("one");
    let second = pair("two");
    assert!(save(&mut files, &first, "app.key", true).is_ok());
    assert_eq!(files["app.key"], first.sk);
    assert!(save(&mut files, &second, "app.key", true).is_ok());
    assert_eq!(files.len(), 3);
    assert_eq!(files["app.key"], second.sk);
    assert_eq!(files["app.key.pub"], second.pk);
    assert_eq!(files["other.txt"], "untouched");
}

#[test]
fn stale_public_key_is_replaced_on_first_save() {
    let mut files = BTreeMap::new();
    files.insert("app.key.pub".to_string(), "stale".to_string());
    let keys = pair("one");
    assert!(save(&mut files, &keys, "app.key", false).is_ok());
    assert_eq!(files["app.key"], keys.sk);
    assert_eq!(files["app.key.pub"], keys.pk);
}

#[test]
fn failed_action_names_its_path() {
    let remove = FileAction::Remove("keys/app.key".to_string());
    assert_eq!(
        remove.failure("permission denied"),
        Error::IoWithPath("keys/app.key".to_string(), "permission denied".to_string())
    );
    let write = FileAction::Write("keys/app.key.pub".to_string(), "text".to_string());
    let failure = write.failure("disk full");
    assert_eq!(failure.path(), Some("keys/app.key.pub"));
    assert_eq!(failure.message(), "keys/app.key.pub: disk full");
}
