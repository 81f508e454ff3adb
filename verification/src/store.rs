//! Writing a key pair to disk: which files are deleted and written, in
//! which order, and when an existing secret key stops the operation.
//!
//! The file operations themselves are left to the caller. This module
//! decides them, and states what they do to a set of files.

use vstd::prelude::*;

use crate::error::Error;
use crate::keys::KeyPair;
use crate::paths::with_suffix;

verus! {

/// One file operation, to be carried out by the caller.
#[derive(Clone, Debug, PartialEq, Eq)]
pub enum FileAction {
    /// Delete the file at the path.
    Remove(String),
    /// Create the file at the path (the first payload), write the text
    /// (the second) to it, and flush it.
    Write(String, String),
}

/// A file operation over plain text: the view of a `FileAction`.
pub enum FileStep {
    /// Delete the file at the path.
    Remove { path: Seq<char> },
    /// Create the file at the path with the contents.
    Write { path: Seq<char>, contents: Seq<char> },
}

impl View for FileAction {
    type V = FileStep;

    open spec fn view(&self) -> FileStep {
        match self {
            FileAction::Remove(path) => FileStep::Remove { path: path@ },
            FileAction::Write(path, contents) => FileStep::Write {
                path: path@,
                contents: contents@,
            },
        }
    }
}

impl FileAction {
    /// The path of the file that the operation is about.
    pub fn path(&self) -> (path: &str)
        ensures
            path@ == self@.path(),
    {
        match self {
            FileAction::Remove(path) => path.as_str(),
            FileAction::Write(path, _) => path.as_str(),
        }
    }

    /// The failure to report where the operation could not be carried out
    /// for the reason `cause`: it names the path of the operation.
    pub fn failure(&self, cause: &str) -> (failure: Error)
        ensures
            failure is IoWithPath,
            failure->IoWithPath_0@ == self@.path(),
            failure->IoWithPath_1@ == cause@,
            failure.spec_path() == Some(self@.path()),
    {
        Error::IoWithPath(self.path().to_owned(), cause.to_owned())
    }
}

impl FileStep {
    /// The path of the file that the step is about.
    pub open spec fn path(self) -> Seq<char> {
        match self {
            FileStep::Remove { path } => path,
            FileStep::Write { path, .. } => path,
        }
    }
}

/// The files on disk that matter here: each existing path with the text
/// of its file.
pub type Files = Map<Seq<char>, Seq<char>>;

/// The files after one step.
pub open spec fn apply_step(files: Files, step: FileStep) -> Files {
    match step {
        FileStep::Remove { path } => files.remove(path),
        FileStep::Write { path, contents } => files.insert(path, contents),
    }
}

/// The files after the steps, carried out in order.
pub open spec fn apply_steps(files: Files, steps: Seq<FileStep>) -> Files
    decreases steps.len(),
{
    if steps.len() == 0 {
        files
    } else {
        apply_steps(apply_step(files, steps[0]), steps.drop_first())
    }
}

/// The path of the public key file that belongs to the secret key file at
/// `path`.
pub open spec fn public_key_path(path: Seq<char>) -> Seq<char> {
    path + ".pub"@
}

/// The steps that write a key pair to `path`: an existing secret key file
/// and an existing public key file are deleted first, then the secret key
/// is written, then the public key.
pub open spec fn save_steps(
    sk: Seq<char>,
    pk: Seq<char>,
    path: Seq<char>,
    secret_exists: bool,
    public_exists: bool,
) -> Seq<FileStep> {
    let remove_secret = if secret_exists {
        seq![FileStep::Remove { path }]
    } else {
        Seq::<FileStep>::empty()
    };
    let remove_public = if public_exists {
        seq![FileStep::Remove { path: public_key_path(path) }]
    } else {
        Seq::<FileStep>::empty()
    };
    remove_secret + remove_public + seq![
        FileStep::Write { path, contents: sk },
        FileStep::Write { path: public_key_path(path), contents: pk },
    ]
}

/// Whether saving to `path` is refused: a secret key file exists there and
/// overwriting was not asked for. An existing public key file never stops
/// the operation.
pub open spec fn save_refused(secret_exists: bool, force: bool) -> bool {
    secret_exists && !force
}

/// What saving a key pair to `path` makes of `files`: `None` where it is
/// refused, and the files are left as they are.
pub open spec fn files_after_save(
    files: Files,
    sk: Seq<char>,
    pk: Seq<char>,
    path: Seq<char>,
    force: bool,
) -> Option<Files> {
    if save_refused(files.dom().contains(path), force) {
        None
    } else {
        Some(
            apply_steps(
                files,
                save_steps(
                    sk,
                    pk,
                    path,
                    files.dom().contains(path),
                    files.dom().contains(public_key_path(path)),
                ),
            ),
        )
    }
}

/// What is to be done to write a key pair to disk.
#[derive(Clone, Debug)]
pub struct SavePlan {
    /// The path of the secret key file.
    pub secret_key_path: String,
    /// The path of the public key file.
    pub public_key_path: String,
    /// The file operations, in the order in which they are carried out.
    pub actions: Vec<FileAction>,
}

impl SavePlan {
    /// The plan's operations over plain text.
    pub open spec fn steps(self) -> Seq<FileStep> {
        Seq::new(self.actions@.len(), |i: int| self.actions@[i]@)
    }
}

/// Plans the writing of a [`KeyPair`] to the secret key file at `path` and
/// the public key file beside it.
///
/// `secret_exists` and `public_exists` say whether a file exists at either
/// path. An existing secret key is overwritten only with `force`; without
/// it the call fails with `SigningKeyExists` and plans nothing.
pub fn save_keypair(
    keypair: &KeyPair,
    path: &str,
    force: bool,
    secret_exists: bool,
    public_exists: bool,
) -> (plan: Result<SavePlan, Error>)
    ensures
        plan is Err <==> save_refused(secret_exists, force),
        plan is Err ==> plan->Err_0 is SigningKeyExists && plan->Err_0->SigningKeyExists_0@
            == path@,
        plan is Ok ==> plan->Ok_0.secret_key_path@ == path@,
        plan is Ok ==> plan->Ok_0.public_key_path@ == public_key_path(path@),
        plan is Ok ==> plan->Ok_0.steps() == save_steps(
            keypair.sk@,
            keypair.pk@,
            path@,
            secret_exists,
            public_exists,
        ),
{
    if secret_exists && !force {
        return Err(Error::SigningKeyExists(path.to_owned()));
    }
    let pk_path = with_suffix(path, ".pub");
    let mut actions: Vec<FileAction> = Vec::new();
    if secret_exists {
        actions.push(FileAction::Remove(path.to_owned()));
    }
    if public_exists {
        actions.push(FileAction::Remove(pk_path.clone()));
    }
    actions.push(FileAction::Write(path.to_owned(), keypair.sk.clone()));
    actions.push(FileAction::Write(pk_path.clone(), keypair.pk.clone()));
    let plan = SavePlan { secret_key_path: path.to_owned(), public_key_path: pk_path, actions };
    assert(plan.steps() =~= save_steps(
        keypair.sk@,
        keypair.pk@,
        path@,
        secret_exists,
        public_exists,
    ));
    Ok(plan)
}

/// The path of a public key file differs from that of its secret key file.
pub proof fn lemma_public_key_path_differs(path: Seq<char>)
    ensures
        public_key_path(path) != path,
{
    reveal_strlit(".pub");
    assert(public_key_path(path).len() == path.len() + 4);
}

/// Writing the secret key and then the public key leaves both files with
/// the new text, whatever was there before.
proof fn lemma_write_both(files: Files, sk: Seq<char>, pk: Seq<char>, path: Seq<char>)
    ensures
        apply_steps(
            files,
            seq![
                FileStep::Write { path, contents: sk },
                FileStep::Write { path: public_key_path(path), contents: pk },
            ],
        ) == files.insert(path, sk).insert(public_key_path(path), pk),
{
    let write_public = FileStep::Write { path: public_key_path(path), contents: pk };
    let writes = seq![FileStep::Write { path, contents: sk }, write_public];
    reveal_with_fuel(apply_steps, 3);
    assert(writes.drop_first() =~= seq![write_public]);
    assert(writes.drop_first().drop_first() =~= Seq::<FileStep>::empty());
}

/// A save that is not refused leaves exactly this: the secret key at
/// `path`, the public key beside it, and every other file as it was.
pub proof fn lemma_save_writes_both(
    files: Files,
    sk: Seq<char>,
    pk: Seq<char>,
    path: Seq<char>,
    force: bool,
)
    requires
        !save_refused(files.dom().contains(path), force),
    ensures
        files_after_save(files, sk, pk, path, force) == Some(
            files.insert(path, sk).insert(public_key_path(path), pk),
        ),
{
    lemma_public_key_path_differs(path);
    let pub_path = public_key_path(path);
    let steps = save_steps(sk, pk, path, files.dom().contains(path), files.dom().contains(pub_path));
    let wanted = files.insert(path, sk).insert(pub_path, pk);
    let writes = seq![
        FileStep::Write { path, contents: sk },
        FileStep::Write { path: pub_path, contents: pk },
    ];
    reveal_with_fuel(apply_steps, 3);
    if files.dom().contains(path) {
        let first = files.remove(path);
        if files.dom().contains(pub_path) {
            let second = first.remove(pub_path);
            assert(steps.drop_first().drop_first() =~= writes);
            assert(apply_steps(files, steps) == apply_steps(second, writes));
            lemma_write_both(second, sk, pk, path);
            assert(second.insert(path, sk).insert(pub_path, pk) =~= wanted);
        } else {
            assert(steps.drop_first() =~= writes);
            assert(apply_steps(files, steps) == apply_steps(first, writes));
            lemma_write_both(first, sk, pk, path);
            assert(first.insert(path, sk).insert(pub_path, pk) =~= wanted);
        }
    } else {
        if files.dom().contains(pub_path) {
            let first = files.remove(pub_path);
            assert(steps.drop_first() =~= writes);
            assert(apply_steps(files, steps) == apply_steps(first, writes));
            lemma_write_both(first, sk, pk, path);
            assert(first.insert(path, sk).insert(pub_path, pk) =~= wanted);
        } else {
            assert(steps =~= writes);
            lemma_write_both(files, sk, pk, path);
        }
    }
}

/// Saving twice to one path without `force`: the second save is refused,
/// and the files of the first pair stay as the first save left them.
pub proof fn lemma_second_save_is_refused(
    files: Files,
    first_sk: Seq<char>,
    first_pk: Seq<char>,
    second_sk: Seq<char>,
    second_pk: Seq<char>,
    path: Seq<char>,
    force: bool,
)
    requires
        files_after_save(files, first_sk, first_pk, path, force) is Some,
    ensures
        ({
            let saved = files_after_save(files, first_sk, first_pk, path, force)->0;
            &&& files_after_save(saved, second_sk, second_pk, path, false) is None
            &&& save_refused(saved.dom().contains(path), false)
            &&& saved.dom().contains(path) && saved[path] == first_sk
            &&& saved.dom().contains(public_key_path(path)) && saved[public_key_path(path)]
                == first_pk
        }),
{
    lemma_public_key_path_differs(path);
    lemma_save_writes_both(files, first_sk, first_pk, path, force);
}

/// Saving twice to one path with `force`: both saves go through, and the
/// files then hold the second pair, with nothing left of the first.
pub proof fn lemma_forced_save_replaces(
    files: Files,
    first_sk: Seq<char>,
    first_pk: Seq<char>,
    second_sk: Seq<char>,
    second_pk: Seq<char>,
    path: Seq<char>,
)
    ensures
        files_after_save(files, first_sk, first_pk, path, true) is Some,
        ({
            let saved = files_after_save(files, first_sk, first_pk, path, true)->0;
            &&& files_after_save(saved, second_sk, second_pk, path, true) is Some
            &&& files_after_save(saved, second_sk, second_pk, path, true) == files_after_save(
                files,
                second_sk,
                second_pk,
                path,
                true,
            )
            &&& files_after_save(saved, second_sk, second_pk, path, true)->0[path] == second_sk
            &&& files_after_save(saved, second_sk, second_pk, path, true)->0[public_key_path(
                path,
            )] == second_pk
        }),
{
    lemma_public_key_path_differs(path);
    lemma_save_writes_both(files, first_sk, first_pk, path, true);
    let saved = files.insert(path, first_sk).insert(public_key_path(path), first_pk);
    lemma_save_writes_both(saved, second_sk, second_pk, path, true);
    lemma_save_writes_both(files, second_sk, second_pk, path, true);
    assert(saved.insert(path, second_sk).insert(public_key_path(path), second_pk)
        =~= files.insert(path, second_sk).insert(public_key_path(path), second_pk));
}

} // verus!
