//! The trusted boundary to the object store (git2) and to UTF-8 decoding.
//!
//! Everything here is an adapter from plain values to plain values around a
//! git2 call: opening and initializing a repository, resolving the head,
//! walking the commit graph, loading one commit's metadata, looking a path
//! up in a commit's tree, reading a blob, staging and committing. Nothing in
//! this module decides anything; every decision over what these calls return
//! is made in verified code.

use vstd::prelude::*;

verus! {

#[verifier::external_type_specification]
#[verifier::external_body]
pub struct ExRepository(git2::Repository);

#[verifier::external_type_specification]
#[verifier::external_body]
pub struct ExGitError(git2::Error);

/// What the store reports for one loaded commit: message and author name
/// where it has them, the commit timestamp, and the parent commit ids.
pub struct RawCommit {
    pub message: Option<String>,
    pub author: Option<String>,
    pub timestamp: i64,
    pub parent_ids: Vec<String>,
}

/// Relies on git2::Repository::init: creates a repository at the path.
#[verifier::external_body]
pub(crate) fn repo_init(path: &str) -> (r: Result<git2::Repository, git2::Error>) {
    git2::Repository::init(path)
}

/// Relies on git2::Repository::open: opens an existing repository.
#[verifier::external_body]
pub(crate) fn repo_open(path: &str) -> (r: Result<git2::Repository, git2::Error>) {
    git2::Repository::open(path)
}

/// Relies on git2::Error's Display impl: renders the underlying failure
/// after the caller's prefix.
#[verifier::external_body]
pub(crate) fn describe(prefix: &str, e: &git2::Error) -> (s: String) {
    format!("{}: {}", prefix, e)
}

/// Relies on git2::Repository::head and git2::Reference::target: the id of
/// the commit the head points at, or None for a repository with no commits
/// yet (an unborn or missing head).
#[verifier::external_body]
pub(crate) fn head_target(repo: &git2::Repository) -> (r: Result<Option<String>, git2::Error>) {
    match repo.head() {
        Ok(head) => Ok(head.target().map(|oid| oid.to_string())),
        Err(e) => {
            if e.code() == git2::ErrorCode::UnbornBranch || e.code() == git2::ErrorCode::NotFound {
                Ok(None)
            } else {
                Err(e)
            }
        },
    }
}

/// Relies on git2::Repository::revwalk and git2::Revwalk::push: the ids of
/// the commits reachable from the given start, newest first in traversal
/// order, each visited exactly once.
#[verifier::external_body]
pub(crate) fn walk_from(repo: &git2::Repository, start: &str) -> (r: Result<
    Vec<String>,
    git2::Error,
>) {
    let mut walk = repo.revwalk()?;
    walk.push(git2::Oid::from_str(start)?)?;
    let mut ids = Vec::new();
    for oid in walk {
        ids.push(oid?.to_string());
    }
    Ok(ids)
}

/// Relies on git2::Repository::find_commit and the Commit accessors
/// (message, author, time, parent_ids): one commit's metadata as plain
/// values; message and author name are None where the store cannot report
/// them as text.
#[verifier::external_body]
pub(crate) fn load_commit(repo: &git2::Repository, id: &str) -> (r: Result<
    RawCommit,
    git2::Error,
>) {
    let commit = repo.find_commit(git2::Oid::from_str(id)?)?;
    let mut parent_ids = Vec::new();
    for pid in commit.parent_ids() {
        parent_ids.push(pid.to_string());
    }
    let message = commit.message().ok().map(|m| m.to_owned());
    let signature = commit.author();
    let author = signature.name().ok().map(|n| n.to_owned());
    let timestamp = commit.time().seconds();
    Ok(RawCommit { message, author, timestamp, parent_ids })
}

/// Relies on git2::Commit::tree and git2::Tree::get_path: the content id of
/// the entry at the path in the commit's tree, or None when the lookup
/// reports no entry there (any get_path failure counts as absent; the
/// caller's degrade-to-absent policy builds on that).
#[verifier::external_body]
pub(crate) fn entry_id_at(repo: &git2::Repository, commit_id: &str, path: &str) -> (r: Result<
    Option<String>,
    git2::Error,
>) {
    let commit = repo.find_commit(git2::Oid::from_str(commit_id)?)?;
    let tree = commit.tree()?;
    match tree.get_path(std::path::Path::new(path)) {
        Ok(entry) => Ok(Some(entry.id().to_string())),
        Err(_) => Ok(None),
    }
}

/// Relies on git2::Repository::find_blob and git2::Blob::content: the raw
/// bytes of the blob with the given id.
#[verifier::external_body]
pub(crate) fn blob_bytes(repo: &git2::Repository, id: &str) -> (r: Result<Vec<u8>, git2::Error>) {
    let blob = repo.find_blob(git2::Oid::from_str(id)?)?;
    Ok(blob.content().to_vec())
}

/// The text that a byte sequence decodes to under UTF-8, or None where it is
/// not valid UTF-8; the decoding is a function of the bytes alone.
pub uninterp spec fn utf8_text_of(bytes: Seq<u8>) -> Option<Seq<char>>;

/// Relies on std::str::from_utf8: returns the decoded text exactly when the
/// bytes are valid UTF-8.
#[verifier::external_body]
pub(crate) fn utf8_text(bytes: &Vec<u8>) -> (r: Option<String>)
    ensures
        r is Some <==> utf8_text_of(bytes@) is Some,
        r matches Some(s) ==> utf8_text_of(bytes@) == Some(s@),
{
    match std::str::from_utf8(bytes.as_slice()) {
        Ok(s) => Some(s.to_owned()),
        Err(_) => None,
    }
}

/// Relies on git2::Repository::index, git2::Index::add_all with the
/// universal pathspec, and git2::Index::write: stages every change under
/// the working tree, like the store's stage-everything primitive.
#[verifier::external_body]
pub(crate) fn stage_all(repo: &git2::Repository) -> (r: Result<(), git2::Error>) {
    let mut index = repo.index()?;
    index.add_all(["*"].iter(), git2::IndexAddOption::DEFAULT, None)?;
    index.write()
}

/// Relies on git2::Repository::index, git2::Index::add_path and
/// git2::Index::write: stages exactly one path from the working tree.
#[verifier::external_body]
pub(crate) fn stage_path(repo: &git2::Repository, path: &str) -> (r: Result<(), git2::Error>) {
    let mut index = repo.index()?;
    index.add_path(std::path::Path::new(path))?;
    index.write()
}

/// Relies on git2::Repository::index and git2::Index::write_tree: writes the
/// staged state as a tree object and returns its id.
#[verifier::external_body]
pub(crate) fn write_index_tree(repo: &git2::Repository) -> (r: Result<String, git2::Error>) {
    let mut index = repo.index()?;
    Ok(index.write_tree()?.to_string())
}

/// Relies on git2::Repository::find_tree, git2::Signature::now and
/// git2::Repository::commit: creates a parentless root commit on HEAD from
/// the given tree and returns the new commit's id.
#[verifier::external_body]
pub(crate) fn create_root_commit(
    repo: &git2::Repository,
    tree_id: &str,
    name: &str,
    email: &str,
    message: &str,
) -> (r: Result<String, git2::Error>) {
    let tree = repo.find_tree(git2::Oid::from_str(tree_id)?)?;
    let sig = git2::Signature::now(name, email)?;
    let oid = repo.commit(Some("HEAD"), &sig, &sig, message, &tree, &[])?;
    Ok(oid.to_string())
}

/// Relies on git2::Repository::find_tree, git2::Signature::now,
/// git2::Repository::find_commit and git2::Repository::commit: creates a
/// commit on HEAD from the given tree with the given sole parent and
/// returns the new commit's id.
#[verifier::external_body]
pub(crate) fn create_child_commit(
    repo: &git2::Repository,
    tree_id: &str,
    name: &str,
    email: &str,
    message: &str,
    parent_id: &str,
) -> (r: Result<String, git2::Error>) {
    let tree = repo.find_tree(git2::Oid::from_str(tree_id)?)?;
    let sig = git2::Signature::now(name, email)?;
    let parent = repo.find_commit(git2::Oid::from_str(parent_id)?)?;
    let oid = repo.commit(Some("HEAD"), &sig, &sig, message, &tree, &[&parent])?;
    Ok(oid.to_string())
}

/// Relies on git2::Repository::statuses and the StatusEntry accessors: one
/// record per working-tree entry the store reports, with its path (None
/// where the store cannot report it as text) and the worktree status bits
/// the caller classifies by.
#[verifier::external_body]
pub(crate) fn status_entries(repo: &git2::Repository) -> (r: Result<
    Vec<crate::status::WorktreeEntry>,
    git2::Error,
>) {
    let statuses = repo.statuses(None)?;
    let mut out = Vec::new();
    for entry in statuses.iter() {
        out.push(crate::status::WorktreeEntry {
            path: entry.path().ok().map(|p| p.to_owned()),
            wt_new: entry.status().is_wt_new(),
            wt_modified: entry.status().is_wt_modified(),
            wt_deleted: entry.status().is_wt_deleted(),
        });
    }
    Ok(out)
}

} // verus!
