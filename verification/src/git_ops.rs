//! The repository operations offered upward: initialize, commit (whole tree
//! or a single path), path-scoped history, reading a blob at a commit, and
//! working-tree status.
//!
//! Each operation opens the repository, drives the trusted store adapters,
//! and leaves every decision over what they returned to the verified logic
//! in `history` and `status`. What the store reported is handed back beside
//! each result as a ghost observation, and the contracts tie the result to
//! those observations: whatever the store answered, the reported history is
//! exactly the selection the observations fix, a commit result is the id
//! the store returned, and a blob read is the decoding of the bytes the
//! store produced.

use vstd::prelude::*;

pub use crate::history::CommitInfo;
pub use crate::status::FileStatus;

verus! {

use crate::history::CommitRecord;
use crate::history::select_commits;
use crate::history::selected;
use crate::history::views_of;
use crate::status::WorktreeEntry;
use crate::status::classified;
use crate::status::file_status_view;
use crate::status::file_statuses_of;
use crate::status::is_status_label;
use crate::status::lemma_classified_labels;
use crate::status::status_views_of;
use crate::store;

/// Initialize a new Git repository.
pub fn git_init(repo_path: String) -> (res: Result<String, String>)
    ensures
        res matches Ok(m) ==> m@ == "Repository initialized successfully"@,
{
    match store::repo_init(repo_path.as_str()) {
        Ok(_) => Ok("Repository initialized successfully".to_owned()),
        Err(e) => Err(store::describe("Failed to initialize repository", &e)),
    }
}

/// The fixed author identity every commit is written with: display name,
/// then address. Injected configuration for the commit writer, produced in
/// one place rather than spelled at each call.
pub fn commit_identity() -> (id: (String, String))
    ensures
        id.0@ == "ReqTrace User"@,
        id.1@ == "user@reqtrace.local"@,
{
    ("ReqTrace User".to_owned(), "user@reqtrace.local".to_owned())
}

/// What one commit creation handed to the store and what the store
/// answered, as a ghost observation beside the result: the staged scope
/// (one path, or none for every tracked change), the head the store
/// reported, the parent handed to commit creation, the tree written from
/// the staged state, the message and identity handed over, and the id the
/// store created.
pub struct CommitObservation {
    pub staged_path: Option<Seq<char>>,
    pub head: Option<Seq<char>>,
    pub parent: Option<Seq<char>>,
    pub tree_id: Seq<char>,
    pub message: Seq<char>,
    pub author_name: Seq<char>,
    pub author_email: Seq<char>,
    pub id: Seq<char>,
}

spec fn id_view(o: Option<String>) -> Option<Seq<char>> {
    match o {
        Option::Some(s) => Some(s@),
        Option::None => None,
    }
}

/// Write the staged state as a tree and commit it under the configured
/// identity: chained to the current head as sole parent when one exists,
/// as a parentless root commit otherwise. On success the observation shows
/// exactly what was handed to the store — the caller's message verbatim,
/// the fixed identity, the tree written from the staged state, and as sole
/// parent precisely the head the store reported (none for a root commit) —
/// and the result is the id the store answered with.
fn commit_staged(repo: &git2::Repository, message: &str, staged: Ghost<Option<Seq<char>>>) -> (r: (
    Result<String, String>,
    Ghost<Option<CommitObservation>>,
))
    ensures
        r.0 matches Ok(h) ==> (r.1@ matches Some(obs) && obs.staged_path == staged@ && obs.parent
            == obs.head && obs.id == h@ && obs.message == message@ && obs.author_name
            == "ReqTrace User"@ && obs.author_email == "user@reqtrace.local"@),
{
    let tree_id = match store::write_index_tree(repo) {
        Ok(t) => t,
        Err(e) => {
            return (Err(store::describe("Failed to write tree", &e)), Ghost(Option::None));
        },
    };
    let head = match store::head_target(repo) {
        Ok(h) => h,
        Err(e) => {
            return (Err(store::describe("Failed to get HEAD target", &e)), Ghost(Option::None));
        },
    };
    let identity = commit_identity();
    let ghost observed_head: Option<Seq<char>> = id_view(head);
    let created = match head {
        Option::Some(parent_id) => store::create_child_commit(
            repo,
            tree_id.as_str(),
            identity.0.as_str(),
            identity.1.as_str(),
            message,
            parent_id.as_str(),
        ),
        Option::None => store::create_root_commit(
            repo,
            tree_id.as_str(),
            identity.0.as_str(),
            identity.1.as_str(),
            message,
        ),
    };
    match created {
        Ok(id) => {
            let ghost obs = CommitObservation {
                staged_path: staged@,
                head: observed_head,
                parent: observed_head,
                tree_id: tree_id@,
                message: message@,
                author_name: identity.0@,
                author_email: identity.1@,
                id: id@,
            };
            (Ok(id), Ghost(Some(obs)))
        },
        Err(e) => (
            Err(store::describe("Failed to create commit", &e)),
            Ghost(Option::<CommitObservation>::None),
        ),
    }
}

/// Commit all tracked changes with a message.
///
/// The second ghost return observes the staging call (true: staged, false:
/// staging failed, none: never reached); a failed staging yields an error.
/// On success the commit observation shows what was handed to the store —
/// no single-path scope, the caller's message, the fixed identity, and as
/// sole parent exactly the head the store reported (none for a root
/// commit) — and the returned hash is the id the store created.
pub fn git_commit(repo_path: String, message: String) -> (r: (
    Result<String, String>,
    Ghost<Option<CommitObservation>>,
    Ghost<Option<bool>>,
))
    ensures
        r.2@ == Some(false) ==> r.0 is Err,
        r.0 matches Ok(h) ==> r.2@ == Some(true),
        r.0 matches Ok(h) ==> (r.1@ matches Some(obs) && obs.staged_path is None && obs.parent
            == obs.head && obs.id == h@ && obs.message == message@ && obs.author_name
            == "ReqTrace User"@ && obs.author_email == "user@reqtrace.local"@),
{
    let repo = match store::repo_open(repo_path.as_str()) {
        Ok(opened) => opened,
        Err(e) => {
            return (
                Err(store::describe("Failed to open repository", &e)),
                Ghost(Option::None),
                Ghost(Option::None),
            );
        },
    };
    match store::stage_all(&repo) {
        Ok(u) => u,
        Err(e) => {
            return (
                Err(store::describe("Failed to add files", &e)),
                Ghost(Option::None),
                Ghost(Some(false)),
            );
        },
    }
    let (res, obs) = commit_staged(&repo, message.as_str(), Ghost(Option::None));
    (res, obs, Ghost(Some(true)))
}

/// Commit a single file with a specific message.
///
/// The second ghost return observes the staging call (true: staged, false:
/// staging failed, none: never reached); a failed staging — a path that
/// names no file in the working tree — yields an error. On success the
/// commit observation shows what was handed to the store: exactly
/// `file_path` was staged, the caller's message and the fixed identity
/// were handed over, and the sole parent is exactly the head the store
/// reported (none for a root commit); the returned hash is the id the
/// store created.
pub fn git_commit_file(repo_path: String, file_path: String, message: String) -> (r: (
    Result<String, String>,
    Ghost<Option<CommitObservation>>,
    Ghost<Option<bool>>,
))
    ensures
        r.2@ == Some(false) ==> r.0 is Err,
        r.0 matches Ok(h) ==> r.2@ == Some(true),
        r.0 matches Ok(h) ==> (r.1@ matches Some(obs) && obs.staged_path == Some(file_path@)
            && obs.parent == obs.head && obs.id == h@ && obs.message == message@
            && obs.author_name == "ReqTrace User"@ && obs.author_email
            == "user@reqtrace.local"@),
{
    let repo = match store::repo_open(repo_path.as_str()) {
        Ok(opened) => opened,
        Err(e) => {
            return (
                Err(store::describe("Failed to open repository", &e)),
                Ghost(Option::None),
                Ghost(Option::None),
            );
        },
    };
    match store::stage_path(&repo, file_path.as_str()) {
        Ok(u) => u,
        Err(e) => {
            return (
                Err(store::describe("Failed to add file to index", &e)),
                Ghost(Option::None),
                Ghost(Some(false)),
            );
        },
    }
    let (res, obs) = commit_staged(&repo, message.as_str(), Ghost(Some(file_path@)));
    (res, obs, Ghost(Some(true)))
}

/// Look the filtered path up in one commit's tree. The ghost observation is
/// the store's answer: where the store reported an entry (or its absence)
/// that answer is handed on, and where the lookup failed the failure
/// degrades to "absent" rather than aborting the walk, so one bad parent
/// cannot suppress the rest of the history.
fn lookup_or_absent(repo: &git2::Repository, commit_id: &str, path: &str) -> (r: (
    Option<String>,
    Ghost<Result<Option<String>, git2::Error>>,
))
    ensures
        r.1@ matches Ok(o) ==> r.0 == o,
        r.1@ is Err ==> r.0 is None,
{
    let answer = store::entry_id_at(repo, commit_id, path);
    let ghost observed = answer;
    match answer {
        Ok(o) => (o, Ghost(observed)),
        Err(_) => (Option::None, Ghost(observed)),
    }
}

/// Walk the commit graph from the resolved head and assemble the history.
///
/// A repository with no commits yet (no head) yields the empty history, not
/// an error. Otherwise the walk visits every reachable commit once, newest
/// first; the ghost observation gathers what the store reported for each
/// visited commit, and on success the result is exactly the selection those
/// observations fix under `history::selected`: with no path filter every
/// commit, with one exactly the commits whose tree disagrees with a parent
/// (or root commits holding the path).
fn log_from_head(repo: &git2::Repository, head: Option<String>, file_path: &Option<String>) -> (r: (
    Result<Vec<CommitInfo>, String>,
    Ghost<Seq<CommitRecord>>,
))
    ensures
        head is None ==> (r.0 matches Ok(v) && v@ == Seq::<CommitInfo>::empty() && r.1@
            == Seq::<CommitRecord>::empty()),
        r.0 matches Ok(v) ==> views_of(v@) == selected(r.1@, *file_path is Some),
{
    let start = match head {
        Option::Some(s) => s,
        Option::None => {
            let empty: Vec<CommitInfo> = Vec::new();
            proof {
                assert(views_of(empty@) =~= Seq::<crate::history::CommitView>::empty());
                assert(selected(Seq::<CommitRecord>::empty(), *file_path is Some)
                    == Seq::<crate::history::CommitView>::empty());
            }
            return (Ok(empty), Ghost(Seq::<CommitRecord>::empty()));
        },
    };
    let ids = match store::walk_from(repo, start.as_str()) {
        Ok(v) => v,
        Err(e) => {
            return (Err(store::describe("Failed to walk commits", &e)), Ghost(
                Seq::<CommitRecord>::empty(),
            ));
        },
    };
    let mut records: Vec<CommitRecord> = Vec::new();
    let mut i: usize = 0;
    while i < ids.len()
        invariant
            head is Some,
        decreases ids@.len() - i,
    {
        let id = &ids[i];
        let raw = match store::load_commit(repo, id.as_str()) {
            Ok(loaded) => loaded,
            Err(e) => {
                return (Err(store::describe("Failed to find commit", &e)), Ghost(
                    Seq::<CommitRecord>::empty(),
                ));
            },
        };
        let mut entry_id: Option<String> = Option::None;
        let mut parent_entry_ids: Vec<Option<String>> = Vec::new();
        match file_path {
            Option::Some(p) => {
                let (own_entry, _) = lookup_or_absent(repo, id.as_str(), p.as_str());
                entry_id = own_entry;
                let mut j: usize = 0;
                while j < raw.parent_ids.len()
                    decreases raw.parent_ids@.len() - j,
                {
                    let (parent_entry, _) = lookup_or_absent(
                        repo,
                        raw.parent_ids[j].as_str(),
                        p.as_str(),
                    );
                    parent_entry_ids.push(parent_entry);
                    j += 1;
                }
            },
            Option::None => {},
        }
        records.push(
            CommitRecord {
                hash: id.clone(),
                message: raw.message,
                author: raw.author,
                timestamp: raw.timestamp,
                entry_id,
                parent_entry_ids,
            },
        );
        i += 1;
    }
    let out = select_commits(&records, file_path.is_some());
    (Ok(out), Ghost(records@))
}

/// Commit history, scoped to one file when a path is given.
///
/// The ghost observation is one record per visited commit, as the store
/// reported it; whatever the store answered, on success the result equals
/// `history::selected` over those observations, which fixes exactly which
/// commits are reported, their order, and how each is materialized.
pub fn git_log(repo_path: String, file_path: Option<String>) -> (r: (
    Result<Vec<CommitInfo>, String>,
    Ghost<Seq<CommitRecord>>,
))
    ensures
        r.0 matches Ok(v) ==> views_of(v@) == selected(r.1@, file_path is Some),
{
    let repo = match store::repo_open(repo_path.as_str()) {
        Ok(opened) => opened,
        Err(e) => {
            return (Err(store::describe("Failed to open repository", &e)), Ghost(
                Seq::<CommitRecord>::empty(),
            ));
        },
    };
    let head = match store::head_target(&repo) {
        Ok(h) => h,
        Err(e) => {
            return (Err(store::describe("Failed to push HEAD", &e)), Ghost(
                Seq::<CommitRecord>::empty(),
            ));
        },
    };
    log_from_head(&repo, head, &file_path)
}

/// Decode blob bytes as UTF-8 text; succeeds exactly when the bytes are
/// valid UTF-8.
pub fn decode_blob(bytes: &Vec<u8>) -> (res: Result<String, String>)
    ensures
        res is Ok <==> store::utf8_text_of(bytes@) is Some,
        res matches Ok(s) ==> store::utf8_text_of(bytes@) == Some(s@),
        res matches Err(m) ==> m@ == "Failed to decode UTF-8 content"@,
{
    match store::utf8_text(bytes) {
        Option::Some(s) => Ok(s),
        Option::None => Err("Failed to decode UTF-8 content".to_owned()),
    }
}

/// The content of a file at a specific commit, as text.
///
/// The ghost observations are the store's answers: what the tree lookup
/// reported (once it completed), and the blob bytes that were fetched. A
/// lookup that reported the path absent is surfaced as the fixed not-found
/// error — the one place absence is an error rather than a history
/// decision — and a success is exactly the UTF-8 decoding of the observed
/// bytes.
pub fn git_checkout_file(repo_path: String, commit_hash: String, file_path: String) -> (r: (
    Result<String, String>,
    Ghost<Option<Option<String>>>,
    Ghost<Option<Vec<u8>>>,
))
    ensures
        r.1@ == Some(Option::<String>::None) ==> (r.0 matches Err(m) && m@
            == "File not found in commit"@),
        r.0 matches Ok(s) ==> (r.1@ matches Some(o) && o is Some),
        r.0 matches Ok(s) ==> (r.2@ matches Some(b) && store::utf8_text_of(b@) == Some(s@)),
{
    let repo = match store::repo_open(repo_path.as_str()) {
        Ok(opened) => opened,
        Err(e) => {
            return (Err(store::describe("Failed to open repository", &e)), Ghost(Option::None),
                Ghost(Option::None));
        },
    };
    let entry = match store::entry_id_at(&repo, commit_hash.as_str(), file_path.as_str()) {
        Ok(o) => o,
        Err(e) => {
            return (Err(store::describe("Failed to find commit", &e)), Ghost(Option::None),
                Ghost(Option::None));
        },
    };
    let ghost looked_up: Option<Option<String>> = Some(entry);
    let id = match entry {
        Option::Some(id) => id,
        Option::None => {
            return (Err("File not found in commit".to_owned()), Ghost(looked_up), Ghost(
                Option::None,
            ));
        },
    };
    let bytes = match store::blob_bytes(&repo, id.as_str()) {
        Ok(b) => b,
        Err(e) => {
            return (Err(store::describe("Failed to find blob", &e)), Ghost(looked_up), Ghost(
                Option::None,
            ));
        },
    };
    let ghost fetched: Option<Vec<u8>> = Some(bytes);
    (decode_blob(&bytes), Ghost(looked_up), Ghost(fetched))
}

/// Repository working-tree status: one labelled record per changed path.
///
/// The ghost observation is the entries the store reported; whatever the
/// store answered, on success the result is exactly `status::classified`
/// over those observations — one record per entry with a path, in the
/// store's order, labelled by its bits — and every label is one of "new",
/// "modified", "deleted" and "unchanged".
pub fn git_status(repo_path: String) -> (r: (
    Result<Vec<FileStatus>, String>,
    Ghost<Seq<WorktreeEntry>>,
))
    ensures
        r.0 matches Ok(v) ==> status_views_of(v@) == classified(r.1@),
        r.0 matches Ok(v) ==> forall|k: int|
            0 <= k < v@.len() ==> is_status_label(#[trigger] v@[k].status@),
{
    let repo = match store::repo_open(repo_path.as_str()) {
        Ok(opened) => opened,
        Err(e) => {
            return (Err(store::describe("Failed to open repository", &e)), Ghost(
                Seq::<WorktreeEntry>::empty(),
            ));
        },
    };
    let entries = match store::status_entries(&repo) {
        Ok(v) => v,
        Err(e) => {
            return (Err(store::describe("Failed to get status", &e)), Ghost(
                Seq::<WorktreeEntry>::empty(),
            ));
        },
    };
    let out = file_statuses_of(&entries);
    proof {
        lemma_classified_labels(entries@);
        assert forall|k: int| 0 <= k < out@.len() implies is_status_label(
            #[trigger] out@[k].status@,
        ) by {
            assert(status_views_of(out@).len() == out@.len());
            assert(status_views_of(out@)[k] == file_status_view(out@[k]));
            assert(classified(entries@)[k] == file_status_view(out@[k]));
            assert(is_status_label(classified(entries@)[k].status));
        }
    }
    (Ok(out), Ghost(entries@))
}

} // verus!
