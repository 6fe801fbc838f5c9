//! End-to-end history scenarios against real repositories.

use reqtrace::git_ops::{git_commit_file, git_init, git_log};

fn repo_dir() -> (tempfile::TempDir, String) {
    let dir = tempfile::tempdir().unwrap();
    let path = dir.path().to_str().unwrap().to_string();
    let msg = git_init(path.clone()).unwrap();
    assert_eq!(msg, "Repository initialized successfully");
    (dir, path)
}

fn write_file(root: &str, rel: &str, content: &str) {
    let full = std::path::Path::new(root).join(rel);
    if let Some(parent) = full.parent() {
        fs_err::create_dir_all(parent).unwrap();
    }
    fs_err::write(full, content).unwrap();
}

fn commit_file(path: &str, rel: &str, message: &str) -> String {
    git_commit_file(path.to_string(), rel.to_string(), message.to_string())
        .0
        .unwrap()
}

fn log_of(path: &str, file: Option<&str>) -> Vec<reqtrace::git_ops::CommitInfo> {
    git_log(path.to_string(), file.map(|f| f.to_string())).0.unwrap()
}

/// Create a commit whose tree holds exactly `files` (top-level names), with
/// the given parents, directly through the object store.
fn tree_commit(
    path: &str,
    files: &[(&str, &[u8])],
    parents: &[&str],
    msg: &str,
    update_head: bool,
) -> String {
    let repo = git2::Repository::open(path).unwrap();
    let mut builder = repo.treebuilder(None).unwrap();
    for (name, content) in files {
        let oid = repo.blob(content).unwrap();
        builder.insert(*name, oid, 0o100644).unwrap();
    }
    let tree = repo.find_tree(builder.write().unwrap()).unwrap();
    let sig = git2::Signature::now("Test", "test@example.com").unwrap();
    let parent_commits: Vec<git2::Commit> = parents
        .iter()
        .map(|p| repo.find_commit(git2::Oid::from_str(p).unwrap()).unwrap())
        .collect();
    let parent_refs: Vec<&git2::Commit> = parent_commits.iter().collect();
    let update = if update_head { Some("HEAD") } else { None };
    repo.commit(update, &sig, &sig, msg, &tree, &parent_refs)
        .unwrap()
        .to_string()
}

#[test]
fn unfiltered_history_returns_every_commit_newest_first() {
    let (_dir, path) = repo_dir();
    write_file(&path, "one.txt", "1");
    let h1 = commit_file(&path, "one.txt", "first");
    write_file(&path, "two.txt", "2");
    let h2 = commit_file(&path, "two.txt", "second");
    write_file(&path, "three.txt", "3");
    let h3 = commit_file(&path, "three.txt", "third");

    let log = log_of(&path, None);
    assert_eq!(log.len(), 3);
    assert_eq!(log[0].hash, h3);
    assert_eq!(log[1].hash, h2);
    assert_eq!(log[2].hash, h1);
}

#[test]
fn empty_repository_has_empty_history() {
    let (_dir, path) = repo_dir();
    let log = log_of(&path, None);
    assert_eq!(log.len(), 0);
    let filtered = log_of(&path, Some("anything.txt"));
    assert_eq!(filtered.len(), 0);
}

#[test]
fn untouched_path_has_empty_history() {
    let (_dir, path) = repo_dir();
    write_file(&path, "one.txt", "1");
    commit_file(&path, "one.txt", "first");
    write_file(&path, "two.txt", "2");
    commit_file(&path, "two.txt", "second");

    let log = log_of(&path, Some("never-there.txt"));
    assert_eq!(log.len(), 0);
}

#[test]
fn path_added_in_root_commit_yields_exactly_that_commit() {
    let (_dir, path) = repo_dir();
    write_file(&path, "requirements/r1.md", "A");
    let h = commit_file(&path, "requirements/r1.md", "add r1");

    let log = log_of(&path, Some("requirements/r1.md"));
    assert_eq!(log.len(), 1);
    assert_eq!(log[0].hash, h);
    assert_eq!(log[0].message, "add r1");
}

#[test]
fn modification_yields_both_commits_newest_first() {
    let (_dir, path) = repo_dir();
    let rel = "requirements/r1.md";
    write_file(&path, rel, "A");
    let ha = commit_file(&path, rel, "add r1");
    write_file(&path, rel, "B");
    let hb = commit_file(&path, rel, "update r1");

    let log = log_of(&path, Some(rel));
    assert_eq!(log.len(), 2);
    assert_eq!(log[0].hash, hb);
    assert_eq!(log[1].hash, ha);
}

#[test]
fn removal_reported_and_unchanged_commit_skipped() {
    let (_dir, path) = repo_dir();
    let a = tree_commit(&path, &[("p.txt", b"A")], &[], "add p", true);
    let b = tree_commit(
        &path,
        &[("p.txt", b"A"), ("other.txt", b"x")],
        &[&a],
        "unrelated change",
        true,
    );
    let c = tree_commit(&path, &[("other.txt", b"x")], &[&b], "remove p", true);

    let log = log_of(&path, Some("p.txt"));
    let hashes: Vec<&str> = log.iter().map(|c| c.hash.as_str()).collect();
    assert_eq!(hashes, vec![c.as_str(), a.as_str()]);
}

#[test]
fn merge_included_when_one_parent_lacks_the_path() {
    let (_dir, path) = repo_dir();
    let a = tree_commit(&path, &[("p.txt", b"A")], &[], "root", true);
    // One branch keeps the path unchanged, the other drops it.
    let x = tree_commit(
        &path,
        &[("p.txt", b"A"), ("x.txt", b"x")],
        &[&a],
        "keep p",
        true,
    );
    let y = tree_commit(&path, &[("y.txt", b"y")], &[&a], "drop p", false);
    let m = tree_commit(
        &path,
        &[("p.txt", b"A"), ("x.txt", b"x"), ("y.txt", b"y")],
        &[&x, &y],
        "merge",
        true,
    );

    let log = log_of(&path, Some("p.txt"));
    let hashes: Vec<&str> = log.iter().map(|c| c.hash.as_str()).collect();
    assert_eq!(hashes[0], m.as_str());
    assert!(hashes.contains(&y.as_str()));
    assert!(hashes.contains(&a.as_str()));
    assert!(!hashes.contains(&x.as_str()));
}

#[test]
fn commit_path_round_trips_into_history() {
    let (_dir, path) = repo_dir();
    let rel = "usecases/u1.md";
    write_file(&path, rel, "use case one");
    let h = commit_file(&path, rel, "add u1");

    let log = log_of(&path, Some(rel));
    assert_eq!(log[0].hash, h);
}

#[test]
fn scenario_add_then_update_r1() {
    let (_dir, path) = repo_dir();
    let rel = "requirements/r1.md";
    write_file(&path, rel, "A");
    let add = commit_file(&path, rel, "add r1");
    let log = log_of(&path, Some(rel));
    assert_eq!(log.len(), 1);

    write_file(&path, rel, "B");
    let update = commit_file(&path, rel, "update r1");
    let log = log_of(&path, Some(rel));
    assert_eq!(log.len(), 2);
    assert_eq!(log[0].hash, update);
    assert_eq!(log[0].message, "update r1");
    assert_eq!(log[1].hash, add);
    assert_eq!(log[1].message, "add r1");
}

#[test]
fn log_of_missing_repository_is_an_error() {
    let dir = tempfile::tempdir().unwrap();
    let path = dir
        .path()
        .join("nowhere")
        .to_str()
        .unwrap()
        .to_string();
    let err = git_log(path, None).0.unwrap_err();
    assert!(err.starts_with("Failed to open repository"));
}
