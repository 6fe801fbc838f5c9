//! Unit tests of the verified decision logic on hand-built records, without
//! touching a repository.

use reqtrace::artifacts::{filter_markdown_names, has_markdown_extension, project_subdirectories};
use reqtrace::git_ops::decode_blob;
use reqtrace::history::{materialize, path_changed, select_commits, CommitRecord};
use reqtrace::status::{file_statuses_of, WorktreeEntry};

fn record(
    hash: &str,
    entry_id: Option<&str>,
    parent_entry_ids: Vec<Option<&str>>,
) -> CommitRecord {
    CommitRecord {
        hash: hash.to_string(),
        message: Some(format!("message of {}", hash)),
        author: Some("someone".to_string()),
        timestamp: 7,
        entry_id: entry_id.map(|s| s.to_string()),
        parent_entry_ids: parent_entry_ids
            .into_iter()
            .map(|p| p.map(|s| s.to_string()))
            .collect(),
    }
}

#[test]
fn root_commit_relevant_exactly_when_path_present() {
    assert!(path_changed(&record("a", Some("id1"), vec![])));
    assert!(!path_changed(&record("a", None, vec![])));
}

#[test]
fn presence_and_content_changes_are_detected() {
    // Added relative to the parent.
    assert!(path_changed(&record("b", Some("id1"), vec![None])));
    // Removed relative to the parent.
    assert!(path_changed(&record("b", None, vec![Some("id1")])));
    // Modified content.
    assert!(path_changed(&record("b", Some("id2"), vec![Some("id1")])));
    // Untouched.
    assert!(!path_changed(&record("b", Some("id1"), vec![Some("id1")])));
    assert!(!path_changed(&record("b", None, vec![None])));
}

#[test]
fn merge_relevant_when_any_parent_differs() {
    // First parent agrees, second lacks the path.
    assert!(path_changed(&record(
        "m",
        Some("id1"),
        vec![Some("id1"), None]
    )));
    // Both parents agree with the merge.
    assert!(!path_changed(&record(
        "m",
        Some("id1"),
        vec![Some("id1"), Some("id1")]
    )));
}

#[test]
fn filtered_selection_keeps_only_relevant_records_in_order() {
    let records = vec![
        record("c", None, vec![Some("id1")]),
        record("b", Some("id1"), vec![Some("id1")]),
        record("a", Some("id1"), vec![]),
    ];
    let out = select_commits(&records, true);
    let hashes: Vec<&str> = out.iter().map(|c| c.hash.as_str()).collect();
    assert_eq!(hashes, vec!["c", "a"]);
}

#[test]
fn unfiltered_selection_keeps_everything() {
    let records = vec![
        record("c", None, vec![None]),
        record("b", None, vec![None]),
        record("a", None, vec![]),
    ];
    let out = select_commits(&records, false);
    assert_eq!(out.len(), 3);
    assert_eq!(out[0].hash, "c");
    assert_eq!(out[0].message, "message of c");
    assert_eq!(out[0].author, "someone");
    assert_eq!(out[0].timestamp, 7);
}

#[test]
fn materialize_defaults_missing_message_and_author() {
    let mut r = record("a", None, vec![]);
    r.message = None;
    r.author = None;
    let info = materialize(&r);
    assert_eq!(info.hash, "a");
    assert_eq!(info.message, "");
    assert_eq!(info.author, "Unknown");
    assert_eq!(info.timestamp, 7);
}

#[test]
fn status_labels_follow_priority_and_pathless_entries_are_skipped() {
    let entries = vec![
        WorktreeEntry {
            path: Some("n.txt".to_string()),
            wt_new: true,
            wt_modified: true,
            wt_deleted: true,
        },
        WorktreeEntry {
            path: Some("m.txt".to_string()),
            wt_new: false,
            wt_modified: true,
            wt_deleted: true,
        },
        WorktreeEntry {
            path: Some("d.txt".to_string()),
            wt_new: false,
            wt_modified: false,
            wt_deleted: true,
        },
        WorktreeEntry {
            path: Some("u.txt".to_string()),
            wt_new: false,
            wt_modified: false,
            wt_deleted: false,
        },
        WorktreeEntry {
            path: None,
            wt_new: true,
            wt_modified: false,
            wt_deleted: false,
        },
    ];
    let out = file_statuses_of(&entries);
    assert_eq!(out.len(), 4);
    assert_eq!((out[0].path.as_str(), out[0].status.as_str()), ("n.txt", "new"));
    assert_eq!((out[1].path.as_str(), out[1].status.as_str()), ("m.txt", "modified"));
    assert_eq!((out[2].path.as_str(), out[2].status.as_str()), ("d.txt", "deleted"));
    assert_eq!((out[3].path.as_str(), out[3].status.as_str()), ("u.txt", "unchanged"));
}

#[test]
fn decode_blob_accepts_utf8_and_rejects_other_bytes() {
    let ok = decode_blob(&b"plain text".to_vec()).unwrap();
    assert_eq!(ok, "plain text");
    let err = decode_blob(&vec![0xff, 0xfe]).unwrap_err();
    assert_eq!(err, "Failed to decode UTF-8 content");
}

#[test]
fn markdown_names_are_recognized() {
    assert!(has_markdown_extension(&"r1.md".to_string()));
    assert!(has_markdown_extension(&"a.md".to_string()));
    assert!(!has_markdown_extension(&".md".to_string()));
    assert!(!has_markdown_extension(&"notes.txt".to_string()));
    assert!(!has_markdown_extension(&"md".to_string()));
    assert!(!has_markdown_extension(&"".to_string()));
}

#[test]
fn markdown_filter_keeps_order() {
    let names = vec![
        "b.md".to_string(),
        "x.txt".to_string(),
        "a.md".to_string(),
        ".md".to_string(),
    ];
    let out = filter_markdown_names(&names);
    assert_eq!(out, vec!["b.md".to_string(), "a.md".to_string()]);
}

#[test]
fn project_layout_has_the_four_fixed_subdirectories() {
    let dirs = project_subdirectories();
    assert_eq!(
        dirs,
        vec![
            "requirements".to_string(),
            "usecases".to_string(),
            "testcases".to_string(),
            "information".to_string()
        ]
    );
}
