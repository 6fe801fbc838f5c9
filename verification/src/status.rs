//! Working-tree status: how the store's raw status bits for each entry are
//! classified into the four labels a caller sees.

use vstd::prelude::*;

verus! {

/// One entry of a status result: a working-tree path and its label, one of
/// "new", "modified", "deleted" and "unchanged".
#[derive(Debug, Clone, PartialEq, Eq)]
pub struct FileStatus {
    pub path: String,
    pub status: String,
}

/// What the store reports for one working-tree entry: its path where the
/// store has it as text, and the worktree status bits classification goes
/// by.
pub struct WorktreeEntry {
    pub path: Option<String>,
    pub wt_new: bool,
    pub wt_modified: bool,
    pub wt_deleted: bool,
}

/// The mathematical image of one status entry.
#[verifier::ext_equal]
pub struct StatusView {
    pub path: Seq<char>,
    pub status: Seq<char>,
}

/// The label an entry's status bits classify to, in priority order: new
/// before modified before deleted, and "unchanged" where none is set.
pub open spec fn status_label(e: WorktreeEntry) -> Seq<char> {
    if e.wt_new {
        "new"@
    } else if e.wt_modified {
        "modified"@
    } else if e.wt_deleted {
        "deleted"@
    } else {
        "unchanged"@
    }
}

pub open spec fn file_status_view(f: FileStatus) -> StatusView {
    StatusView { path: f.path@, status: f.status@ }
}

pub open spec fn status_views_of(fs: Seq<FileStatus>) -> Seq<StatusView> {
    fs.map_values(|f: FileStatus| file_status_view(f))
}

/// The statuses a report yields: one record per entry whose path the store
/// reported, in order, labelled by its bits; entries without a path are
/// skipped.
pub open spec fn classified(es: Seq<WorktreeEntry>) -> Seq<StatusView>
    decreases es.len(),
{
    if es.len() == 0 {
        Seq::<StatusView>::empty()
    } else {
        match es[0].path {
            Option::Some(p) => seq![StatusView { path: p@, status: status_label(es[0]) }]
                + classified(es.drop_first()),
            Option::None => classified(es.drop_first()),
        }
    }
}

/// A sequence of characters is one of the four status labels.
pub open spec fn is_status_label(s: Seq<char>) -> bool {
    s == "new"@ || s == "modified"@ || s == "deleted"@ || s == "unchanged"@
}

/// Every record a status report yields carries one of the four labels.
pub proof fn lemma_classified_labels(es: Seq<WorktreeEntry>)
    ensures
        forall|k: int|
            0 <= k < classified(es).len() ==> is_status_label(#[trigger] classified(es)[k].status),
    decreases es.len(),
{
    if es.len() > 0 {
        lemma_classified_labels(es.drop_first());
        assert forall|k: int|
            0 <= k < classified(es).len() implies is_status_label(
            #[trigger] classified(es)[k].status,
        ) by {
            match es[0].path {
                Option::Some(p) => {
                    if k > 0 {
                        assert(classified(es)[k] == classified(es.drop_first())[k - 1]);
                    }
                },
                Option::None => {
                    assert(classified(es)[k] == classified(es.drop_first())[k]);
                },
            }
        }
    }
}

/// Classify one entry's bits into its label.
pub fn classify_entry(e: &WorktreeEntry) -> (s: String)
    ensures
        s@ == status_label(*e),
{
    if e.wt_new {
        "new".to_owned()
    } else if e.wt_modified {
        "modified".to_owned()
    } else if e.wt_deleted {
        "deleted".to_owned()
    } else {
        "unchanged".to_owned()
    }
}

proof fn lemma_classified_push(es: Seq<WorktreeEntry>, e: WorktreeEntry)
    ensures
        classified(es.push(e)) == (match e.path {
            Option::Some(p) => classified(es).push(
                StatusView { path: p@, status: status_label(e) },
            ),
            Option::None => classified(es),
        }),
    decreases es.len(),
{
    let whole = es.push(e);
    if es.len() == 0 {
        assert(whole.drop_first() =~= Seq::<WorktreeEntry>::empty());
        assert(whole[0] == e);
        assert(classified(whole.drop_first()) == Seq::<StatusView>::empty());
        assert(classified(es) == Seq::<StatusView>::empty());
        match e.path {
            Option::Some(p) => {
                assert(classified(whole) =~= classified(es).push(
                    StatusView { path: p@, status: status_label(e) },
                ));
            },
            Option::None => {},
        }
    } else {
        assert(whole[0] == es[0]);
        assert(whole.drop_first() =~= es.drop_first().push(e));
        lemma_classified_push(es.drop_first(), e);
        match es[0].path {
            Option::Some(p0) => {
                match e.path {
                    Option::Some(p) => {
                        assert(classified(whole) =~= classified(es).push(
                            StatusView { path: p@, status: status_label(e) },
                        ));
                    },
                    Option::None => {
                        assert(classified(whole) =~= classified(es));
                    },
                }
            },
            Option::None => {},
        }
    }
}

/// Assemble a status report from what the store observed: one labelled
/// record per entry with a path, in the store's order.
pub fn file_statuses_of(entries: &Vec<WorktreeEntry>) -> (out: Vec<FileStatus>)
    ensures
        status_views_of(out@) == classified(entries@),
{
    let mut out: Vec<FileStatus> = Vec::new();
    let mut i: usize = 0;
    proof {
        assert(entries@.take(0) =~= Seq::<WorktreeEntry>::empty());
        assert(status_views_of(out@) =~= Seq::<StatusView>::empty());
    }
    while i < entries.len()
        invariant
            i <= entries@.len(),
            status_views_of(out@) == classified(entries@.take(i as int)),
        decreases entries@.len() - i,
    {
        let e = &entries[i];
        proof {
            lemma_classified_push(entries@.take(i as int), entries@[i as int]);
            assert(entries@.take(i as int + 1) =~= entries@.take(i as int).push(
                entries@[i as int],
            ));
        }
        match &e.path {
            Option::Some(p) => {
                let label = classify_entry(e);
                let record = FileStatus { path: p.clone(), status: label };
                let ghost prev = out@;
                out.push(record);
                proof {
                    assert(status_views_of(out@) =~= status_views_of(prev).push(
                        file_status_view(record),
                    ));
                }
            },
            Option::None => {},
        }
        i += 1;
    }
    proof {
        assert(entries@.take(entries@.len() as int) =~= entries@);
    }
    out
}

} // verus!
