//! Path-scoped history: which commits touched a path, and how a walk of the
//! commit graph is turned into the records a caller sees.
//!
//! The object store reports, for every visited commit, the content id of the
//! entry at the filtered path in the commit's own tree and in each parent's
//! tree (`None` when the path is absent there, or when the lookup failed and
//! degrades to "absent"). Everything after that observation is decided here
//! and verified: a commit is relevant iff it is a root commit that holds the
//! path, or some parent line disagrees with it on the path's presence or
//! content.

use vstd::prelude::*;

verus! {

/// One entry of a history result: a commit's hash, message, author display
/// name and timestamp in seconds since the epoch.
#[derive(Debug, Clone, PartialEq, Eq)]
pub struct CommitInfo {
    pub hash: String,
    pub message: String,
    pub author: String,
    pub timestamp: i64,
}

/// What the store reported for one visited commit: its metadata, plus the
/// observation of the filtered path (entry id in the commit's tree, and in
/// each parent's tree; `None` means absent). For an unfiltered walk the
/// observation fields are left empty and never consulted.
pub struct CommitRecord {
    pub hash: String,
    pub message: Option<String>,
    pub author: Option<String>,
    pub timestamp: i64,
    pub entry_id: Option<String>,
    pub parent_entry_ids: Vec<Option<String>>,
}

/// The mathematical image of one history entry.
#[verifier::ext_equal]
pub struct CommitView {
    pub hash: Seq<char>,
    pub message: Seq<char>,
    pub author: Seq<char>,
    pub timestamp: int,
}

/// The path differs between two trees: present in one and not the other, or
/// present in both under different content ids.
pub open spec fn entry_differs(a: Option<String>, b: Option<String>) -> bool {
    match (a, b) {
        (Option::Some(x), Option::Some(y)) => x@ != y@,
        (Option::None, Option::None) => false,
        _ => true,
    }
}

/// The commit changed the filtered path: a root commit holds it, or some
/// parent disagrees with the commit on its presence or content.
pub open spec fn touches(r: CommitRecord) -> bool {
    if r.parent_entry_ids@.len() == 0 {
        r.entry_id is Some
    } else {
        exists|i: int|
            0 <= i < r.parent_entry_ids@.len() && entry_differs(
                r.entry_id,
                r.parent_entry_ids@[i],
            )
    }
}

/// A record belongs to the result: always for an unfiltered walk, otherwise
/// exactly when the commit touches the path.
pub open spec fn included(r: CommitRecord, filtered: bool) -> bool {
    !filtered || touches(r)
}

/// How a record is materialized: a missing message becomes the empty string,
/// a missing author name the fixed fallback label.
pub open spec fn commit_view(r: CommitRecord) -> CommitView {
    CommitView {
        hash: r.hash@,
        message: match r.message {
            Option::Some(m) => m@,
            Option::None => Seq::<char>::empty(),
        },
        author: match r.author {
            Option::Some(a) => a@,
            Option::None => "Unknown"@,
        },
        timestamp: r.timestamp as int,
    }
}

pub open spec fn info_view(c: CommitInfo) -> CommitView {
    CommitView { hash: c.hash@, message: c.message@, author: c.author@, timestamp: c.timestamp as int }
}

pub open spec fn views_of(cs: Seq<CommitInfo>) -> Seq<CommitView> {
    cs.map_values(|c: CommitInfo| info_view(c))
}

/// The history a walk yields: the subsequence of included records, in walk
/// order, each materialized.
pub open spec fn selected(rs: Seq<CommitRecord>, filtered: bool) -> Seq<CommitView>
    decreases rs.len(),
{
    if rs.len() == 0 {
        Seq::<CommitView>::empty()
    } else if included(rs[0], filtered) {
        seq![commit_view(rs[0])] + selected(rs.drop_first(), filtered)
    } else {
        selected(rs.drop_first(), filtered)
    }
}

fn ids_differ(a: &Option<String>, b: &Option<String>) -> (d: bool)
    ensures
        d == entry_differs(*a, *b),
{
    match (a, b) {
        (Option::Some(x), Option::Some(y)) => !(*x == *y),
        (Option::None, Option::None) => false,
        _ => true,
    }
}

/// The relevance decision for one commit, with the short-circuit over
/// parents: stop at the first parent line that shows a difference.
pub fn path_changed(r: &CommitRecord) -> (c: bool)
    ensures
        c == touches(*r),
{
    let n = r.parent_entry_ids.len();
    if n == 0 {
        return r.entry_id.is_some();
    }
    let mut i: usize = 0;
    while i < n
        invariant
            i <= n,
            n == r.parent_entry_ids@.len(),
            forall|j: int| 0 <= j < i ==> !entry_differs(r.entry_id, r.parent_entry_ids@[j]),
        decreases n - i,
    {
        if ids_differ(&r.entry_id, &r.parent_entry_ids[i]) {
            return true;
        }
        i += 1;
    }
    false
}

/// Materialize one record: hash verbatim, message defaulted to the empty
/// string, author defaulted to the fallback label.
pub fn materialize(r: &CommitRecord) -> (c: CommitInfo)
    ensures
        info_view(c) == commit_view(*r),
{
    let message = match &r.message {
        Option::Some(m) => m.clone(),
        Option::None => String::new(),
    };
    let author = match &r.author {
        Option::Some(a) => a.clone(),
        Option::None => "Unknown".to_owned(),
    };
    CommitInfo { hash: r.hash.clone(), message, author, timestamp: r.timestamp }
}

proof fn lemma_selected_push(rs: Seq<CommitRecord>, r: CommitRecord, filtered: bool)
    ensures
        selected(rs.push(r), filtered) == (if included(r, filtered) {
            selected(rs, filtered).push(commit_view(r))
        } else {
            selected(rs, filtered)
        }),
    decreases rs.len(),
{
    let whole = rs.push(r);
    assert(whole.len() == rs.len() + 1);
    if rs.len() == 0 {
        assert(whole.drop_first() =~= Seq::<CommitRecord>::empty());
        assert(whole[0] == r);
        assert(selected(Seq::<CommitRecord>::empty(), filtered) == Seq::<CommitView>::empty());
        assert(selected(whole.drop_first(), filtered) == Seq::<CommitView>::empty());
        assert(selected(rs, filtered) == Seq::<CommitView>::empty());
        if included(r, filtered) {
            assert(selected(whole, filtered) == seq![commit_view(r)] + Seq::<CommitView>::empty());
            assert(seq![commit_view(r)] + Seq::<CommitView>::empty() =~= selected(
                rs,
                filtered,
            ).push(commit_view(r)));
        } else {
            assert(selected(whole, filtered) == Seq::<CommitView>::empty());
        }
    } else {
        assert(whole[0] == rs[0]);
        assert(whole.drop_first() =~= rs.drop_first().push(r));
        lemma_selected_push(rs.drop_first(), r, filtered);
        assert(selected(whole.drop_first(), filtered) == (if included(r, filtered) {
            selected(rs.drop_first(), filtered).push(commit_view(r))
        } else {
            selected(rs.drop_first(), filtered)
        }));
        if included(rs[0], filtered) {
            assert(selected(whole, filtered) == seq![commit_view(rs[0])] + selected(
                whole.drop_first(),
                filtered,
            ));
            assert(selected(rs, filtered) == seq![commit_view(rs[0])] + selected(
                rs.drop_first(),
                filtered,
            ));
            if included(r, filtered) {
                assert(seq![commit_view(rs[0])] + selected(rs.drop_first(), filtered).push(
                    commit_view(r),
                ) =~= (seq![commit_view(rs[0])] + selected(rs.drop_first(), filtered)).push(
                    commit_view(r),
                ));
            }
        } else {
            assert(selected(whole, filtered) == selected(whole.drop_first(), filtered));
            assert(selected(rs, filtered) == selected(rs.drop_first(), filtered));
        }
    }
}

/// An unfiltered walk keeps every commit: the result has one entry per
/// visited commit, in walk order, each materialized verbatim.
pub proof fn lemma_unfiltered_keeps_all(rs: Seq<CommitRecord>)
    ensures
        selected(rs, false).len() == rs.len(),
        forall|i: int| 0 <= i < rs.len() ==> selected(rs, false)[i] == commit_view(rs[i]),
    decreases rs.len(),
{
    if rs.len() > 0 {
        lemma_unfiltered_keeps_all(rs.drop_first());
        assert(selected(rs, false) == seq![commit_view(rs[0])] + selected(rs.drop_first(), false));
        assert forall|i: int| 0 <= i < rs.len() implies selected(rs, false)[i] == commit_view(
            rs[i],
        ) by {
            if i > 0 {
                assert(selected(rs, false)[i] == selected(rs.drop_first(), false)[i - 1]);
                assert(rs.drop_first()[i - 1] == rs[i]);
            }
        }
    }
}

/// The path was never present anywhere near this record: absent from the
/// commit's own tree and from every parent's tree.
pub open spec fn never_present(r: CommitRecord) -> bool {
    &&& r.entry_id is None
    &&& forall|i: int| 0 <= i < r.parent_entry_ids@.len() ==> r.parent_entry_ids@[i] is None
}

/// A record of a commit around which the path never existed is not relevant.
pub proof fn lemma_never_present_not_touched(r: CommitRecord)
    requires
        never_present(r),
    ensures
        !touches(r),
{
    assert forall|i: int|
        0 <= i < r.parent_entry_ids@.len() implies !entry_differs(
        r.entry_id,
        r.parent_entry_ids@[i],
    ) by {
        assert(r.parent_entry_ids@[i] is None);
    }
}

/// A filtered history over a path that no visited commit ever held is empty.
pub proof fn lemma_never_present_history_empty(rs: Seq<CommitRecord>)
    requires
        forall|i: int| 0 <= i < rs.len() ==> never_present(#[trigger] rs[i]),
    ensures
        selected(rs, true) == Seq::<CommitView>::empty(),
    decreases rs.len(),
{
    if rs.len() > 0 {
        lemma_never_present_not_touched(rs[0]);
        assert(forall|i: int|
            0 <= i < rs.drop_first().len() ==> #[trigger] rs.drop_first()[i] == rs[i + 1]);
        lemma_never_present_history_empty(rs.drop_first());
    }
}

/// A root commit that holds the path is relevant, and a walk that visits it
/// alone reports exactly that commit.
pub proof fn lemma_root_addition(r: CommitRecord)
    requires
        r.parent_entry_ids@.len() == 0,
        r.entry_id is Some,
    ensures
        touches(r),
        selected(seq![r], true) == seq![commit_view(r)],
{
    let rs = seq![r];
    assert(rs.drop_first() =~= Seq::<CommitRecord>::empty());
    assert(selected(rs.drop_first(), true) == Seq::<CommitView>::empty());
    assert(selected(rs, true) =~= seq![commit_view(r)]);
}

/// A path added in a root commit and modified in its child is reported as
/// both commits, newest first.
pub proof fn lemma_add_then_modify(b: CommitRecord, a: CommitRecord)
    requires
        a.parent_entry_ids@.len() == 0,
        a.entry_id is Some,
        b.parent_entry_ids@ == seq![a.entry_id],
        b.entry_id is Some,
        entry_differs(b.entry_id, a.entry_id),
    ensures
        selected(seq![b, a], true) == seq![commit_view(b), commit_view(a)],
{
    assert(entry_differs(b.entry_id, b.parent_entry_ids@[0]));
    assert(touches(b));
    let rs = seq![b, a];
    assert(rs.drop_first() =~= seq![a]);
    lemma_root_addition(a);
    assert(selected(rs, true) =~= seq![commit_view(b), commit_view(a)]);
}

/// A path added in a root commit, carried unchanged through a middle commit,
/// and removed in the newest one is reported as the removal and the addition
/// only: the untouched middle commit is skipped.
pub proof fn lemma_removal_skips_unchanged(c: CommitRecord, b: CommitRecord, a: CommitRecord)
    requires
        a.parent_entry_ids@.len() == 0,
        a.entry_id is Some,
        b.parent_entry_ids@ == seq![a.entry_id],
        b.entry_id is Some,
        !entry_differs(b.entry_id, a.entry_id),
        c.parent_entry_ids@ == seq![b.entry_id],
        c.entry_id is None,
    ensures
        selected(seq![c, b, a], true) == seq![commit_view(c), commit_view(a)],
{
    assert(entry_differs(c.entry_id, c.parent_entry_ids@[0]));
    assert(touches(c));
    assert(!touches(b)) by {
        assert forall|i: int|
            0 <= i < b.parent_entry_ids@.len() implies !entry_differs(
            b.entry_id,
            b.parent_entry_ids@[i],
        ) by {
            assert(b.parent_entry_ids@[i] == a.entry_id);
        }
    }
    let rs = seq![c, b, a];
    assert(rs.drop_first() =~= seq![b, a]);
    assert(rs.drop_first().drop_first() =~= seq![a]);
    lemma_root_addition(a);
    assert(selected(seq![b, a], true) == selected(seq![a], true));
    assert(selected(rs, true) =~= seq![commit_view(c), commit_view(a)]);
}

/// A commit that disagrees with any one of its parents on the path is
/// relevant; in particular a merge whose second parent lacks a path the
/// merge itself holds.
pub proof fn lemma_parent_difference_touches(r: CommitRecord, j: int)
    requires
        0 <= j < r.parent_entry_ids@.len(),
        entry_differs(r.entry_id, r.parent_entry_ids@[j]),
    ensures
        touches(r),
{
}

/// Every relevant visited commit appears in the filtered history.
pub proof fn lemma_touched_is_reported(rs: Seq<CommitRecord>, i: int)
    requires
        0 <= i < rs.len(),
        touches(rs[i]),
    ensures
        selected(rs, true).contains(commit_view(rs[i])),
    decreases rs.len(),
{
    if i == 0 {
        assert(selected(rs, true)[0] == commit_view(rs[0]));
    } else {
        assert(rs.drop_first()[i - 1] == rs[i]);
        lemma_touched_is_reported(rs.drop_first(), i - 1);
        let sub = selected(rs.drop_first(), true);
        let k = choose|k: int| 0 <= k < sub.len() && sub[k] == commit_view(rs[i]);
        if included(rs[0], true) {
            assert(selected(rs, true)[k + 1] == commit_view(rs[i]));
        }
    }
}

/// Assemble the result of a walk: keep exactly the included records, in
/// order, each materialized.
pub fn select_commits(records: &Vec<CommitRecord>, filtered: bool) -> (out: Vec<CommitInfo>)
    ensures
        views_of(out@) == selected(records@, filtered),
{
    let mut out: Vec<CommitInfo> = Vec::new();
    let mut i: usize = 0;
    proof {
        assert(records@.take(0) =~= Seq::<CommitRecord>::empty());
        assert(views_of(out@) =~= Seq::<CommitView>::empty());
    }
    while i < records.len()
        invariant
            i <= records@.len(),
            views_of(out@) == selected(records@.take(i as int), filtered),
        decreases records@.len() - i,
    {
        let rec = &records[i];
        let keep = if filtered {
            path_changed(rec)
        } else {
            true
        };
        proof {
            lemma_selected_push(records@.take(i as int), records@[i as int], filtered);
            assert(records@.take(i as int + 1) =~= records@.take(i as int).push(
                records@[i as int],
            ));
        }
        if keep {
            let info = materialize(rec);
            let ghost prev = out@;
            out.push(info);
            proof {
                assert(views_of(out@) =~= views_of(prev).push(info_view(info)));
            }
        }
        i += 1;
    }
    proof {
        assert(records@.take(records@.len() as int) =~= records@);
    }
    out
}

} // verus!
