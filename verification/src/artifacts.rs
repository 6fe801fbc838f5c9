//! Artifact naming: the fixed project directory layout and which file names
//! count as markdown artifacts when a directory is listed.

use vstd::prelude::*;

verus! {

use vstd::string::StrSliceExecFns;

/// Metadata describing one text artifact (a requirement, use case or test
/// case) as the surrounding application tracks it.
#[derive(Debug, Clone, PartialEq, Eq)]
pub struct ArtifactMetadata {
    pub id: String,
    pub title: String,
    pub status: String,
    pub priority: String,
    pub created: String,
}

/// A name denotes a markdown artifact: at least one character of stem,
/// then the ".md" suffix.
pub open spec fn is_markdown_name(s: Seq<char>) -> bool {
    s.len() >= 4 && s[s.len() - 3] == '.' && s[s.len() - 2] == 'm' && s[s.len() - 1] == 'd'
}

/// Whether a file name counts as a markdown artifact.
pub fn has_markdown_extension(name: &String) -> (r: bool)
    ensures
        r == is_markdown_name(name@),
{
    let s = name.as_str();
    let n = s.unicode_len();
    if n < 4 {
        return false;
    }
    s.get_char(n - 3) == '.' && s.get_char(n - 2) == 'm' && s.get_char(n - 1) == 'd'
}

pub open spec fn name_views(ss: Seq<String>) -> Seq<Seq<char>> {
    ss.map_values(|s: String| s@)
}

/// The names a directory listing keeps: exactly the markdown artifact
/// names, in their original order.
pub open spec fn markdown_selection(names: Seq<String>) -> Seq<Seq<char>>
    decreases names.len(),
{
    if names.len() == 0 {
        Seq::<Seq<char>>::empty()
    } else if is_markdown_name(names[0]@) {
        seq![names[0]@] + markdown_selection(names.drop_first())
    } else {
        markdown_selection(names.drop_first())
    }
}

proof fn lemma_markdown_selection_push(names: Seq<String>, n: String)
    ensures
        markdown_selection(names.push(n)) == (if is_markdown_name(n@) {
            markdown_selection(names).push(n@)
        } else {
            markdown_selection(names)
        }),
    decreases names.len(),
{
    let whole = names.push(n);
    if names.len() == 0 {
        assert(whole.drop_first() =~= Seq::<String>::empty());
        assert(whole[0] == n);
        assert(markdown_selection(whole.drop_first()) == Seq::<Seq<char>>::empty());
        assert(markdown_selection(names) == Seq::<Seq<char>>::empty());
        if is_markdown_name(n@) {
            assert(markdown_selection(whole) =~= markdown_selection(names).push(n@));
        }
    } else {
        assert(whole[0] == names[0]);
        assert(whole.drop_first() =~= names.drop_first().push(n));
        lemma_markdown_selection_push(names.drop_first(), n);
        if is_markdown_name(names[0]@) {
            if is_markdown_name(n@) {
                assert(markdown_selection(whole) =~= markdown_selection(names).push(n@));
            } else {
                assert(markdown_selection(whole) =~= markdown_selection(names));
            }
        }
    }
}

/// Keep exactly the markdown artifact names of a directory listing, in
/// order.
pub fn filter_markdown_names(names: &Vec<String>) -> (out: Vec<String>)
    ensures
        name_views(out@) == markdown_selection(names@),
{
    let mut out: Vec<String> = Vec::new();
    let mut i: usize = 0;
    proof {
        assert(names@.take(0) =~= Seq::<String>::empty());
        assert(name_views(out@) =~= Seq::<Seq<char>>::empty());
    }
    while i < names.len()
        invariant
            i <= names@.len(),
            name_views(out@) == markdown_selection(names@.take(i as int)),
        decreases names@.len() - i,
    {
        let name = &names[i];
        proof {
            lemma_markdown_selection_push(names@.take(i as int), names@[i as int]);
            assert(names@.take(i as int + 1) =~= names@.take(i as int).push(names@[i as int]));
        }
        if has_markdown_extension(name) {
            let kept = name.clone();
            let ghost prev = out@;
            out.push(kept);
            proof {
                assert(name_views(out@) =~= name_views(prev).push(kept@));
            }
        }
        i += 1;
    }
    proof {
        assert(names@.take(names@.len() as int) =~= names@);
    }
    out
}

/// The four fixed subdirectories of a project directory tree, in the order
/// they are created.
pub fn project_subdirectories() -> (dirs: Vec<String>)
    ensures
        dirs@.len() == 4,
        dirs@[0]@ == "requirements"@,
        dirs@[1]@ == "usecases"@,
        dirs@[2]@ == "testcases"@,
        dirs@[3]@ == "information"@,
{
    let mut dirs: Vec<String> = Vec::new();
    dirs.push("requirements".to_owned());
    dirs.push("usecases".to_owned());
    dirs.push("testcases".to_owned());
    dirs.push("information".to_owned());
    dirs
}

} // verus!
