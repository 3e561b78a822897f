//! Which files of a directory tree belong to a pack: hidden entries are left out, and an
//! installation also leaves out what the manifest excludes.

use vstd::prelude::*;
use vstd::string::*;
use crate::error::PackError;
use crate::memory::accepts;
use crate::upload::texts;

verus! {

/// One entry that a walk of a directory yielded.
#[derive(Clone, Debug)]
pub enum WalkEntry {
    /// A path, relative to the root of the walk.
    Found(String),
    /// The walk failed at some entry; the text is what it reported.
    Failed(String),
}

/// An entry of a directory tree.
#[derive(Clone, Debug)]
pub struct DirEntry {
    /// The path relative to the root of the tree, its components separated by `/`.
    pub path: String,
    pub is_file: bool,
}

/// What a walk of a directory tree yielded at one place: an entry, or a failure.
#[derive(Clone, Debug)]
pub enum TreeEntry {
    Entry(DirEntry),
    /// The walk failed here; the text is what it reported.
    Failed(String),
}

/// An exclude pattern of the manifest that is no valid glob.
#[derive(Clone, Copy, Debug, PartialEq, Eq, Structural)]
pub struct InvalidPattern {
    /// Position of the pattern among the manifest's excludes.
    pub index: usize,
}

/// What the `glob` crate makes of a pattern and a path: whether the pattern matches the path,
/// or nothing where the text is no valid pattern. Which characters separate the components
/// of a path goes by the target that the library is built for.
pub uninterp spec fn glob_verdict(pattern: Seq<char>, path: Seq<char>) -> Option<bool>;

/// `Pattern::new` of the `glob` crate, followed by `Pattern::matches_path`: whether the
/// pattern matches the path, or `None` where the text is no valid pattern. The contract only
/// names the outcome.
#[verifier::external_body]
fn glob_match(pattern: &str, path: &str) -> (r: Option<bool>)
    ensures
        r == glob_verdict(pattern@, path@),
{
    match glob::Pattern::new(pattern) {
        Ok(p) => Some(p.matches_path(std::path::Path::new(path))),
        Err(_) => None,
    }
}

/// No component of the path begins with a dot.
pub open spec fn visible(path: Seq<char>) -> bool {
    &&& path.len() > 0 ==> path[0] != '.'
    &&& forall|i: int| 0 <= i && i + 1 < path.len() && #[trigger] path[i] == '/' ==> path[i + 1] != '.'
}

/// What stays of a walk once the excluded paths are dropped: every failure, and every path
/// that is not marked as matched, in the walk's order.
pub open spec fn unmatched(entries: Seq<WalkEntry>, matched: Seq<bool>) -> Seq<WalkEntry>
    decreases entries.len(),
{
    if entries.len() == 0 || matched.len() != entries.len() {
        Seq::empty()
    } else {
        let before = unmatched(entries.drop_last(), matched.drop_last());
        if entries.last() is Failed || !matched.last() {
            before.push(entries.last())
        } else {
            before
        }
    }
}

/// The paths among `paths` that are marked, in order.
pub open spec fn chosen(paths: Seq<Seq<char>>, kept: Seq<bool>) -> Seq<Seq<char>>
    decreases paths.len(),
{
    if paths.len() == 0 || kept.len() != paths.len() {
        Seq::empty()
    } else {
        let before = chosen(paths.drop_last(), kept.drop_last());
        if kept.last() {
            before.push(paths.last())
        } else {
            before
        }
    }
}

/// The files of a directory tree that a pack may hold: regular files below no hidden entry.
pub open spec fn candidates(entries: Seq<DirEntry>) -> Seq<Seq<char>>
    decreases entries.len(),
{
    if entries.len() == 0 {
        Seq::empty()
    } else {
        let before = candidates(entries.drop_last());
        if entries.last().is_file && visible(entries.last().path@) {
            before.push(entries.last().path@)
        } else {
            before
        }
    }
}

/// The files that a pack may hold among what a walk of a directory tree yielded: the regular
/// files below no hidden entry, in the walk's order.
pub open spec fn tree_candidates(tree: Seq<TreeEntry>) -> Seq<Seq<char>>
    decreases tree.len(),
{
    if tree.len() == 0 {
        Seq::empty()
    } else {
        let before = tree_candidates(tree.drop_last());
        match tree.last() {
            TreeEntry::Entry(entry) => if entry.is_file && visible(entry.path@) {
                before.push(entry.path@)
            } else {
                before
            },
            TreeEntry::Failed(_) => before,
        }
    }
}

/// Whether a walk entry is the same as another, strings taken by their text.
pub open spec fn same_entry(a: WalkEntry, b: WalkEntry) -> bool {
    match (a, b) {
        (WalkEntry::Found(x), WalkEntry::Found(y)) => x@ == y@,
        (WalkEntry::Failed(x), WalkEntry::Failed(y)) => x@ == y@,
        _ => false,
    }
}

/// Whether two walks are the same entry by entry.
pub open spec fn same_walk(a: Seq<WalkEntry>, b: Seq<WalkEntry>) -> bool {
    a.len() == b.len() && forall|i: int| 0 <= i < a.len() ==> same_entry(#[trigger] a[i], b[i])
}

/// Whether no component of a relative path begins with a dot.
pub fn is_visible(path: &str) -> (r: bool)
    ensures
        r == visible(path@),
{
    let n: usize = path.unicode_len();
    if n == 0 {
        return true;
    }
    if path.get_char(0) == '.' {
        return false;
    }
    let last: usize = n - 1;
    let mut i: usize = 0;
    while i < last
        invariant
            n == path@.len(),
            n > 0,
            last == n - 1,
            i <= last,
            forall|j: int| 0 <= j < i && j + 1 < n && #[trigger] path@[j] == '/' ==> path@[j + 1] != '.',
        decreases last - i,
    {
        if path.get_char(i) == '/' && path.get_char(i + 1) == '.' {
            return false;
        }
        i = i + 1;
    }
    true
}

/// The files of a directory tree that a pack may hold, in the tree's order: the regular files
/// that lie below no entry whose name begins with a dot.
pub fn dir_candidates(entries: &Vec<DirEntry>) -> (r: Vec<String>)
    ensures
        texts(r@) == candidates(entries@),
{
    let mut out: Vec<String> = Vec::new();
    let mut i: usize = 0;
    while i < entries.len()
        invariant
            i <= entries@.len(),
            texts(out@) == candidates(entries@.subrange(0, i as int)),
        decreases entries@.len() - i,
    {
        let ghost before = out@;
        proof {
            let next = entries@.subrange(0, i + 1);
            assert(next.drop_last() =~= entries@.subrange(0, i as int));
            assert(next.last() == entries@[i as int]);
        }
        if entries[i].is_file && is_visible(entries[i].path.as_str()) {
            out.push(entries[i].path.clone());
            proof {
                assert(texts(out@) =~= texts(before).push(entries@[i as int].path@));
            }
        }
        i = i + 1;
    }
    proof {
        assert(entries@.subrange(0, i as int) =~= entries@);
    }
    out
}

/// Whether `e` reports the first failure of a walk, which is at position `i`.
pub open spec fn fails_at(tree: Seq<TreeEntry>, i: int, e: PackError) -> bool {
    &&& 0 <= i < tree.len()
    &&& forall|j: int| 0 <= j < i ==> (#[trigger] tree[j]) is Entry
    &&& tree[i] matches TreeEntry::Failed(what)
    &&& e matches PackError::Other(Some(said))
    &&& said@ == what@
}

/// The files of a directory tree as a walk yielded it. The first failure of the walk fails
/// the whole: there is no partial result. Else the files are the regular files that lie below
/// no entry whose name begins with a dot, in the walk's order.
pub fn dir_files(tree: &Vec<TreeEntry>) -> (r: Result<Vec<String>, PackError>)
    ensures
        match r {
            Ok(files) => (forall|i: int| 0 <= i < tree@.len() ==> (#[trigger] tree@[i]) is Entry)
                && texts(files@) == tree_candidates(tree@),
            Err(e) => exists|i: int| #[trigger] fails_at(tree@, i, e),
        },
{
    let mut out: Vec<String> = Vec::new();
    let mut i: usize = 0;
    while i < tree.len()
        invariant
            i <= tree@.len(),
            forall|j: int| 0 <= j < i ==> (#[trigger] tree@[j]) is Entry,
            texts(out@) == tree_candidates(tree@.subrange(0, i as int)),
        decreases tree@.len() - i,
    {
        let ghost before = out@;
        proof {
            let next = tree@.subrange(0, i + 1);
            assert(next.drop_last() =~= tree@.subrange(0, i as int));
            assert(next.last() == tree@[i as int]);
        }
        match &tree[i] {
            TreeEntry::Failed(what) => {
                let e = PackError::Other(Some(what.clone()));
                proof {
                    assert(fails_at(tree@, i as int, e));
                }
                return Err(e);
            },
            TreeEntry::Entry(entry) => {
                if entry.is_file && is_visible(entry.path.as_str()) {
                    out.push(entry.path.clone());
                    proof {
                        assert(texts(out@) =~= texts(before).push(entry.path@));
                    }
                }
            },
        }
        i = i + 1;
    }
    proof {
        assert(tree@.subrange(0, i as int) =~= tree@);
    }
    Ok(out)
}

/// The paths that the predicate accepts, in order.
pub fn select_paths<F: Fn(&str) -> bool>(paths: &Vec<String>, f: F) -> (r: Vec<String>)
    requires
        forall|s: &str| call_requires(f, (s,)),
    ensures
        exists|kept: Seq<bool>|
            kept.len() == paths@.len() && (forall|i: int|
                0 <= i < paths@.len() ==> accepts(f, (#[trigger] paths@[i])@, kept[i])) && texts(r@)
                == chosen(texts(paths@), kept),
{
    let mut out: Vec<String> = Vec::new();
    let ghost mut kept: Seq<bool> = Seq::empty();
    let mut i: usize = 0;
    while i < paths.len()
        invariant
            i <= paths@.len(),
            kept.len() == i,
            forall|s: &str| call_requires(f, (s,)),
            forall|k: int| 0 <= k < i ==> accepts(f, (#[trigger] paths@[k])@, kept[k]),
            texts(out@) == chosen(texts(paths@).subrange(0, i as int), kept),
        decreases paths@.len() - i,
    {
        let ghost before = out@;
        let ghost flags = kept;
        let name = paths[i].as_str();
        let keep = f(name);
        proof {
            kept = kept.push(keep);
            let next = texts(paths@).subrange(0, i + 1);
            assert(next.drop_last() =~= texts(paths@).subrange(0, i as int));
            assert(next.last() == paths@[i as int]@);
            assert(kept.drop_last() =~= flags);
            assert(name@ == paths@[i as int]@ && call_ensures(f, (name,), keep));
        }
        if keep {
            out.push(paths[i].clone());
            proof {
                assert(texts(out@) =~= texts(before).push(paths@[i as int]@));
            }
        }
        i = i + 1;
    }
    proof {
        assert(texts(paths@).subrange(0, i as int) =~= texts(paths@));
    }
    out
}

/// Drops from a walk the paths that are marked as matched by an exclude pattern. Failures of
/// the walk are never dropped.
pub fn keep_unmatched(entries: Vec<WalkEntry>, matched: &Vec<bool>) -> (r: Vec<WalkEntry>)
    requires
        matched@.len() == entries@.len(),
    ensures
        same_walk(r@, unmatched(entries@, matched@)),
{
    let mut out: Vec<WalkEntry> = Vec::new();
    let mut i: usize = 0;
    while i < entries.len()
        invariant
            i <= entries@.len(),
            matched@.len() == entries@.len(),
            same_walk(
                out@,
                unmatched(entries@.subrange(0, i as int), matched@.subrange(0, i as int)),
            ),
        decreases entries@.len() - i,
    {
        let ghost before = out@;
        proof {
            let next = entries@.subrange(0, i + 1);
            let flags = matched@.subrange(0, i + 1);
            assert(next.drop_last() =~= entries@.subrange(0, i as int));
            assert(flags.drop_last() =~= matched@.subrange(0, i as int));
            assert(next.last() == entries@[i as int]);
            assert(flags.last() == matched@[i as int]);
        }
        match &entries[i] {
            WalkEntry::Failed(said) => {
                out.push(WalkEntry::Failed(said.clone()));
            },
            WalkEntry::Found(path) => {
                if !matched[i] {
                    out.push(WalkEntry::Found(path.clone()));
                }
            },
        }
        i = i + 1;
    }
    proof {
        assert(entries@.subrange(0, i as int) =~= entries@);
        assert(matched@.subrange(0, i as int) =~= matched@);
    }
    out
}

/// Whether a path is excluded, going by what each exclude pattern made of it.
fn excluded(verdicts: &Vec<Option<bool>>) -> (r: bool)
    ensures
        r == any_match(verdicts@),
{
    let mut i: usize = 0;
    while i < verdicts.len()
        invariant
            i <= verdicts@.len(),
            forall|j: int| 0 <= j < i ==> #[trigger] verdicts@[j] != Some(true),
        decreases verdicts@.len() - i,
    {
        match verdicts[i] {
            Some(true) => {
                return true;
            },
            _ => {},
        }
        i = i + 1;
    }
    false
}

/// Whether one of the verdicts is a match. A pattern that gave no verdict excludes nothing.
pub open spec fn any_match(verdicts: Seq<Option<bool>>) -> bool {
    exists|i: int| 0 <= i < verdicts.len() && #[trigger] verdicts[i] == Some(true)
}

/// What each exclude pattern makes of a path, in the patterns' order.
pub open spec fn verdicts_on(excludes: Seq<String>, path: Seq<char>) -> Seq<Option<bool>> {
    Seq::new(excludes.len(), |k: int| glob_verdict(excludes[k]@, path))
}

/// Whether a text is a valid pattern: the matcher gives a verdict on it, asked about the
/// empty path.
pub open spec fn is_pattern(text: Seq<char>) -> bool {
    glob_verdict(text, ""@) is Some
}

/// Which walk entries are excluded, going by the verdicts of the patterns on each: a path on
/// which one pattern matches. Entries without verdicts are not.
pub open spec fn marks(entries: Seq<WalkEntry>, verdicts: Seq<Vec<Option<bool>>>) -> Seq<bool> {
    Seq::new(
        entries.len(),
        |i: int| entries[i] is Found && i < verdicts.len() && any_match(verdicts[i]@),
    )
}

/// Which walk entries the exclude patterns exclude: a path that one of them matches.
pub open spec fn excluded_marks(entries: Seq<WalkEntry>, excludes: Seq<String>) -> Seq<bool> {
    Seq::new(
        entries.len(),
        |i: int|
            match entries[i] {
                WalkEntry::Found(path) => any_match(verdicts_on(excludes, path@)),
                WalkEntry::Failed(_) => false,
            },
    )
}

/// What each exclude pattern makes of the path: one verdict for each pattern, in the
/// patterns' order.
fn verdicts_of(excludes: &Vec<String>, path: &str) -> (r: Vec<Option<bool>>)
    ensures
        r@ == verdicts_on(excludes@, path@),
{
    let mut verdicts: Vec<Option<bool>> = Vec::new();
    let mut i: usize = 0;
    while i < excludes.len()
        invariant
            i <= excludes@.len(),
            verdicts@.len() == i,
            forall|k: int| 0 <= k < i ==> verdicts@[k] == glob_verdict(excludes@[k]@, path@),
        decreases excludes@.len() - i,
    {
        verdicts.push(glob_match(excludes[i].as_str(), path));
        i = i + 1;
    }
    proof {
        assert(verdicts@ =~= verdicts_on(excludes@, path@));
    }
    verdicts
}

/// Where nothing is marked, the whole walk stays.
pub proof fn lemma_nothing_matched(entries: Seq<WalkEntry>, matched: Seq<bool>)
    requires
        matched.len() == entries.len(),
        forall|i: int| 0 <= i < matched.len() ==> !matched[i],
    ensures
        unmatched(entries, matched) == entries,
    decreases entries.len(),
{
    if entries.len() > 0 {
        lemma_nothing_matched(entries.drop_last(), matched.drop_last());
        assert(entries.drop_last().push(entries.last()) =~= entries);
    } else {
        assert(entries =~= Seq::<WalkEntry>::empty());
    }
}

/// The walk for an installation, from what the matcher said: `valid` holds for each exclude
/// pattern whether it is a valid pattern, `verdicts` for each walk entry what each pattern
/// made of its path. The first invalid pattern is an error. Else every failure of the walk
/// stays, and every path on which no pattern matches, in the walk's order.
pub fn install_selection(
    entries: Vec<WalkEntry>,
    valid: &Vec<bool>,
    verdicts: &Vec<Vec<Option<bool>>>,
) -> (r: Result<Vec<WalkEntry>, InvalidPattern>)
    ensures
        match r {
            Ok(kept) => (forall|k: int| 0 <= k < valid@.len() ==> valid@[k]) && same_walk(
                kept@,
                unmatched(entries@, marks(entries@, verdicts@)),
            ),
            Err(e) => e.index < valid@.len() && !valid@[e.index as int] && forall|k: int|
                0 <= k < e.index ==> valid@[k],
        },
{
    let mut k: usize = 0;
    while k < valid.len()
        invariant
            k <= valid@.len(),
            forall|j: int| 0 <= j < k ==> valid@[j],
        decreases valid@.len() - k,
    {
        if !valid[k] {
            return Err(InvalidPattern { index: k });
        }
        k = k + 1;
    }
    let mut matched: Vec<bool> = Vec::new();
    let mut i: usize = 0;
    while i < entries.len()
        invariant
            i <= entries@.len(),
            matched@.len() == i,
            forall|j: int| 0 <= j < i ==> matched@[j] == marks(entries@, verdicts@)[j],
        decreases entries@.len() - i,
    {
        let hit = match &entries[i] {
            WalkEntry::Found(_) => i < verdicts.len() && excluded(&verdicts[i]),
            WalkEntry::Failed(_) => false,
        };
        matched.push(hit);
        i = i + 1;
    }
    proof {
        assert(matched@ =~= marks(entries@, verdicts@));
    }
    Ok(keep_unmatched(entries, &matched))
}

/// The walk for an installation: what the walk for publishing yields, without the paths that
/// match one of the manifest's exclude patterns. The first exclude that is no valid pattern
/// is an error; failures of the walk pass through. Without excludes the walk stays as it is.
pub fn walker_install(entries: Vec<WalkEntry>, excludes: &Vec<String>) -> (r: Result<
    Vec<WalkEntry>,
    InvalidPattern,
>)
    ensures
        match r {
            Ok(kept) => (forall|k: int|
                0 <= k < excludes@.len() ==> is_pattern((#[trigger] excludes@[k])@)) && same_walk(
                kept@,
                unmatched(entries@, excluded_marks(entries@, excludes@)),
            ),
            Err(e) => e.index < excludes@.len() && !is_pattern(excludes@[e.index as int]@)
                && forall|k: int| 0 <= k < e.index ==> is_pattern((#[trigger] excludes@[k])@),
        },
        excludes@.len() == 0 ==> (r matches Ok(kept) && same_walk(kept@, entries@)),
{
    let mut valid: Vec<bool> = Vec::new();
    let mut k: usize = 0;
    while k < excludes.len()
        invariant
            k <= excludes@.len(),
            valid@.len() == k,
            forall|j: int| 0 <= j < k ==> valid@[j] == is_pattern((#[trigger] excludes@[j])@),
        decreases excludes@.len() - k,
    {
        valid.push(glob_match(excludes[k].as_str(), "").is_some());
        k = k + 1;
    }
    let mut verdicts: Vec<Vec<Option<bool>>> = Vec::new();
    let mut i: usize = 0;
    while i < entries.len()
        invariant
            i <= entries@.len(),
            verdicts@.len() == i,
            forall|j: int|
                0 <= j < i ==> (#[trigger] verdicts@[j])@ == (match entries@[j] {
                    WalkEntry::Found(path) => verdicts_on(excludes@, path@),
                    WalkEntry::Failed(_) => Seq::<Option<bool>>::empty(),
                }),
        decreases entries@.len() - i,
    {
        let on_entry = match &entries[i] {
            WalkEntry::Found(path) => verdicts_of(excludes, path.as_str()),
            WalkEntry::Failed(_) => Vec::new(),
        };
        verdicts.push(on_entry);
        i = i + 1;
    }
    proof {
        assert(marks(entries@, verdicts@) =~= excluded_marks(entries@, excludes@));
        if excludes@.len() == 0 {
            lemma_nothing_matched(entries@, excluded_marks(entries@, excludes@));
        }
    }
    install_selection(entries, &valid, &verdicts)
}

} // verus!
