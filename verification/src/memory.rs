//! The in-memory pack: a mapping from relative paths to file contents. It receives from any
//! source and can be read again as often as needed. The files are kept as a list in which no
//! path occurs twice, in the order in which the paths were first written: that is the order
//! in which they are read and archived.

use vstd::prelude::*;
use vstd::string::*;
use crate::text::same_text;

verus! {

/// One file of a pack: its path relative to the pack's root, and its bytes.
#[derive(Clone, Debug)]
pub struct PackEntry {
    pub path: String,
    pub data: Vec<u8>,
}

/// A pack held in memory.
#[derive(Clone, Debug)]
pub struct MapPack {
    files: Vec<PackEntry>,
}

/// No path occurs twice.
pub open spec fn distinct_paths(entries: Seq<PackEntry>) -> bool {
    forall|i: int, j: int|
        0 <= i < entries.len() && 0 <= j < entries.len() && i != j ==> (#[trigger] entries[i]).path@
            != (#[trigger] entries[j]).path@
}

/// What a destination holds after receiving `entries` in order on top of `base`: each file is
/// created, or overwrites the one at its path.
pub open spec fn overlay(base: Map<Seq<char>, Seq<u8>>, entries: Seq<PackEntry>) -> Map<
    Seq<char>,
    Seq<u8>,
>
    decreases entries.len(),
{
    if entries.len() == 0 {
        base
    } else {
        overlay(base, entries.drop_last()).insert(entries.last().path@, entries.last().data@)
    }
}

/// The mapping that a list of files stands for.
pub open spec fn as_map(entries: Seq<PackEntry>) -> Map<Seq<char>, Seq<u8>> {
    overlay(Map::empty(), entries)
}

/// Position of the last file written to `p`, or -1 where none was.
pub open spec fn last_at(entries: Seq<PackEntry>, p: Seq<char>) -> int
    decreases entries.len(),
{
    if entries.len() == 0 {
        -1
    } else if entries.last().path@ == p {
        entries.len() - 1
    } else {
        last_at(entries.drop_last(), p)
    }
}

pub proof fn lemma_last_at(entries: Seq<PackEntry>, p: Seq<char>)
    ensures
        -1 <= last_at(entries, p) < entries.len(),
        last_at(entries, p) >= 0 ==> entries[last_at(entries, p)].path@ == p,
        forall|j: int| last_at(entries, p) < j < entries.len() ==> (#[trigger] entries[j]).path@ != p,
    decreases entries.len(),
{
    if entries.len() > 0 && entries.last().path@ != p {
        let front = entries.drop_last();
        lemma_last_at(front, p);
        assert forall|j: int| last_at(entries, p) < j < entries.len() implies (
        #[trigger] entries[j]).path@ != p by {
            if j < front.len() {
                assert(front[j].path@ != p);
            }
        }
    }
}

/// In a list without repeated paths, a file is the last one written to its path.
pub proof fn lemma_last_at_distinct(entries: Seq<PackEntry>, i: int)
    requires
        distinct_paths(entries),
        0 <= i < entries.len(),
    ensures
        last_at(entries, entries[i].path@) == i,
{
    let p = entries[i].path@;
    lemma_last_at(entries, p);
    let k = last_at(entries, p);
    if k < i {
        assert(entries[i].path@ != p);
    } else if k > i {
        assert(entries[k].path@ != entries[i].path@);
    }
}

/// What `overlay` holds at a path: the last file written to it, or what was there.
pub proof fn lemma_overlay(base: Map<Seq<char>, Seq<u8>>, entries: Seq<PackEntry>, p: Seq<char>)
    ensures
        overlay(base, entries).contains_key(p) <==> base.contains_key(p) || last_at(entries, p)
            >= 0,
        last_at(entries, p) >= 0 ==> overlay(base, entries)[p] == entries[last_at(
            entries,
            p,
        )].data@,
        last_at(entries, p) < 0 ==> overlay(base, entries)[p] == base[p],
    decreases entries.len(),
{
    if entries.len() > 0 {
        lemma_overlay(base, entries.drop_last(), p);
        lemma_last_at(entries.drop_last(), p);
    }
}

/// Dropping the last file of a list without repeated paths leaves one.
pub proof fn lemma_distinct_front(entries: Seq<PackEntry>)
    requires
        distinct_paths(entries),
        entries.len() > 0,
    ensures
        distinct_paths(entries.drop_last()),
{
    let front = entries.drop_last();
    assert forall|i: int, j: int|
        0 <= i < front.len() && 0 <= j < front.len() && i != j implies (#[trigger] front[i]).path@
        != (#[trigger] front[j]).path@ by {
        assert(entries[i].path@ != entries[j].path@);
    }
}

impl MapPack {
    /// No path occurs twice among the files held.
    pub closed spec fn well_formed(&self) -> bool {
        distinct_paths(self.files@)
    }

    /// The files held, in the order in which their paths were first written.
    pub closed spec fn entries(&self) -> Seq<PackEntry> {
        self.files@
    }

    /// The pack as a mapping from path to bytes.
    pub open spec fn view(&self) -> Map<Seq<char>, Seq<u8>> {
        as_map(self.entries())
    }

    /// A pack without files.
    pub fn new() -> (r: MapPack)
        ensures
            r.well_formed(),
            r@ == Map::<Seq<char>, Seq<u8>>::empty(),
            r.entries().len() == 0,
    {
        MapPack { files: Vec::new() }
    }

    /// The number of files held.
    pub fn len(&self) -> (n: usize)
        requires
            self.well_formed(),
        ensures
            n == self.entries().len(),
            n == self@.dom().len(),
            self@.dom().finite(),
    {
        proof {
            lemma_distinct_len(self.files@);
        }
        self.files.len()
    }

    fn position(&self, path: &str) -> (r: usize)
        ensures
            r <= self.files@.len(),
            r < self.files@.len() ==> self.files@[r as int].path@ == path@,
            forall|j: int| 0 <= j < r ==> (#[trigger] self.files@[j]).path@ != path@,
    {
        let mut i: usize = 0;
        while i < self.files.len()
            invariant
                i <= self.files@.len(),
                forall|j: int| 0 <= j < i ==> (#[trigger] self.files@[j]).path@ != path@,
            decreases self.files@.len() - i,
        {
            if same_text(self.files[i].path.as_str(), path) {
                return i;
            }
            i = i + 1;
        }
        i
    }

    /// The bytes of the file at `path`, if there is one.
    pub fn get(&self, path: &str) -> (r: Option<&Vec<u8>>)
        requires
            self.well_formed(),
        ensures
            r is Some == self@.contains_key(path@),
            r matches Some(data) ==> data@ == self@[path@],
    {
        let at: usize = self.position(path);
        proof {
            lemma_overlay(Map::empty(), self.files@, path@);
            lemma_last_at(self.files@, path@);
            if at < self.files@.len() {
                lemma_last_at_distinct(self.files@, at as int);
            } else if last_at(self.files@, path@) >= 0 {
                assert(self.files@[last_at(self.files@, path@)].path@ != path@);
            }
        }
        if at < self.files.len() {
            Some(&self.files[at].data)
        } else {
            None
        }
    }

    /// Whether there is a file at `path`.
    pub fn contains(&self, path: &str) -> (r: bool)
        requires
            self.well_formed(),
        ensures
            r == self@.contains_key(path@),
    {
        self.get(path).is_some()
    }

    /// Creates the file at `path`, or overwrites it.
    pub fn insert(&mut self, path: String, data: Vec<u8>)
        requires
            old(self).well_formed(),
        ensures
            final(self).well_formed(),
            final(self)@ == old(self)@.insert(path@, data@),
    {
        let at: usize = self.position(path.as_str());
        let ghost before = self.files@;
        if at < self.files.len() {
            self.files.set(at, PackEntry { path, data });
            proof {
                let after = self.files@;
                assert(distinct_paths(after)) by {
                    assert forall|i: int, j: int|
                        0 <= i < after.len() && 0 <= j < after.len() && i != j implies (
                    #[trigger] after[i]).path@ != (#[trigger] after[j]).path@ by {
                        assert(before[i].path@ != before[j].path@);
                    }
                }
                assert(after[at as int].path@ == path@);
                let want = as_map(before).insert(path@, data@);
                assert forall|p: Seq<char>|
                    (#[trigger] as_map(after).dom().contains(p)) == want.dom().contains(p) && (
                    as_map(after).dom().contains(p) ==> as_map(after)[p] == want[p]) by {
                    lemma_overlay(Map::empty(), before, p);
                    lemma_overlay(Map::empty(), after, p);
                    lemma_last_at(before, p);
                    lemma_last_at(after, p);
                    let i = last_at(before, p);
                    let j = last_at(after, p);
                    if p == path@ {
                        lemma_last_at_distinct(after, at as int);
                    } else {
                        if i >= 0 {
                            assert(after[i].path@ == p);
                            lemma_last_at_distinct(after, i);
                        }
                        if j >= 0 {
                            assert(before[j].path@ == p);
                            lemma_last_at_distinct(before, j);
                        }
                    }
                }
                assert(as_map(after) =~= as_map(before).insert(path@, data@));
            }
        } else {
            self.files.push(PackEntry { path, data });
            proof {
                let after = self.files@;
                assert(after.drop_last() =~= before);
                assert(distinct_paths(after));
            }
        }
    }

    /// All files, each path once; together they are the pack.
    pub fn read_all(&self) -> (r: Vec<PackEntry>)
        requires
            self.well_formed(),
        ensures
            distinct_paths(r@),
            as_map(r@) == self@,
            r@.len() == self.entries().len(),
            forall|k: int|
                0 <= k < r@.len() ==> (#[trigger] r@[k]).path@ == self.entries()[k].path@
                    && r@[k].data@ == self.entries()[k].data@,
    {
        let mut out: Vec<PackEntry> = Vec::new();
        let mut i: usize = 0;
        while i < self.files.len()
            invariant
                i <= self.files@.len(),
                out@.len() == i,
                forall|k: int|
                    0 <= k < i ==> (#[trigger] out@[k]).path@ == self.files@[k].path@ && out@[k].data@
                        == self.files@[k].data@,
            decreases self.files@.len() - i,
        {
            let path = self.files[i].path.clone();
            let data = self.files[i].data.clone();
            out.push(PackEntry { path, data });
            i = i + 1;
        }
        proof {
            lemma_same_files(out@, self.files@);
        }
        out
    }

    /// Receives `entries` in order: each file is created at its path, or overwrites the file
    /// that is there.
    pub fn clone_from_entries(&mut self, entries: Vec<PackEntry>)
        requires
            old(self).well_formed(),
        ensures
            final(self).well_formed(),
            final(self)@ == overlay(old(self)@, entries@),
    {
        let mut i: usize = 0;
        while i < entries.len()
            invariant
                i <= entries@.len(),
                self.well_formed(),
                self@ == overlay(old(self)@, entries@.subrange(0, i as int)),
            decreases entries@.len() - i,
        {
            let path = entries[i].path.clone();
            let data = entries[i].data.clone();
            proof {
                let next = entries@.subrange(0, i + 1);
                assert(next.drop_last() =~= entries@.subrange(0, i as int));
                assert(next.last() == entries@[i as int]);
            }
            self.insert(path, data);
            i = i + 1;
        }
        proof {
            assert(entries@.subrange(0, i as int) =~= entries@);
        }
    }

    /// Receives every file of `src`. What `src` holds at a path replaces what was there;
    /// every other file stays.
    pub fn clone_from_pack(&mut self, src: &MapPack)
        requires
            old(self).well_formed(),
            src.well_formed(),
        ensures
            final(self).well_formed(),
            final(self)@ == old(self)@.union_prefer_right(src@),
    {
        let entries = src.read_all();
        proof {
            lemma_overlay_is_union(self@, entries@);
        }
        self.clone_from_entries(entries);
    }
}

/// Two lists that agree file by file in path and bytes stand for the same mapping, and one has
/// no repeated path if the other has none.
pub proof fn lemma_same_files(a: Seq<PackEntry>, b: Seq<PackEntry>)
    requires
        a.len() == b.len(),
        forall|k: int|
            0 <= k < a.len() ==> (#[trigger] a[k]).path@ == b[k].path@ && a[k].data@ == b[k].data@,
    ensures
        as_map(a) == as_map(b),
        distinct_paths(b) ==> distinct_paths(a),
    decreases a.len(),
{
    if a.len() > 0 {
        let x = a.drop_last();
        let y = b.drop_last();
        assert forall|k: int| 0 <= k < x.len() implies (#[trigger] x[k]).path@ == y[k].path@
            && x[k].data@ == y[k].data@ by {
            assert(a[k].path@ == b[k].path@);
        }
        lemma_same_files(x, y);
        assert(a.last().path@ == b.last().path@) by {
            assert(a[a.len() - 1].path@ == b[a.len() - 1].path@);
        }
    }
    if distinct_paths(b) {
        assert forall|i: int, j: int|
            0 <= i < a.len() && 0 <= j < a.len() && i != j implies (#[trigger] a[i]).path@ != (
        #[trigger] a[j]).path@ by {
            assert(b[i].path@ != b[j].path@);
        }
    }
}

/// A list without repeated paths stands for a mapping with as many keys as the list has files.
pub proof fn lemma_distinct_len(entries: Seq<PackEntry>)
    requires
        distinct_paths(entries),
    ensures
        as_map(entries).dom().finite(),
        as_map(entries).dom().len() == entries.len(),
    decreases entries.len(),
{
    if entries.len() == 0 {
        assert(as_map(entries).dom() =~= Set::<Seq<char>>::empty());
    } else {
        let front = entries.drop_last();
        lemma_distinct_front(entries);
        lemma_distinct_len(front);
        let p = entries.last().path@;
        lemma_overlay(Map::empty(), front, p);
        lemma_last_at(front, p);
        if last_at(front, p) >= 0 {
            assert(entries[last_at(front, p)].path@ != entries[entries.len() - 1].path@);
        }
        assert(as_map(entries).dom() =~= as_map(front).dom().insert(p));
    }
}

/// Receiving a list of files is taking the union with the mapping that the list stands for,
/// the received files winning.
pub proof fn lemma_overlay_is_union(base: Map<Seq<char>, Seq<u8>>, entries: Seq<PackEntry>)
    ensures
        overlay(base, entries) == base.union_prefer_right(as_map(entries)),
{
    let left = overlay(base, entries);
    let right = base.union_prefer_right(as_map(entries));
    assert forall|p: Seq<char>|
        (#[trigger] left.dom().contains(p)) == right.dom().contains(p) && (left.dom().contains(p)
            ==> left[p] == right[p]) by {
        lemma_overlay(base, entries, p);
        lemma_overlay(Map::empty(), entries, p);
    }
    assert(left =~= right);
}

/// Copying a pack into an empty one and reading that back yields exactly the files of the
/// first, byte for byte.
pub proof fn lemma_round_trip(src: Map<Seq<char>, Seq<u8>>)
    ensures
        Map::<Seq<char>, Seq<u8>>::empty().union_prefer_right(src) == src,
{
    assert(Map::<Seq<char>, Seq<u8>>::empty().union_prefer_right(src) =~= src);
}

/// Whether the predicate `f`, asked about the path `path`, may answer `verdict`.
pub open spec fn accepts<F: Fn(&str) -> bool>(f: F, path: Seq<char>, verdict: bool) -> bool {
    exists|s: &str| s@ == path && call_ensures(f, (s,), verdict)
}

/// No file of a list without repeated paths is at a path that an earlier part of the list
/// holds.
pub proof fn lemma_fresh_path(entries: Seq<PackEntry>, i: int)
    requires
        distinct_paths(entries),
        0 <= i < entries.len(),
    ensures
        !as_map(entries.subrange(0, i)).contains_key(entries[i].path@),
{
    let prefix = entries.subrange(0, i);
    let p = entries[i].path@;
    lemma_overlay(Map::empty(), prefix, p);
    lemma_last_at(prefix, p);
    let k = last_at(prefix, p);
    if k >= 0 {
        assert(prefix[k] == entries[k]);
        assert(entries[k].path@ != entries[i].path@);
    }
}

impl MapPack {
    /// The files whose path the predicate accepts. Nothing is added and no file is changed: the
    /// result holds a file exactly where `self` holds it and the predicate said yes.
    pub fn filter<F: Fn(&str) -> bool>(&self, f: F) -> (r: MapPack)
        requires
            self.well_formed(),
            forall|s: &str| call_requires(f, (s,)),
        ensures
            r.well_formed(),
            r@.submap_of(self@),
            forall|p: Seq<char>| #[trigger]
                self@.dom().contains(p) ==> accepts(f, p, r@.dom().contains(p)),
    {
        let mut out: Vec<PackEntry> = Vec::new();
        let mut i: usize = 0;
        while i < self.files.len()
            invariant
                i <= self.files@.len(),
                distinct_paths(self.files@),
                distinct_paths(out@),
                forall|s: &str| call_requires(f, (s,)),
                as_map(out@).submap_of(as_map(self.files@.subrange(0, i as int))),
                forall|k: int|
                    0 <= k < i ==> accepts(
                        f,
                        (#[trigger] self.files@[k]).path@,
                        as_map(out@).dom().contains(self.files@[k].path@),
                    ),
            decreases self.files@.len() - i,
        {
            let ghost before = out@;
            let ghost prefix = self.files@.subrange(0, i as int);
            let ghost next = self.files@.subrange(0, i + 1);
            let ghost here = self.files@[i as int];
            proof {
                lemma_fresh_path(self.files@, i as int);
                assert(next.drop_last() =~= prefix);
                assert(next.last() == here);
            }
            let name = self.files[i].path.as_str();
            let keep = f(name);
            if keep {
                let path = self.files[i].path.clone();
                let data = self.files[i].data.clone();
                out.push(PackEntry { path, data });
                proof {
                    assert(out@.drop_last() =~= before);
                    assert(as_map(out@) == as_map(before).insert(here.path@, here.data@));
                    assert forall|a: int, b: int|
                        0 <= a < out@.len() && 0 <= b < out@.len() && a != b implies (
                    #[trigger] out@[a]).path@ != (#[trigger] out@[b]).path@ by {
                        if a == before.len() {
                            lemma_overlay(Map::empty(), before, before[b].path@);
                            lemma_last_at_distinct(before, b);
                        } else if b == before.len() {
                            lemma_overlay(Map::empty(), before, before[a].path@);
                            lemma_last_at_distinct(before, a);
                        } else {
                            assert(before[a].path@ != before[b].path@);
                        }
                    }
                }
            }
            proof {
                assert(as_map(next) == as_map(prefix).insert(here.path@, here.data@));
                assert(!as_map(prefix).dom().contains(here.path@));
                assert forall|p: Seq<char>| #[trigger]
                    as_map(out@).dom().contains(p) implies as_map(next).dom().contains(p)
                    && as_map(out@)[p] == as_map(next)[p] by {
                    if p != here.path@ {
                        assert(as_map(before).dom().contains(p));
                        assert(as_map(prefix).dom().contains(p));
                        assert(as_map(before)[p] == as_map(prefix)[p]);
                    } else if !keep {
                        assert(as_map(before).dom().contains(p));
                        assert(as_map(prefix).dom().contains(p));
                    }
                    assert(as_map(next).dom().contains(p));
                    assert(as_map(out@)[p] == as_map(next)[p]);
                }
                assert forall|k: int| 0 <= k < i + 1 implies accepts(
                    f,
                    (#[trigger] self.files@[k]).path@,
                    as_map(out@).dom().contains(self.files@[k].path@),
                ) by {
                    if k == i {
                        assert(name@ == here.path@ && call_ensures(f, (name,), keep));
                    } else {
                        assert(self.files@[k].path@ != here.path@);
                    }
                }
            }
            i = i + 1;
        }
        proof {
            assert(self.files@.subrange(0, i as int) =~= self.files@);
            assert forall|p: Seq<char>| #[trigger] as_map(self.files@).dom().contains(p) implies accepts(
                f,
                p,
                as_map(out@).dom().contains(p),
            ) by {
                lemma_overlay(Map::empty(), self.files@, p);
                lemma_last_at(self.files@, p);
                let k = last_at(self.files@, p);
                assert(self.files@[k].path@ == p);
            }
        }
        MapPack { files: out }
    }
}

/// A filter yields a part of the pack: no more files than there were, and fewer as soon as
/// the predicate rejects one.
pub proof fn lemma_filter_shrinks(whole: Map<Seq<char>, Seq<u8>>, part: Map<Seq<char>, Seq<u8>>)
    requires
        whole.dom().finite(),
        part.submap_of(whole),
    ensures
        part.dom().finite(),
        part.dom().len() <= whole.dom().len(),
        (exists|p: Seq<char>| whole.dom().contains(p) && !part.dom().contains(p)) ==> part.dom().len()
            < whole.dom().len(),
{
    assert(part.dom().subset_of(whole.dom()));
    vstd::set_lib::lemma_len_subset(part.dom(), whole.dom());
    if exists|p: Seq<char>| whole.dom().contains(p) && !part.dom().contains(p) {
        let p = choose|p: Seq<char>| whole.dom().contains(p) && !part.dom().contains(p);
        assert(part.dom().subset_of(whole.dom().remove(p)));
        vstd::set_lib::lemma_len_subset(part.dom(), whole.dom().remove(p));
    }
}

} // verus!
