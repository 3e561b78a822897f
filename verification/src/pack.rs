//! The uniform interface over packs whose content is at hand, and the transfer of one pack
//! into another.

use vstd::prelude::*;
use vstd::string::*;
use crate::archive::{
    gunzipped, pairs, read_gzipped_tarball, read_tarball, regular_files, tar_members,
};
use crate::error::PackResult;
use crate::memory::{overlay, MapPack, PackEntry};

verus! {

/// A pack: something whose files can be read, each with its path and its bytes.
pub trait Pack {
    /// What the pack needs to hold for reading to make sense.
    spec fn readable(&self) -> bool;

    /// The files that reading yields, in the order in which it yields them; `None` where
    /// reading fails.
    spec fn files(&self) -> Option<Seq<(Seq<char>, Seq<u8>)>>;

    /// Reads every file. Reading fails as a whole: there is no partial result.
    fn read_all(&self) -> (r: PackResult<Vec<PackEntry>>)
        requires
            self.readable(),
        ensures
            match r {
                Ok(entries) => self.files() == Some(pairs(entries@)),
                Err(_) => self.files() is None,
            },
    ;
}

/// A tarball held in memory, plain or gzip-compressed.
#[derive(Clone, Debug)]
pub struct TarballPack {
    pub data: Vec<u8>,
    pub gzipped: bool,
}

/// What a destination holds after receiving `files` in order on top of `base`.
pub open spec fn received(base: Map<Seq<char>, Seq<u8>>, files: Seq<(Seq<char>, Seq<u8>)>) -> Map<
    Seq<char>,
    Seq<u8>,
>
    decreases files.len(),
{
    if files.len() == 0 {
        base
    } else {
        received(base, files.drop_last()).insert(files.last().0, files.last().1)
    }
}

/// Receiving files is the same whether they are taken as entries or as pairs of path and bytes.
pub proof fn lemma_received(base: Map<Seq<char>, Seq<u8>>, entries: Seq<PackEntry>)
    ensures
        overlay(base, entries) == received(base, pairs(entries)),
    decreases entries.len(),
{
    if entries.len() > 0 {
        lemma_received(base, entries.drop_last());
        assert(pairs(entries).drop_last() =~= pairs(entries.drop_last()));
    }
}

impl TarballPack {
    /// A tarball over `data`; `gzipped` says whether the bytes are gzip-compressed.
    pub fn new(data: Vec<u8>, gzipped: bool) -> (r: TarballPack)
        ensures
            r.data == data,
            r.gzipped == gzipped,
    {
        TarballPack { data, gzipped }
    }
}

impl Pack for TarballPack {
    open spec fn readable(&self) -> bool {
        true
    }

    open spec fn files(&self) -> Option<Seq<(Seq<char>, Seq<u8>)>> {
        let plain = if self.gzipped {
            gunzipped(self.data@)
        } else {
            Some(self.data@)
        };
        match plain {
            Some(bytes) => match tar_members(bytes) {
                Some(members) => Some(regular_files(members)),
                None => None,
            },
            None => None,
        }
    }

    fn read_all(&self) -> (r: PackResult<Vec<PackEntry>>) {
        if self.gzipped {
            read_gzipped_tarball(&self.data)
        } else {
            read_tarball(&self.data)
        }
    }
}

impl Pack for MapPack {
    open spec fn readable(&self) -> bool {
        self.well_formed()
    }

    open spec fn files(&self) -> Option<Seq<(Seq<char>, Seq<u8>)>> {
        Some(pairs(self.entries()))
    }

    fn read_all(&self) -> (r: PackResult<Vec<PackEntry>>) {
        let entries = MapPack::read_all(self);
        proof {
            assert(pairs(entries@) =~= pairs(self.entries()));
        }
        Ok(entries)
    }
}

/// Copies `src` into `dst`: every file that `src` yields is created in `dst` or overwrites the
/// file at its path. Where `src` cannot be read, `dst` stays as it was.
pub fn transfer<S: Pack>(src: &S, dst: &mut MapPack) -> (r: PackResult<()>)
    requires
        src.readable(),
        old(dst).well_formed(),
    ensures
        final(dst).well_formed(),
        match r {
            Ok(_) => src.files() matches Some(files) && final(dst)@ == received(old(dst)@, files),
            Err(_) => src.files() is None && final(dst)@ == old(dst)@,
        },
{
    match src.read_all() {
        Ok(entries) => {
            proof {
                lemma_received(dst@, entries@);
            }
            dst.clone_from_entries(entries);
            Ok(())
        },
        Err(e) => Err(e),
    }
}

/// Loads a pack into memory.
pub fn read_to_memory<S: Pack>(src: &S) -> (r: PackResult<MapPack>)
    requires
        src.readable(),
    ensures
        match r {
            Ok(pack) => {
                &&& pack.well_formed()
                &&& src.files() matches Some(files) && pack@ == received(Map::empty(), files)
            },
            Err(_) => src.files() is None,
        },
{
    let mut pack = MapPack::new();
    match transfer(src, &mut pack) {
        Ok(_) => Ok(pack),
        Err(e) => Err(e),
    }
}

/// Round trip: what was loaded into memory and is read back from there is, path by path and
/// byte by byte, what the source yielded. Where the source yields a path more than once, its
/// last file at that path is the one that counts.
pub proof fn lemma_read_back(
    source: Seq<(Seq<char>, Seq<u8>)>,
    pack: MapPack,
    back: Seq<(Seq<char>, Seq<u8>)>,
)
    requires
        pack.well_formed(),
        pack@ == received(Map::empty(), source),
        pack.files() == Some(back),
    ensures
        received(Map::empty(), back) == received(Map::empty(), source),
{
    lemma_received(Map::empty(), pack.entries());
}

/// Round trip between packs in memory: the copy of a pack is the pack.
pub proof fn lemma_copy_is_same(a: MapPack, b: MapPack)
    requires
        a.well_formed(),
        b.well_formed(),
        a.files() matches Some(files) && b@ == received(Map::empty(), files),
    ensures
        b@ == a@,
{
    lemma_received(Map::empty(), a.entries());
}

} // verus!
