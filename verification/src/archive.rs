//! Tarballs: writing a pack out as a tar byte stream, and reading one back, optionally through
//! gzip. The formats themselves are the business of the `tar` and `flate2` crates.

use vstd::prelude::*;
use vstd::string::*;
use crate::error::{PackError, PackResult};
use crate::memory::{MapPack, PackEntry};

verus! {

/// An archive under construction, writing into memory: a `Builder` of `tar` over a byte
/// buffer.
#[verifier::external_body]
pub struct TarWriter {
    inner: tar::Builder<Vec<u8>>,
}

/// One member of a tar archive as it was read.
#[derive(Clone, Debug)]
pub struct TarItem {
    pub path: String,
    /// Whether the member is a regular file (and not a directory, a link or the like).
    pub is_file: bool,
    pub data: Vec<u8>,
}

/// The header of an archive member in GNU format, as far as the library fills it in: the
/// size field. The checksum is the writer's to compute.
#[derive(Clone, Copy, Debug, PartialEq, Eq, Structural)]
pub struct GnuHeader {
    pub size: u64,
}

/// Whether the `tar` crate takes a path for an archive member. It refuses a path that is
/// absolute, that holds `..`, or that has no component; what a component is goes by the path
/// rules of the target that the library is built for.
pub uninterp spec fn tar_takes(path: Seq<char>) -> bool;

/// The files appended to a builder so far, in order: path, the header's size field and bytes,
/// as they were handed over.
pub uninterp spec fn tar_appended(b: TarWriter) -> Seq<(Seq<char>, u64, Seq<u8>)>;

/// The bytes of the finished archive to which these files were appended in this order. How a
/// path is written goes by the path rules of the target that the library is built for.
pub uninterp spec fn tar_bytes(files: Seq<(Seq<char>, u64, Seq<u8>)>) -> Seq<u8>;

/// The members that the `tar` crate reads out of a byte stream, or nothing where it fails. How
/// a member's path is read goes by the path rules of the target that the library is built for.
pub uninterp spec fn tar_members(data: Seq<u8>) -> Option<Seq<(Seq<char>, bool, Seq<u8>)>>;

/// What the `flate2` crate decompresses a gzip stream to, or nothing where it fails.
pub uninterp spec fn gunzipped(data: Seq<u8>) -> Option<Seq<u8>>;

/// Path and bytes of each file, in order.
pub open spec fn pairs(entries: Seq<PackEntry>) -> Seq<(Seq<char>, Seq<u8>)> {
    Seq::new(entries.len(), |i: int| (entries[i].path@, entries[i].data@))
}

/// Path, kind and bytes of each member, in order.
pub open spec fn member_views(items: Seq<TarItem>) -> Seq<(Seq<char>, bool, Seq<u8>)> {
    Seq::new(items.len(), |i: int| (items[i].path@, items[i].is_file, items[i].data@))
}

/// Path, size field and bytes of each file as it goes into an archive, in order: the size
/// field of a file's header is the length of its bytes.
pub open spec fn headed(entries: Seq<PackEntry>) -> Seq<(Seq<char>, u64, Seq<u8>)> {
    Seq::new(
        entries.len(),
        |i: int| (entries[i].path@, entries[i].data@.len() as u64, entries[i].data@),
    )
}

/// Whether the archive writer takes the path of every file.
pub open spec fn all_taken(entries: Seq<PackEntry>) -> bool {
    forall|i: int| 0 <= i < entries.len() ==> tar_takes((#[trigger] entries[i]).path@)
}

/// `Builder::new` of `tar`, on an empty buffer: nothing is appended yet.
#[verifier::external_body]
fn tar_builder() -> (b: TarWriter)
    ensures
        tar_appended(b) == Seq::<(Seq<char>, u64, Seq<u8>)>::empty(),
{
    TarWriter { inner: tar::Builder::new(Vec::new()) }
}

/// `Builder::append_data` of `tar`, with a header made by `Header::new_gnu` and `set_size`
/// from the header given. It succeeds exactly for a path that the crate takes: the path alone
/// decides, since writing into memory does not fail. On success the file is appended after
/// those that were there; on failure nothing is claimed of the builder.
#[verifier::external_body]
fn tar_append(b: &mut TarWriter, header: &GnuHeader, path: &str, data: &Vec<u8>) -> (r: Result<
    (),
    String,
>)
    ensures
        r is Ok == tar_takes(path@),
        r is Ok ==> tar_appended(*final(b)) == tar_appended(*old(b)).push(
            (path@, header.size, data@),
        ),
{
    let mut gnu = tar::Header::new_gnu();
    gnu.set_size(header.size);
    b.inner.append_data(&mut gnu, path, &data[..]).map_err(|e| format!("{e}"))
}

/// `Builder::into_inner` of `tar`: finishes the archive and hands out its bytes, which are
/// determined by the files appended. Over a buffer in memory it always succeeds.
#[verifier::external_body]
fn tar_finish(b: TarWriter) -> (r: Result<Vec<u8>, String>)
    ensures
        r is Ok,
        r matches Ok(bytes) ==> bytes@ == tar_bytes(tar_appended(b)),
{
    b.inner.into_inner().map_err(|e| format!("{e}"))
}

/// `Archive::entries` of `tar` over a byte stream, each member read to its end. The contract
/// only names the outcome.
#[verifier::external_body]
fn tar_read(data: &Vec<u8>) -> (r: Result<Vec<TarItem>, String>)
    ensures
        match r {
            Ok(items) => tar_members(data@) == Some(member_views(items@)),
            Err(_) => tar_members(data@) is None,
        },
{
    let mut archive = tar::Archive::new(&data[..]);
    let mut items = Vec::new();
    for entry in archive.entries().map_err(|e| format!("{e:?}"))? {
        let mut entry = entry.map_err(|e| format!("{e:?}"))?;
        let is_file = entry.header().entry_type().is_file();
        let path = entry.path().map_err(|e| format!("{e:?}"))?.to_string_lossy().into_owned();
        let mut data = Vec::new();
        std::io::Read::read_to_end(&mut entry, &mut data).map_err(|e| format!("{e:?}"))?;
        items.push(TarItem { path, is_file, data });
    }
    Ok(items)
}

/// `GzDecoder` of `flate2`, read to its end. The contract only names the outcome.
#[verifier::external_body]
fn gunzip(data: &Vec<u8>) -> (r: Result<Vec<u8>, String>)
    ensures
        match r {
            Ok(bytes) => gunzipped(data@) == Some(bytes@),
            Err(_) => gunzipped(data@) is None,
        },
{
    let mut decoder = flate2::read::GzDecoder::new(&data[..]);
    let mut out = Vec::new();
    match std::io::Read::read_to_end(&mut decoder, &mut out) {
        Ok(_) => Ok(out),
        Err(e) => Err(format!("{e}")),
    }
}

/// The regular files among the members of an archive, in the archive's order.
pub open spec fn regular_files(members: Seq<(Seq<char>, bool, Seq<u8>)>) -> Seq<
    (Seq<char>, Seq<u8>),
>
    decreases members.len(),
{
    if members.len() == 0 {
        Seq::empty()
    } else {
        let before = regular_files(members.drop_last());
        if members.last().1 {
            before.push((members.last().0, members.last().2))
        } else {
            before
        }
    }
}

/// Whether a byte stream begins like a gzip stream.
pub open spec fn looks_gzipped(data: Seq<u8>) -> bool {
    data.len() >= 2 && data[0] == 0x1f && data[1] == 0x8b
}

/// The header for a file of these bytes: its size field is their length.
pub fn gnu_header(data: &Vec<u8>) -> (h: GnuHeader)
    ensures
        h.size == data@.len(),
{
    GnuHeader { size: data.len() as u64 }
}

/// Serializes the files in the given order into a tar byte stream in GNU format, the size
/// field of each header set from the length of the file's bytes. It succeeds exactly when the
/// archive writer takes every path; a path that it refuses is reported as `Other`.
pub fn tarball_of(entries: &Vec<PackEntry>) -> (r: PackResult<Vec<u8>>)
    ensures
        r is Ok == all_taken(entries@),
        r matches Ok(bytes) ==> bytes@ == tar_bytes(headed(entries@)),
        r matches Err(e) ==> e is Other,
{
    let mut builder = tar_builder();
    let mut i: usize = 0;
    while i < entries.len()
        invariant
            i <= entries@.len(),
            tar_appended(builder) == headed(entries@).subrange(0, i as int),
            forall|j: int| 0 <= j < i ==> tar_takes((#[trigger] entries@[j]).path@),
        decreases entries@.len() - i,
    {
        let header = gnu_header(&entries[i].data);
        match tar_append(&mut builder, &header, entries[i].path.as_str(), &entries[i].data) {
            Ok(_) => {},
            Err(said) => {
                proof {
                    assert(!tar_takes(entries@[i as int].path@));
                }
                return Err(PackError::Other(Some(said)));
            },
        }
        proof {
            assert(headed(entries@).subrange(0, i + 1) =~= headed(entries@).subrange(
                0,
                i as int,
            ).push(
                (
                    entries@[i as int].path@,
                    entries@[i as int].data@.len() as u64,
                    entries@[i as int].data@,
                ),
            ));
        }
        i = i + 1;
    }
    proof {
        assert(headed(entries@).subrange(0, i as int) =~= headed(entries@));
    }
    match tar_finish(builder) {
        Ok(bytes) => Ok(bytes),
        Err(said) => Err(PackError::Other(Some(said))),
    }
}

/// Serializes a pack held in memory into a tar byte stream, its files in the order in which
/// their paths were first written. It succeeds exactly when the archive writer takes every
/// path of the pack.
pub fn construct_tarball(pack: &MapPack) -> (r: PackResult<Vec<u8>>)
    requires
        pack.well_formed(),
    ensures
        r is Ok == all_taken(pack.entries()),
        r matches Ok(bytes) ==> bytes@ == tar_bytes(headed(pack.entries())),
        r matches Err(e) ==> e is Other,
{
    let entries = pack.read_all();
    proof {
        assert(headed(entries@) =~= headed(pack.entries()));
        assert(all_taken(entries@) == all_taken(pack.entries())) by {
            if all_taken(entries@) {
                assert forall|i: int| 0 <= i < pack.entries().len() implies tar_takes(
                    (#[trigger] pack.entries()[i]).path@,
                ) by {
                    assert(tar_takes(entries@[i].path@));
                }
            }
            if all_taken(pack.entries()) {
                assert forall|i: int| 0 <= i < entries@.len() implies tar_takes(
                    (#[trigger] entries@[i]).path@,
                ) by {
                    assert(tar_takes(pack.entries()[i].path@));
                }
            }
        }
    }
    tarball_of(&entries)
}

/// Keeps the regular files of what was read from an archive.
pub fn files_of(items: Vec<TarItem>) -> (r: Vec<PackEntry>)
    ensures
        pairs(r@) == regular_files(member_views(items@)),
{
    let mut out: Vec<PackEntry> = Vec::new();
    let mut i: usize = 0;
    while i < items.len()
        invariant
            i <= items@.len(),
            pairs(out@) == regular_files(member_views(items@).subrange(0, i as int)),
        decreases items@.len() - i,
    {
        let ghost before = out@;
        proof {
            let next = member_views(items@).subrange(0, i + 1);
            assert(next.drop_last() =~= member_views(items@).subrange(0, i as int));
            assert(next.last() == member_views(items@)[i as int]);
        }
        if items[i].is_file {
            let path = items[i].path.clone();
            let data = items[i].data.clone();
            out.push(PackEntry { path, data });
            proof {
                assert(pairs(out@) =~= pairs(before).push(
                    (items@[i as int].path@, items@[i as int].data@),
                ));
            }
        }
        i = i + 1;
    }
    proof {
        assert(member_views(items@).subrange(0, i as int) =~= member_views(items@));
    }
    out
}

/// Decodes a tar byte stream and yields its regular files in the archive's order. A stream
/// that cannot be decoded is a malformed archive.
pub fn read_tarball(data: &Vec<u8>) -> (r: PackResult<Vec<PackEntry>>)
    ensures
        match r {
            Ok(files) => tar_members(data@) matches Some(members) && pairs(files@)
                == regular_files(members),
            Err(e) => tar_members(data@) is None && e is MalformedArchive,
        },
{
    match tar_read(data) {
        Ok(items) => Ok(files_of(items)),
        Err(said) => Err(PackError::MalformedArchive(Some(said))),
    }
}

/// Decompresses a gzip stream. A stream that cannot be decompressed is a malformed archive.
pub fn decompress_gzip(data: &Vec<u8>) -> (r: PackResult<Vec<u8>>)
    ensures
        match r {
            Ok(bytes) => gunzipped(data@) == Some(bytes@),
            Err(e) => gunzipped(data@) is None && e is MalformedArchive,
        },
{
    match gunzip(data) {
        Ok(bytes) => Ok(bytes),
        Err(said) => Err(PackError::MalformedArchive(Some(said))),
    }
}

/// Whether a byte stream begins with the two bytes that open every gzip stream.
pub fn is_gzipped(data: &Vec<u8>) -> (r: bool)
    ensures
        r == looks_gzipped(data@),
{
    data.len() >= 2 && data[0] == 0x1f && data[1] == 0x8b
}

/// Reads a gzip-compressed tarball.
pub fn read_gzipped_tarball(data: &Vec<u8>) -> (r: PackResult<Vec<PackEntry>>)
    ensures
        match r {
            Ok(files) => gunzipped(data@) matches Some(plain) && tar_members(plain) matches Some(
                members,
            ) && pairs(files@) == regular_files(members),
            Err(e) => e is MalformedArchive && (gunzipped(data@) matches Some(plain)
                ==> tar_members(plain) is None),
        },
{
    match decompress_gzip(data) {
        Ok(plain) => read_tarball(&plain),
        Err(e) => Err(e),
    }
}

} // verus!
