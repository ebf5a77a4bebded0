//! Reading the downloaded runtime archive. Parsing is synchronous work on
//! in-memory bytes and happens here: every entry is walked once, capturing
//! its name, directory flag and byte payload, and the archive's root
//! directory name is derived. Materializing the entries onto the filesystem
//! is boundary work, paced by the progress formula and the yield cadence
//! computed here.

use vstd::prelude::*;
use crate::errors::ProvisionError;
use crate::strings::{chars_to_string, str_to_chars};

use std::io::Read;

verus! {

/// How many materialized entries sit between two voluntary yields of the
/// extraction loop.
pub const FILE_BATCH_SIZE: usize = 10;

/// The archive reader over the downloaded bytes.
pub type ZipReader = zip::ZipArchive<std::io::Cursor<Vec<u8>>>;

#[verifier::external_type_specification]
#[verifier::external_body]
#[verifier::reject_recursive_types(T)]
pub struct ExCursor<T>(std::io::Cursor<T>);

#[verifier::external_type_specification]
#[verifier::external_body]
#[verifier::reject_recursive_types(R)]
pub struct ExZipArchive<R>(zip::ZipArchive<R>);

/// Whether `data` is an archive whose central directory parses.
pub uninterp spec fn zip_well_formed(data: Seq<u8>) -> bool;

/// Whether every entry of the archive over `data` can be opened and fully
/// read (none is encrypted or compressed with an unsupported method): like
/// the contents, a function of the bytes alone.
pub uninterp spec fn zip_entries_readable(data: Seq<u8>) -> bool;

/// The entries the archive over `data` holds, in index order: name,
/// directory flag, and byte payload (empty for directories).
pub uninterp spec fn zip_contents(data: Seq<u8>) -> Seq<(Seq<char>, bool, Seq<u8>)>;

/// What an open reader holds, in index order.
pub uninterp spec fn archive_entries(a: ZipReader) -> Seq<(Seq<char>, bool, Seq<u8>)>;

/// Whether entry `i` of an open reader can be opened and fully read.
pub uninterp spec fn entry_readable(a: ZipReader, i: int) -> bool;

/// Whether every entry an open reader holds can be opened and fully read.
pub open spec fn archive_readable(a: ZipReader) -> bool {
    forall|i: int| 0 <= i < archive_entries(a).len() ==> entry_readable(a, i)
}

/// Relies on zip's `ZipArchive::new`: parses the archive's central
/// directory over the in-memory bytes, failing on a malformed archive.
#[verifier::external_body]
fn open_archive_raw(data: Vec<u8>) -> (r: Result<ZipReader, ProvisionError>)
    ensures
        r is Ok <==> zip_well_formed(data@),
        r matches Ok(a) ==> archive_entries(a) == zip_contents(data@),
        r matches Ok(a) ==> (archive_readable(a) <==> zip_entries_readable(data@)),
        r matches Err(e) ==> e == ProvisionError::ArchiveCorrupt,
{
    match zip::ZipArchive::new(std::io::Cursor::new(data)) {
        Ok(a) => Ok(a),
        Err(_) => Err(ProvisionError::ArchiveCorrupt),
    }
}

/// Relies on zip's `ZipArchive::len`: the number of entries.
#[verifier::external_body]
fn archive_len(a: &ZipReader) -> (n: usize)
    ensures
        n == archive_entries(*a).len(),
{
    a.len()
}

/// Relies on zip's `ZipArchive::by_index`, `ZipFile::name`,
/// `ZipFile::is_dir` and `Read::read_to_end`: one entry's name, directory
/// flag and fully read payload. Reading leaves the entry set and every
/// entry's readability unchanged, and succeeds exactly when the requested
/// entry is readable.
#[verifier::external_body]
fn entry_at(a: &mut ZipReader, i: usize) -> (r: Result<(String, bool, Vec<u8>), ProvisionError>)
    requires
        i < archive_entries(*old(a)).len(),
    ensures
        archive_entries(*final(a)) == archive_entries(*old(a)),
        forall|j: int| entry_readable(*final(a), j) == entry_readable(*old(a), j),
        r is Ok <==> entry_readable(*old(a), i as int),
        r matches Ok(t) ==> (t.0@, t.1, t.2@) == archive_entries(*old(a))[i as int],
        r matches Err(e) ==> (e == ProvisionError::ArchiveCorrupt || e
            == ProvisionError::ArchiveEntryReadError),
{
    let mut file = match a.by_index(i) {
        Ok(f) => f,
        Err(_) => {
            return Err(ProvisionError::ArchiveCorrupt);
        },
    };
    let name = file.name().to_string();
    let is_dir = file.is_dir();
    let mut buf: Vec<u8> = Vec::new();
    if !is_dir && file.read_to_end(&mut buf).is_err() {
        return Err(ProvisionError::ArchiveEntryReadError);
    }
    Ok((name, is_dir, buf))
}

/// One captured archive entry.
#[derive(Debug, Clone, PartialEq, Eq)]
pub struct ArchiveEntry {
    /// Path of the entry inside the archive.
    pub name: String,
    /// Whether the entry is a directory.
    pub is_dir: bool,
    /// The entry's bytes; empty for directories.
    pub data: Vec<u8>,
}

/// The plain shape of one entry.
pub open spec fn entry_view(e: ArchiveEntry) -> (Seq<char>, bool, Seq<u8>) {
    (e.name@, e.is_dir, e.data@)
}

/// The plain shape of a captured entry list.
pub open spec fn entries_view(es: Seq<ArchiveEntry>) -> Seq<(Seq<char>, bool, Seq<u8>)> {
    es.map_values(|e: ArchiveEntry| entry_view(e))
}

/// The position of the first `'/'` at or after `i`, or the length of `s`.
pub open spec fn first_slash(s: Seq<char>, i: int) -> int
    decreases s.len() - i,
{
    if i < 0 || i >= s.len() {
        s.len() as int
    } else if s[i] == '/' {
        i
    } else {
        first_slash(s, i + 1)
    }
}

/// The leading path segment of an entry name: everything before the first
/// `'/'`.
pub open spec fn first_segment(s: Seq<char>) -> Seq<char> {
    s.take(first_slash(s, 0))
}

/// The archive's root entry name, scanning from entry `i`: the leading
/// segment of the first directory entry that has a non-empty one, or
/// `"unknown"` when no directory entry does.
pub open spec fn root_name_from(entries: Seq<(Seq<char>, bool, Seq<u8>)>, i: int) -> Seq<char>
    decreases entries.len() - i,
{
    if i < 0 || i >= entries.len() {
        "unknown"@
    } else if entries[i].1 && first_segment(entries[i].0).len() > 0 {
        first_segment(entries[i].0)
    } else {
        root_name_from(entries, i + 1)
    }
}

/// The archive's root entry name.
pub open spec fn root_name_of(entries: Seq<(Seq<char>, bool, Seq<u8>)>) -> Seq<char> {
    root_name_from(entries, 0)
}

/// Position of the first `'/'` in `v`, or its length.
fn first_slash_x(v: &Vec<char>) -> (e: usize)
    ensures
        e as int == first_slash(v@, 0),
        e <= v@.len(),
{
    let n = v.len();
    let mut i: usize = 0;
    while i < n
        invariant
            i <= n,
            n == v@.len(),
            first_slash(v@, 0) == first_slash(v@, i as int),
        decreases n - i,
    {
        if v[i] == '/' {
            return i;
        }
        i = i + 1;
    }
    n
}

/// The root entry name of a captured entry list: the leading path segment
/// of the first directory entry that has one, `"unknown"` otherwise.
pub fn archive_root_name(entries: &Vec<ArchiveEntry>) -> (r: String)
    ensures
        r@ == root_name_of(entries_view(entries@)),
{
    let n = entries.len();
    let mut i: usize = 0;
    while i < n
        invariant
            i <= n,
            n == entries@.len(),
            root_name_from(entries_view(entries@), 0) == root_name_from(
                entries_view(entries@),
                i as int,
            ),
        decreases n - i,
    {
        if entries[i].is_dir {
            let name_chars = str_to_chars(entries[i].name.as_str());
            let seg_end = first_slash_x(&name_chars);
            if seg_end > 0 {
                let mut seg: Vec<char> = Vec::new();
                let mut k: usize = 0;
                while k < seg_end
                    invariant
                        k <= seg_end <= name_chars@.len(),
                        seg@ == name_chars@.take(seg_end as int).take(k as int),
                    decreases seg_end - k,
                {
                    seg.push(name_chars[k]);
                    k = k + 1;
                    assert(seg@ =~= name_chars@.take(seg_end as int).take(k as int));
                }
                proof {
                    assert(name_chars@.take(seg_end as int).take(seg_end as int)
                        =~= name_chars@.take(seg_end as int));
                    assert(entries_view(entries@)[i as int] == entry_view(entries@[i as int]));
                }
                return chars_to_string(&seg);
            }
        }
        proof {
            assert(entries_view(entries@)[i as int] == entry_view(entries@[i as int]));
        }
        i = i + 1;
    }
    proof {
        reveal_strlit("unknown");
    }
    "unknown".to_owned()
}

/// Captures every entry of an open archive, in index order. Succeeds
/// exactly when every entry is readable.
pub fn read_archive_entries(a: &mut ZipReader) -> (r: Result<Vec<ArchiveEntry>, ProvisionError>)
    ensures
        archive_entries(*final(a)) == archive_entries(*old(a)),
        forall|j: int| entry_readable(*final(a), j) == entry_readable(*old(a), j),
        r is Ok <==> archive_readable(*old(a)),
        r matches Ok(es) ==> entries_view(es@) == archive_entries(*old(a)),
        r matches Err(e) ==> (e == ProvisionError::ArchiveCorrupt || e
            == ProvisionError::ArchiveEntryReadError),
{
    let n = archive_len(a);
    let mut out: Vec<ArchiveEntry> = Vec::new();
    let mut i: usize = 0;
    while i < n
        invariant
            i <= n,
            n == archive_entries(*a).len(),
            archive_entries(*a) == archive_entries(*old(a)),
            forall|j: int| entry_readable(*a, j) == entry_readable(*old(a), j),
            forall|j: int| 0 <= j < i ==> entry_readable(*old(a), j),
            out@.len() == i,
            forall|j: int|
                0 <= j < i ==> entry_view(#[trigger] out@[j]) == archive_entries(*a)[j],
        decreases n - i,
    {
        match entry_at(a, i) {
            Ok((name, is_dir, data)) => {
                let entry = ArchiveEntry { name, is_dir, data };
                proof {
                    assert(entry_view(entry) == archive_entries(*a)[i as int]);
                }
                out.push(entry);
                i = i + 1;
            },
            Err(e) => {
                return Err(e);
            },
        }
    }
    proof {
        assert forall|j: int| 0 <= j < out@.len() implies entries_view(out@)[j]
            == archive_entries(*old(a))[j] by {
            assert(entries_view(out@)[j] == entry_view(out@[j]));
        }
        assert(entries_view(out@) =~= archive_entries(*old(a)));
    }
    Ok(out)
}

/// Parses a downloaded archive: captures every entry and derives the root
/// entry name. Succeeds exactly on a well-formed archive whose entries are
/// all readable; a malformed archive fails with
/// [`ProvisionError::ArchiveCorrupt`], an unreadable entry with
/// [`ProvisionError::ArchiveEntryReadError`]; nothing is written anywhere.
pub fn parse_archive(data: Vec<u8>) -> (r: Result<(Vec<ArchiveEntry>, String), ProvisionError>)
    ensures
        r is Ok <==> (zip_well_formed(data@) && zip_entries_readable(data@)),
        !zip_well_formed(data@) ==> (r matches Err(e) && e == ProvisionError::ArchiveCorrupt),
        r matches Ok(t) ==> entries_view(t.0@) == zip_contents(data@) && t.1@ == root_name_of(
            zip_contents(data@),
        ),
        r matches Err(e) ==> (e == ProvisionError::ArchiveCorrupt || e
            == ProvisionError::ArchiveEntryReadError),
{
    let ghost data_view = data@;
    let mut reader = match open_archive_raw(data) {
        Ok(a) => a,
        Err(e) => {
            return Err(e);
        },
    };
    let entries = match read_archive_entries(&mut reader) {
        Ok(es) => es,
        Err(e) => {
            return Err(e);
        },
    };
    let root = archive_root_name(&entries);
    Ok((entries, root))
}

/// Whether the extraction loop yields control after materializing entry
/// `index`: once per fixed batch of entries.
pub fn should_yield(index: usize) -> (r: bool)
    requires
        index < usize::MAX,
    ensures
        r == ((index as int + 1) % (FILE_BATCH_SIZE as int) == 0),
{
    (index + 1) % FILE_BATCH_SIZE == 0
}

} // verus!
