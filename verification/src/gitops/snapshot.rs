//! Builds a private bounded validation tree from immutable Git blobs, never a dirty checkout.
//!
//! The functions here read what fixed read-only Git builtins print. Hooks, filters, archive
//! commands, submodules, and symlinks are not executed or followed. The caller owns
//! repository selection and must refresh its base evidence before handoff.

use super::it_tools_image;
use super::it_tools_image::{render, PILOT_PATH};
use super::validate;
use super::validate::valid_sha;
use crate::digest::digest;
use crate::files;
use crate::process::{variable, ProcessPlan, ProcessView};
use crate::text;
use crate::text::number;
use crate::text::split;
use crate::text::trim;
use vstd::prelude::*;

verus! {

/// Largest number of files in a snapshot.
pub const MAX_FILES: usize = 4096;

/// Largest amount of blob data, in bytes.
pub const MAX_DATA: usize = 67108864;

/// A snapshot failure yields no tree eligible for sandbox validation.
#[derive(Debug, Clone, Copy, PartialEq, Eq, Structural)]
pub enum SnapshotError {
    /// Git or filesystem I/O failed or exceeded its deadline/size limit.
    Unavailable,
    /// The repository, file modes, paths, or base revision are outside policy.
    OutsideScope,
}

/// One tracked regular file of a tree.
pub struct TreeEntry {
    /// Path in the repository.
    pub name: String,
    /// Whether the file is executable.
    pub executable: bool,
    /// Identifier of its blob.
    pub oid: String,
}

/// A tracked regular file: path, executable bit and blob.
pub struct EntryView {
    /// Path in the repository.
    pub name: Seq<char>,
    /// Whether the file is executable.
    pub executable: bool,
    /// Identifier of its blob.
    pub oid: Seq<char>,
}

impl View for TreeEntry {
    type V = EntryView;

    open spec fn view(&self) -> EntryView {
        EntryView { name: self.name@, executable: self.executable, oid: self.oid@ }
    }
}

/// The entries of a list.
pub open spec fn entry_views(list: Seq<TreeEntry>) -> Seq<EntryView> {
    list.map_values(|e: TreeEntry| e@)
}

/// A part of a path that a snapshot never creates.
pub open spec fn is_forbidden_part(part: Seq<char>) -> bool {
    part == ""@ || part == "."@ || part == ".."@ || part == ".git"@
}

/// A character that no snapshot path holds.
pub open spec fn is_forbidden_char(c: char) -> bool {
    c < ' ' || c == '\u{7f}' || c == '\\'
}

/// A relative path of ordinary parts, of at most 512 bytes.
pub open spec fn is_safe_path(name: Seq<char>) -> bool {
    let parts = split::fields(name, '/');
    &&& name.len() > 0
    &&& text::utf8_len(name) <= 512
    &&& forall|i: int| 0 <= i < parts.len() ==> !is_forbidden_part(#[trigger] parts[i])
    &&& forall|i: int| 0 <= i < name.len() ==> !is_forbidden_char(#[trigger] name[i])
}

/// Decides [`is_safe_path`].
pub fn safe_path(name: &str) -> (r: bool)
    ensures
        r == is_safe_path(name@),
{
    let chars = text::chars_of(name);
    if chars.len() == 0 || text::byte_len(name) > 512 {
        return false;
    }
    let mut i: usize = 0;
    while i < chars.len()
        invariant
            i <= chars.len(),
            chars@ == name@,
            forall|j: int| 0 <= j < i ==> !is_forbidden_char(#[trigger] name@[j]),
        decreases chars.len() - i,
    {
        let c = chars[i];
        if c < ' ' || c == '\u{7f}' || c == '\\' {
            assert(is_forbidden_char(name@[i as int]));
            return false;
        }
        i += 1;
    }
    let parts = split::split_fields(name, '/');
    let ghost views = split::fields(name@, '/');
    assert(text::texts(parts@).len() == parts@.len());
    let mut k: usize = 0;
    while k < parts.len()
        invariant
            k <= parts.len(),
            text::texts(parts@) == views,
            views == split::fields(name@, '/'),
            views.len() == parts.len(),
            forall|j: int| 0 <= j < k ==> !is_forbidden_part(#[trigger] views[j]),
        decreases parts.len() - k,
    {
        assert(views[k as int] == parts@[k as int]@);
        let part = parts[k].as_str();
        if text::text_eq(part, "") || text::text_eq(part, ".") || text::text_eq(part, "..")
            || text::text_eq(part, ".git") {
            assert(is_forbidden_part(views[k as int]));
            return false;
        }
        k += 1;
    }
    true
}

/// What one record of `git ls-tree -r -z --full-tree` says, where it names a regular file
/// that a snapshot may hold: mode, `blob` and identifier, a tab and the path.
pub open spec fn tree_entry(record: Seq<u8>) -> Option<EntryView> {
    if !vstd::utf8::valid_utf8(record) {
        None
    } else {
        match trim::cut(vstd::utf8::decode_utf8(record), '\t') {
            None => None,
            Some((header, name)) => {
                let parts = split::fields(header, ' ');
                if parts.len() == 3 && (parts[0] == "100644"@ || parts[0] == "100755"@) && parts[1]
                    == "blob"@ && validate::is_sha(parts[2]) && is_safe_path(name) {
                    Some(EntryView { name, executable: parts[0] == "100755"@, oid: parts[2] })
                } else {
                    None
                }
            },
        }
    }
}

/// The records of a listing: what stands between zero bytes, without what is empty.
pub open spec fn tree_records(tree: Seq<u8>) -> Seq<Seq<u8>> {
    split::fields(tree, 0u8).filter(|record: Seq<u8>| record.len() > 0)
}

/// The entries of a listing, where every record names a file that a snapshot may hold and
/// there are no more of them than the limit.
pub open spec fn tree_entries(tree: Seq<u8>) -> Option<Seq<EntryView>> {
    let records = tree_records(tree);
    if records.len() <= MAX_FILES && (forall|i: int|
        0 <= i < records.len() ==> tree_entry(#[trigger] records[i]) is Some) {
        Some(records.map_values(|record: Seq<u8>| tree_entry(record)->0))
    } else {
        None
    }
}

fn parse_record(record: &[u8]) -> (r: Option<TreeEntry>)
    ensures
        match r {
            Some(entry) => tree_entry(record@) == Some(entry@),
            None => tree_entry(record@) is None,
        },
{
    let line = match text::utf8_text(record) {
        Some(line) => line,
        None => return None,
    };
    let (header, name) = match trim::split_once(line.as_str(), '\t') {
        Some(parts) => parts,
        None => return None,
    };
    let parts = split::split_fields(header.as_str(), ' ');
    let ghost views = split::fields(header@, ' ');
    assert(text::texts(parts@) == views);
    assert(text::texts(parts@).len() == parts@.len());
    if parts.len() != 3 {
        return None;
    }
    assert(views[0] == parts@[0]@ && views[1] == parts@[1]@ && views[2] == parts@[2]@);
    let executable = text::text_eq(parts[0].as_str(), "100755");
    if !(executable || text::text_eq(parts[0].as_str(), "100644")) || !text::text_eq(
        parts[1].as_str(),
        "blob",
    ) || !valid_sha(parts[2].as_str()) || !safe_path(name.as_str()) {
        return None;
    }
    Some(TreeEntry { name, executable, oid: parts[2].clone() })
}

/// Reads the tracked files of a tree from `git ls-tree -r -z --full-tree`.
pub fn parse_tree(tree: &[u8]) -> (r: Result<Vec<TreeEntry>, SnapshotError>)
    ensures
        match r {
            Ok(entries) => tree_entries(tree@) == Some(entry_views(entries@)),
            Err(error) => tree_entries(tree@) is None && error == SnapshotError::OutsideScope,
        },
{
    let rows = split::split_bytes(tree, 0u8);
    let ghost all = split::fields(tree@, 0u8);
    let ghost keep = |record: Seq<u8>| record.len() > 0;
    let ghost records = tree_records(tree@);
    let mut entries: Vec<TreeEntry> = Vec::new();
    let mut i: usize = 0;
    proof {
        assert(split::byte_rows(rows@).len() == rows@.len());
        assert(all.take(0) =~= Seq::empty());
        reveal(Seq::filter);
        assert(all.take(0).filter(keep) =~= Seq::empty());
    }
    while i < rows.len()
        invariant
            i <= rows.len(),
            split::byte_rows(rows@) == all,
            all == split::fields(tree@, 0u8),
            all.len() == rows.len(),
            keep == (|record: Seq<u8>| record.len() > 0),
            records == tree_records(tree@),
            records == all.filter(keep),
            entries.len() == all.take(i as int).filter(keep).len(),
            entries.len() <= MAX_FILES,
            forall|j: int|
                0 <= j < entries.len() ==> tree_entry(
                    #[trigger] all.take(i as int).filter(keep)[j],
                ) == Some(entries@[j]@),
        decreases rows.len() - i,
    {
        let ghost done = all.take(i as int).filter(keep);
        let ghost next = all.take(i as int + 1);
        proof {
            assert(all[i as int] == rows@[i as int]@);
            assert(next =~= all.take(i as int).push(all[i as int]));
            all.take(i as int).lemma_filter_push(all[i as int], keep);
            lemma_filter_prefix(all, i as int + 1, keep);
        }
        if rows[i].len() > 0 {
            assert(next.filter(keep) == done.push(all[i as int]));
            assert(records.subrange(0, next.filter(keep).len() as int)[done.len() as int]
                == all[i as int]);
            match parse_record(rows[i].as_slice()) {
                Some(entry) => {
                    if entries.len() >= MAX_FILES {
                        assert(records.len() > MAX_FILES);
                        return Err(SnapshotError::OutsideScope);
                    }
                    entries.push(entry);
                },
                None => {
                    assert(tree_entry(records[done.len() as int]) is None);
                    return Err(SnapshotError::OutsideScope);
                },
            }
        }
        i += 1;
    }
    proof {
        assert(all.take(i as int) =~= all);
        assert forall|j: int| 0 <= j < records.len() implies tree_entry(
            #[trigger] records[j],
        ) is Some by {
            assert(tree_entry(all.take(i as int).filter(keep)[j]) == Some(entries@[j]@));
        }
        assert forall|j: int| 0 <= j < records.len() implies (tree_entry(records[j])->0)
            == entries@[j]@ by {
            assert(tree_entry(all.take(i as int).filter(keep)[j]) == Some(entries@[j]@));
        }
        assert(entry_views(entries@) =~= records.map_values(
            |record: Seq<u8>| tree_entry(record)->0,
        ));
    }
    Ok(entries)
}

/// What a filter keeps of a beginning begins what it keeps of the whole.
proof fn lemma_filter_prefix<T>(s: Seq<T>, n: int, keep: spec_fn(T) -> bool)
    requires
        0 <= n <= s.len(),
    ensures
        s.take(n).filter(keep).is_prefix_of(s.filter(keep)),
    decreases s.len(),
{
    if n == s.len() {
        assert(s.take(n) =~= s);
    } else {
        let rest = s.drop_last();
        lemma_filter_prefix(rest, n, keep);
        assert(rest.take(n) =~= s.take(n));
        assert(s =~= rest.push(s.last()));
        rest.lemma_filter_push(s.last(), keep);
    }
}

/// The request for `git cat-file --batch`: one identifier per line.
pub open spec fn batch_of(entries: Seq<EntryView>) -> Seq<u8>
    decreases entries.len(),
{
    if entries.len() == 0 {
        Seq::empty()
    } else {
        (batch_of(entries.drop_last()) + vstd::utf8::encode_utf8(entries.last().oid)).push(10u8)
    }
}

/// Writes the request for `git cat-file --batch`.
pub fn batch_request(entries: &Vec<TreeEntry>) -> (r: Vec<u8>)
    ensures
        r@ == batch_of(entry_views(entries@)),
{
    let ghost views = entry_views(entries@);
    let mut out: Vec<u8> = Vec::new();
    let mut i: usize = 0;
    assert(views.take(0) =~= Seq::empty());
    while i < entries.len()
        invariant
            i <= entries.len(),
            views == entry_views(entries@),
            out@ == batch_of(views.take(i as int)),
        decreases entries.len() - i,
    {
        let ghost before = out@;
        out.extend_from_slice(entries[i].oid.as_str().as_bytes());
        assert(out@ =~= before + vstd::utf8::encode_utf8(entries@[i as int].oid@));
        out.push(10u8);
        assert(views.take(i as int + 1).drop_last() =~= views.take(i as int));
        i += 1;
    }
    assert(views.take(i as int) =~= views);
    out
}

/// Position of the first newline from `from` on.
pub open spec fn newline_from(data: Seq<u8>, from: int) -> Option<int>
    decreases data.len() - from,
{
    if from < 0 || from >= data.len() {
        None
    } else if data[from] == 10u8 {
        Some(from)
    } else {
        newline_from(data, from + 1)
    }
}

/// Where the contents of a blob stand in the output of `git cat-file --batch`: a header line
/// of identifier, `blob` and length from `offset` on, the contents, and a newline.
pub open spec fn blob_at(data: Seq<u8>, offset: int, oid: Seq<char>) -> Option<(int, int)> {
    match newline_from(data, offset) {
        None => None,
        Some(newline) => {
            let header = data.subrange(offset, newline);
            let parts = split::fields(vstd::utf8::decode_utf8(header), ' ');
            if !vstd::utf8::valid_utf8(header) || parts.len() != 3 || parts[0] != oid || parts[1] != "blob"@ {
                None
            } else {
                match number::parsed(parts[2], usize::MAX as nat) {
                    Some(length) => {
                        let start = newline + 1;
                        let end = start + length;
                        if end < data.len() && data[end] == 10u8 {
                            Some((start, end))
                        } else {
                            None
                        }
                    },
                    None => None,
                }
            }
        },
    }
}

/// A file of a snapshot.
pub struct SnapshotFile {
    /// Path below the source directory.
    pub name: String,
    /// Whether the file is executable.
    pub executable: bool,
    /// Its contents, after the replacement.
    pub contents: Vec<u8>,
}

/// A file of a snapshot: path, executable bit and contents.
pub struct FileView {
    /// Path below the source directory.
    pub name: Seq<char>,
    /// Whether the file is executable.
    pub executable: bool,
    /// Its contents, after the replacement.
    pub contents: Seq<u8>,
}

impl View for SnapshotFile {
    type V = FileView;

    open spec fn view(&self) -> FileView {
        FileView { name: self.name@, executable: self.executable, contents: self.contents@ }
    }
}

/// The files of a list.
pub open spec fn file_views(list: Seq<SnapshotFile>) -> Seq<FileView> {
    list.map_values(|f: SnapshotFile| f@)
}

/// Files read from blob data, with the pilot file before and after its repair.
pub struct Unpacked {
    /// Files in the order of the tree.
    pub files: Vec<SnapshotFile>,
    /// Pilot file as committed.
    pub original: String,
    /// Pilot file after the replacement.
    pub pilot: String,
}

/// What has been read from blob data, and how far.
pub struct Progress {
    /// Files in the order of the tree.
    pub files: Seq<FileView>,
    /// Pilot file as committed.
    pub original: Seq<char>,
    /// Pilot file after the replacement.
    pub pilot: Seq<char>,
    /// First byte not yet read.
    pub offset: int,
}

/// Reads the blob of one more entry.
pub open spec fn unpack_entry(
    done: Progress,
    entry: EntryView,
    data: Seq<u8>,
    image: Seq<char>,
) -> Result<Progress, SnapshotError> {
    match blob_at(data, done.offset, entry.oid) {
        None => Err(SnapshotError::Unavailable),
        Some((start, end)) => {
            let contents = data.subrange(start, end);
            if entry.name != PILOT_PATH@ {
                Ok(
                    Progress {
                        files: done.files.push(
                            FileView { name: entry.name, executable: entry.executable, contents },
                        ),
                        offset: end + 1,
                        ..done
                    },
                )
            } else if contents.len() > it_tools_image::MAX_SOURCE_BYTES || !vstd::utf8::valid_utf8(contents) {
                Err(SnapshotError::OutsideScope)
            } else {
                match it_tools_image::rendered(vstd::utf8::decode_utf8(contents), image) {
                    Err(_) => Err(SnapshotError::OutsideScope),
                    Ok(pilot) => Ok(
                        Progress {
                            files: done.files.push(
                                FileView {
                                    name: entry.name,
                                    executable: entry.executable,
                                    contents: vstd::utf8::encode_utf8(pilot),
                                },
                            ),
                            original: vstd::utf8::decode_utf8(contents),
                            pilot,
                            offset: end + 1,
                        },
                    ),
                }
            }
        },
    }
}

/// Reads the blobs of all entries, in order.
pub open spec fn unpack_all(
    entries: Seq<EntryView>,
    data: Seq<u8>,
    image: Seq<char>,
) -> Result<Progress, SnapshotError>
    decreases entries.len(),
{
    if entries.len() == 0 {
        Ok(
            Progress {
                files: Seq::empty(),
                original: Seq::empty(),
                pilot: Seq::empty(),
                offset: 0,
            },
        )
    } else {
        match unpack_all(entries.drop_last(), data, image) {
            Err(error) => Err(error),
            Ok(done) => unpack_entry(done, entries.last(), data, image),
        }
    }
}

/// What blob data gives: every entry has its blob, the data ends with the last one, and the
/// pilot file is there.
pub open spec fn unpacked(
    entries: Seq<EntryView>,
    data: Seq<u8>,
    image: Seq<char>,
) -> Result<Progress, SnapshotError> {
    match unpack_all(entries, data, image) {
        Err(error) => Err(error),
        Ok(done) => if done.original.len() == 0 || done.offset != data.len() {
            Err(SnapshotError::OutsideScope)
        } else {
            Ok(done)
        },
    }
}

/// A failure stays, whatever entries follow.
proof fn lemma_unpack_fails(
    entries: Seq<EntryView>,
    data: Seq<u8>,
    image: Seq<char>,
    n: int,
)
    requires
        0 <= n <= entries.len(),
        unpack_all(entries.take(n), data, image) is Err,
    ensures
        unpack_all(entries, data, image) == unpack_all(entries.take(n), data, image),
    decreases entries.len(),
{
    if n == entries.len() {
        assert(entries.take(n) =~= entries);
    } else {
        assert(entries.drop_last().take(n) =~= entries.take(n));
        lemma_unpack_fails(entries.drop_last(), data, image, n);
    }
}

fn find_newline(data: &[u8], from: usize) -> (r: Option<usize>)
    ensures
        match r {
            Some(at) => newline_from(data@, from as int) == Some(at as int) && from <= at
                < data.len(),
            None => newline_from(data@, from as int) is None,
        },
{
    let mut at: usize = from;
    while at < data.len()
        invariant
            from <= at,
            newline_from(data@, from as int) == newline_from(data@, at as int),
        decreases data.len() - at,
    {
        if data[at] == 10u8 {
            return Some(at);
        }
        at += 1;
    }
    None
}

fn find_blob(data: &[u8], offset: usize, oid: &str) -> (r: Option<(usize, usize)>)
    ensures
        match r {
            Some((start, end)) => blob_at(data@, offset as int, oid@) == Some(
                (start as int, end as int),
            ) && start <= end < data.len(),
            None => blob_at(data@, offset as int, oid@) is None,
        },
{
    let newline = match find_newline(data, offset) {
        Some(newline) => newline,
        None => return None,
    };
    let header = vstd::slice::slice_subrange(data, offset, newline);
    let line = match text::utf8_text(header) {
        Some(line) => line,
        None => return None,
    };
    let parts = split::split_fields(line.as_str(), ' ');
    let ghost views = split::fields(line@, ' ');
    assert(text::texts(parts@) == views);
    assert(text::texts(parts@).len() == parts@.len());
    if parts.len() != 3 {
        return None;
    }
    assert(views[0] == parts@[0]@ && views[1] == parts@[1]@ && views[2] == parts@[2]@);
    if !text::text_eq(parts[0].as_str(), oid) || !text::text_eq(parts[1].as_str(), "blob") {
        return None;
    }
    let length: usize = match number::parse_unsigned(parts[2].as_str(), usize::MAX as u64) {
        Some(length) => length as usize,
        None => return None,
    };
    let start: usize = newline + 1;
    if length >= data.len() - start {
        return None;
    }
    let end: usize = start + length;
    if data[end] != 10u8 {
        return None;
    }
    Some((start, end))
}

/// Reads the contents of all files from `git cat-file --batch`, repairing the pilot file.
pub fn unpack(entries: &Vec<TreeEntry>, data: &[u8], image: &str) -> (r: Result<
    Unpacked,
    SnapshotError,
>)
    ensures
        match r {
            Ok(out) => unpacked(entry_views(entries@), data@, image@) matches Ok(done)
                && file_views(out.files@) == done.files && out.original@ == done.original
                && out.pilot@ == done.pilot,
            Err(error) => unpacked(entry_views(entries@), data@, image@) == Err::<
                Progress,
                SnapshotError,
            >(error),
        },
{
    let ghost views = entry_views(entries@);
    let mut files: Vec<SnapshotFile> = Vec::new();
    let mut original = String::new();
    let mut pilot = String::new();
    let mut offset: usize = 0;
    let mut i: usize = 0;
    proof {
        assert(views.take(0) =~= Seq::empty());
        assert(file_views(files@) =~= Seq::empty());
    }
    while i < entries.len()
        invariant
            i <= entries.len(),
            views == entry_views(entries@),
            offset <= data.len(),
            unpack_all(views.take(i as int), data@, image@) == Ok::<Progress, SnapshotError>(
                Progress {
                    files: file_views(files@),
                    original: original@,
                    pilot: pilot@,
                    offset: offset as int,
                },
            ),
        decreases entries.len() - i,
    {
        let entry = &entries[i];
        let ghost before = file_views(files@);
        proof {
            assert(views.take(i as int + 1).drop_last() =~= views.take(i as int));
            assert(views.take(i as int + 1).last() == entry@);
            if unpack_all(views.take(i as int + 1), data@, image@) is Err {
                lemma_unpack_fails(views, data@, image@, i as int + 1);
            }
        }
        let (start, end) = match find_blob(data, offset, entry.oid.as_str()) {
            Some(span) => span,
            None => return Err(SnapshotError::Unavailable),
        };
        let contents = vstd::slice::slice_subrange(data, start, end);
        if text::text_eq(entry.name.as_str(), PILOT_PATH) {
            if contents.len() > it_tools_image::MAX_SOURCE_BYTES {
                return Err(SnapshotError::OutsideScope);
            }
            let source = match text::utf8_text(contents) {
                Some(source) => source,
                None => return Err(SnapshotError::OutsideScope),
            };
            let repaired = match render(source.as_str(), image) {
                Ok(repaired) => repaired,
                Err(_) => return Err(SnapshotError::OutsideScope),
            };
            files.push(
                SnapshotFile {
                    name: entry.name.clone(),
                    executable: entry.executable,
                    contents: vstd::slice::slice_to_vec(repaired.as_str().as_bytes()),
                },
            );
            original = source;
            pilot = repaired;
        } else {
            files.push(
                SnapshotFile {
                    name: entry.name.clone(),
                    executable: entry.executable,
                    contents: vstd::slice::slice_to_vec(contents),
                },
            );
        }
        assert(file_views(files@) =~= before.push(files@.last()@));
        offset = end + 1;
        i += 1;
    }
    assert(views.take(i as int) =~= views);
    if original.as_str().is_empty() || offset != data.len() {
        return Err(SnapshotError::OutsideScope);
    }
    Ok(Unpacked { files, original, pilot })
}

/// A directory that holds a file, or holds such a directory, below the source directory.
pub open spec fn holds_file(directory: Seq<char>, name: Seq<char>) -> bool {
    directory == "source"@ || exists|i: int|
        0 <= i < name.len() && #[trigger] name[i] == '/' && directory == "source/"@ + name.take(i)
}

/// Adds a directory unless it is listed already.
fn add_directory(list: &mut Vec<String>, directory: String)
    requires
        text::texts(old(list)@).no_duplicates(),
    ensures
        text::texts(final(list)@).no_duplicates(),
        forall|d: Seq<char>| #[trigger]
            text::texts(final(list)@).contains(d) <==> text::texts(old(list)@).contains(d) || d
                == directory@,
{
    let ghost before = text::texts(list@);
    let ghost added = directory@;
    if !text::listed(list, directory.as_str()) {
        list.push(directory);
        proof {
            let after = text::texts(list@);
            assert(after =~= before.push(added));
            assert forall|d: Seq<char>| after.contains(d) <==> before.contains(d) || d == added by {
                if before.contains(d) {
                    let k = before.index_of(d);
                    assert(after[k] == d);
                }
                assert(after[before.len() as int] == added);
            }
        }
    }
}

/// The directories of a snapshot, each once.
pub fn source_directories(files: &Vec<SnapshotFile>) -> (r: Vec<String>)
    ensures
        text::texts(r@).no_duplicates(),
        forall|d: Seq<char>| #[trigger]
            text::texts(r@).contains(d) <==> exists|k: int|
                0 <= k < files.len() && holds_file(d, (#[trigger] files@[k])@.name),
{
    let mut list: Vec<String> = Vec::new();
    let mut k: usize = 0;
    while k < files.len()
        invariant
            k <= files.len(),
            text::texts(list@).no_duplicates(),
            forall|d: Seq<char>| #[trigger]
                text::texts(list@).contains(d) <==> exists|j: int|
                    0 <= j < k && holds_file(d, (#[trigger] files@[j])@.name),
        decreases files.len() - k,
    {
        let ghost before = text::texts(list@);
        let name = text::chars_of(files[k].name.as_str());
        add_directory(&mut list, "source".to_owned());
        let mut i: usize = 0;
        while i < name.len()
            invariant
                i <= name.len(),
                k < files.len(),
                name@ == files@[k as int]@.name,
                text::texts(list@).no_duplicates(),
                forall|d: Seq<char>| #[trigger]
                    text::texts(list@).contains(d) <==> before.contains(d) || d == "source"@ || (
                    exists|j: int|
                        0 <= j < i && #[trigger] name@[j] == '/' && d == "source/"@ + name@.take(
                            j,
                        )),
            decreases name.len() - i,
        {
            if name[i] == '/' {
                let mut directory = "source/".to_owned();
                let below = text::text_of(&name, 0, i);
                assert(below@ =~= name@.take(i as int));
                directory.append(below.as_str());
                add_directory(&mut list, directory);
            }
            i += 1;
        }
        assert forall|d: Seq<char>| #[trigger] text::texts(list@).contains(d) <==> exists|j: int|
            0 <= j < k + 1 && holds_file(d, (#[trigger] files@[j])@.name) by {
            let name = files@[k as int]@.name;
            if text::texts(list@).contains(d) && !before.contains(d) {
                assert(holds_file(d, name));
            }
            if holds_file(d, name) {
                assert(text::texts(list@).contains(d));
            }
        }
        k += 1;
    }
    list
}

/// An owned copy of tracked regular files with the pilot scalar deterministically replaced.
pub struct RepositorySnapshot {
    root: String,
    root_identity: (u64, u64),
    original: String,
    pilot: String,
    base: String,
    digest: String,
}

/// What Git printed while a snapshot was captured.
pub struct GitOutput {
    /// `git rev-parse --verify HEAD` before the capture.
    pub head: Vec<u8>,
    /// `git ls-tree -r -z --full-tree` of the base.
    pub tree: Vec<u8>,
    /// `git cat-file --batch` of the listed blobs.
    pub data: Vec<u8>,
    /// `git rev-parse --verify HEAD` after all files were written.
    pub head_after: Vec<u8>,
}

/// A captured snapshot: its directory, the pilot file before and after, the base and the identity.
pub struct SnapshotView {
    /// Directory that owns the snapshot.
    pub root: Seq<char>,
    /// Device and inode of the owning directory.
    pub root_identity: (u64, u64),
    /// Pilot file as committed.
    pub original: Seq<char>,
    /// Pilot file after the replacement.
    pub pilot: Seq<char>,
    /// Captured revision.
    pub base: Seq<char>,
    /// Identity of tree, blobs and replacement image.
    pub digest: Seq<char>,
}

/// Identity of the listing, the blob data and the replacement image.
pub open spec fn snapshot_identity(tree: Seq<u8>, data: Seq<u8>, image: Seq<char>) -> Seq<char> {
    crate::digest::text_digest(
        crate::digest::digest_of(tree) + ":"@ + crate::digest::digest_of(data) + ":"@ + image,
    )
}

/// A repository path and base revision that may be captured.
pub open spec fn admits_request(repository: Seq<char>, base: Seq<char>) -> bool {
    files::is_absolute(repository) && validate::is_sha(base)
}

/// What Git printed as HEAD names the base, but for surrounding whitespace.
pub open spec fn names_base(head: Seq<u8>, base: Seq<char>) -> bool {
    vstd::utf8::valid_utf8(head) && trim::trim(vstd::utf8::decode_utf8(head)) == base
}

/// The outcome of a capture.
pub open spec fn captured(
    repository: Seq<char>,
    base: Seq<char>,
    image: Seq<char>,
    git: GitOutput,
    root: Seq<char>,
    root_identity: (u64, u64),
) -> Result<SnapshotView, SnapshotError> {
    if !admits_request(repository, base) || !names_base(git.head@, base) {
        Err(SnapshotError::OutsideScope)
    } else {
        match tree_entries(git.tree@) {
            None => Err(SnapshotError::OutsideScope),
            Some(entries) => match unpacked(entries, git.data@, image) {
                Err(error) => Err(error),
                Ok(done) => if git.head_after@ != git.head@ {
                    Err(SnapshotError::OutsideScope)
                } else {
                    Ok(
                        SnapshotView {
                            root,
                            root_identity,
                            original: done.original,
                            pilot: done.pilot,
                            base,
                            digest: snapshot_identity(git.tree@, git.data@, image),
                        },
                    )
                },
            },
        }
    }
}

/// Decides [`admits_request`].
pub fn admit_request(repository: &str, base: &str) -> (r: Result<(), SnapshotError>)
    ensures
        admits_request(repository@, base@) ==> r is Ok,
        !admits_request(repository@, base@) ==> r == Err::<(), SnapshotError>(
            SnapshotError::OutsideScope,
        ),
{
    if files::absolute(repository) && valid_sha(base) {
        Ok(())
    } else {
        Err(SnapshotError::OutsideScope)
    }
}

/// Decides [`names_base`].
pub fn admit_head(head: &[u8], base: &str) -> (r: Result<(), SnapshotError>)
    ensures
        names_base(head@, base@) ==> r is Ok,
        !names_base(head@, base@) ==> r == Err::<(), SnapshotError>(SnapshotError::OutsideScope),
{
    match text::utf8_text(head) {
        Some(line) => {
            let revision = trim::trimmed(line.as_str());
            if text::text_eq(revision.as_str(), base) {
                Ok(())
            } else {
                Err(SnapshotError::OutsideScope)
            }
        },
        None => Err(SnapshotError::OutsideScope),
    }
}

impl RepositorySnapshot {
    /// What was captured.
    pub closed spec fn captured_view(self) -> SnapshotView {
        SnapshotView {
            root: self.root@,
            root_identity: self.root_identity,
            original: self.original@,
            pilot: self.pilot@,
            base: self.base@,
            digest: self.digest@,
        }
    }

    /// Directory that owns the snapshot.
    pub open spec fn root_path(self) -> Seq<char> {
        self.captured_view().root
    }

    /// Device and inode of the owning directory.
    pub open spec fn identity(self) -> (u64, u64) {
        self.captured_view().root_identity
    }

    /// Captures at most 4096 regular files and 64 MiB from the exact current HEAD, as Git
    /// printed them, into the private directory `root` with device and inode `root_identity`.
    pub fn capture(
        repository: &str,
        base: &str,
        image: &str,
        git: &GitOutput,
        root: String,
        root_identity: (u64, u64),
    ) -> (r: Result<Self, SnapshotError>)
        ensures
            match r {
                Ok(snapshot) => captured(
                    repository@,
                    base@,
                    image@,
                    *git,
                    root@,
                    root_identity,
                ) == Ok::<SnapshotView, SnapshotError>(snapshot.captured_view()),
                Err(error) => captured(
                    repository@,
                    base@,
                    image@,
                    *git,
                    root@,
                    root_identity,
                ) == Err::<SnapshotView, SnapshotError>(error),
            },
    {
        match admit_request(repository, base) {
            Ok(()) => {},
            Err(error) => return Err(error),
        }
        match admit_head(git.head.as_slice(), base) {
            Ok(()) => {},
            Err(error) => return Err(error),
        }
        let entries = match parse_tree(git.tree.as_slice()) {
            Ok(entries) => entries,
            Err(error) => return Err(error),
        };
        let out = match unpack(&entries, git.data.as_slice(), image) {
            Ok(out) => out,
            Err(error) => return Err(error),
        };
        if !text::bytes_eq(git.head_after.as_slice(), git.head.as_slice()) {
            return Err(SnapshotError::OutsideScope);
        }
        let mut identity = digest(git.tree.as_slice());
        identity.append(":");
        let blobs = digest(git.data.as_slice());
        identity.append(blobs.as_str());
        identity.append(":");
        identity.append(image);
        Ok(
            RepositorySnapshot {
                root,
                root_identity,
                original: out.original,
                pilot: out.pilot,
                base: base.to_owned(),
                digest: digest(identity.as_str().as_bytes()),
            },
        )
    }

    /// Original pilot file read from the immutable Git object.
    pub fn original_source(&self) -> (r: &str)
        ensures
            r@ == self.captured_view().original,
    {
        self.original.as_str()
    }

    /// Pilot contents after the deterministic one-field replacement.
    pub fn pilot_source(&self) -> (r: &str)
        ensures
            r@ == self.captured_view().pilot,
    {
        self.pilot.as_str()
    }

    /// Captured local HEAD revision; remote freshness is checked separately at handoff.
    pub fn base_sha(&self) -> (r: &str)
        ensures
            r@ == self.captured_view().base,
    {
        self.base.as_str()
    }

    /// Identity binding tracked paths/modes, actual blob bytes, and the replacement image.
    pub fn digest(&self) -> (r: &str)
        ensures
            r@ == self.captured_view().digest,
    {
        self.digest.as_str()
    }

    /// Directory that owns the snapshot.
    pub fn root(&self) -> (r: &str)
        ensures
            r@ == self.root_path(),
    {
        self.root.as_str()
    }

    /// Directory that holds the copied files.
    pub fn source_directory(&self) -> (r: String)
        ensures
            r@ == self.root_path() + "/source"@,
    {
        let mut out = self.root.clone();
        out.append("/source");
        out
    }

    /// Whether a directory found at the root path is the one this snapshot created. Only
    /// that one is removed; a replacement at its path is not.
    pub fn owns(&self, is_directory: bool, device: u64, inode: u64) -> (r: bool)
        ensures
            r == (is_directory && (device, inode) == self.identity()),
    {
        is_directory && device == self.root_identity.0 && inode == self.root_identity.1
    }
}

/// A captured snapshot is of the requested base, its pilot file is the deterministic repair
/// of the committed one, and every path in it is relative and ordinary.
pub proof fn captured_snapshot_is_the_repair_of_its_base(
    repository: Seq<char>,
    base: Seq<char>,
    image: Seq<char>,
    git: GitOutput,
    root: Seq<char>,
    root_identity: (u64, u64),
)
    requires
        captured(repository, base, image, git, root, root_identity) is Ok,
    ensures
        ({
            let view = captured(repository, base, image, git, root, root_identity)->Ok_0;
            &&& view.root == root
            &&& view.root_identity == root_identity
            &&& view.base == base
            &&& validate::is_sha(base)
            &&& names_base(git.head@, base)
            &&& git.head_after@ == git.head@
            &&& it_tools_image::rendered(view.original, image) == Ok::<
                Seq<char>,
                it_tools_image::RenderError,
            >(view.pilot)
        }),
        forall|i: int|
            0 <= i < tree_entries(git.tree@)->0.len() ==> is_safe_path(
                (#[trigger] (tree_entries(git.tree@)->0)[i]).name,
            ),
{
    let entries = tree_entries(git.tree@)->0;
    lemma_pilot_is_rendered(entries, git.data@, image);
    let records = tree_records(git.tree@);
    assert forall|i: int| 0 <= i < entries.len() implies is_safe_path(
        (#[trigger] entries[i]).name,
    ) by {
        assert(tree_entry(records[i]) is Some);
    }
}

proof fn lemma_pilot_is_rendered(entries: Seq<EntryView>, data: Seq<u8>, image: Seq<char>)
    requires
        unpack_all(entries, data, image) is Ok,
    ensures
        ({
            let done = unpack_all(entries, data, image)->Ok_0;
            done.original.len() > 0 ==> it_tools_image::rendered(done.original, image) == Ok::<
                Seq<char>,
                it_tools_image::RenderError,
            >(done.pilot)
        }),
    decreases entries.len(),
{
    if entries.len() > 0 {
        lemma_pilot_is_rendered(entries.drop_last(), data, image);
    }
}

/// A read-only question to Git.
#[derive(Debug, Clone, Copy, PartialEq, Eq, Structural)]
pub enum GitQuery {
    /// The current revision.
    Head,
    /// The tracked files of the base.
    Tree,
    /// The contents of blobs.
    Blobs,
}

/// The arguments of a question about a base.
pub open spec fn git_arguments(
    query: GitQuery,
    repository: Seq<char>,
    base: Seq<char>,
) -> Seq<Seq<char>> {
    match query {
        GitQuery::Head => seq!["-C"@, repository, "rev-parse"@, "--verify"@, "HEAD"@],
        GitQuery::Tree => seq![
            "-C"@,
            repository,
            "ls-tree"@,
            "-r"@,
            "-z"@,
            "--full-tree"@,
            base,
        ],
        GitQuery::Blobs => seq!["-C"@, repository, "cat-file"@, "--batch"@],
    }
}

/// Git with fixed arguments and an environment that denies configuration, replacement
/// objects, fetches, transports and prompts.
pub open spec fn git_process(
    query: GitQuery,
    repository: Seq<char>,
    base: Seq<char>,
) -> ProcessView {
    ProcessView {
        program: "/usr/bin/git"@,
        arguments: git_arguments(query, repository, base),
        environment: seq![
            ("GIT_CONFIG_NOSYSTEM"@, "1"@),
            ("GIT_CONFIG_GLOBAL"@, "/dev/null"@),
            ("GIT_NO_REPLACE_OBJECTS"@, "1"@),
            ("GIT_NO_LAZY_FETCH"@, "1"@),
            ("GIT_ALLOW_PROTOCOL"@, ""@),
            ("GIT_TERMINAL_PROMPT"@, "0"@),
        ],
    }
}

impl GitQuery {
    /// Largest accepted answer, in bytes.
    pub open spec fn answer_limit(self) -> usize {
        match self {
            GitQuery::Head => 128,
            GitQuery::Tree => 4194304,
            GitQuery::Blobs => MAX_DATA,
        }
    }

    /// Largest accepted answer, in bytes.
    pub fn limit(self) -> (r: usize)
        ensures
            r == self.answer_limit(),
    {
        match self {
            GitQuery::Head => 128,
            GitQuery::Tree => 4194304,
            GitQuery::Blobs => MAX_DATA,
        }
    }

    /// Plans the question.
    pub fn plan(self, repository: &str, base: &str) -> (r: ProcessPlan)
        ensures
            r@ == git_process(self, repository@, base@),
    {
        let arguments = match self {
            GitQuery::Head => {
                let m = vec![
                    "-C".to_owned(),
                    repository.to_owned(),
                    "rev-parse".to_owned(),
                    "--verify".to_owned(),
                    "HEAD".to_owned(),
                ];
                assert(text::texts(m@) =~= seq![m@[0]@, m@[1]@, m@[2]@, m@[3]@, m@[4]@]);
                m
            },
            GitQuery::Tree => {
                let m = vec![
                    "-C".to_owned(),
                    repository.to_owned(),
                    "ls-tree".to_owned(),
                    "-r".to_owned(),
                    "-z".to_owned(),
                    "--full-tree".to_owned(),
                    base.to_owned(),
                ];
                assert(text::texts(m@) =~= seq![
                    m@[0]@,
                    m@[1]@,
                    m@[2]@,
                    m@[3]@,
                    m@[4]@,
                    m@[5]@,
                    m@[6]@,
                ]);
                m
            },
            GitQuery::Blobs => {
                let m = vec![
                    "-C".to_owned(),
                    repository.to_owned(),
                    "cat-file".to_owned(),
                    "--batch".to_owned(),
                ];
                assert(text::texts(m@) =~= seq![m@[0]@, m@[1]@, m@[2]@, m@[3]@]);
                m
            },
        };
        let environment = vec![
            variable("GIT_CONFIG_NOSYSTEM", "1"),
            variable("GIT_CONFIG_GLOBAL", "/dev/null"),
            variable("GIT_NO_REPLACE_OBJECTS", "1"),
            // A missing promisor object must not trigger a fetch or a host credential helper.
            // The empty protocol allowlist also denies transports on older Git versions.
            variable("GIT_NO_LAZY_FETCH", "1"),
            variable("GIT_ALLOW_PROTOCOL", ""),
            variable("GIT_TERMINAL_PROMPT", "0"),
        ];
        let plan = ProcessPlan { program: "/usr/bin/git".to_owned(), arguments, environment };
        assert(plan@.environment =~= git_process(self, repository@, base@).environment);
        plan
    }

    /// Accepts an answer of a successful child within the limit.
    pub fn accept(self, success: bool, answer: Vec<u8>) -> (r: Result<Vec<u8>, SnapshotError>)
        ensures
            match r {
                Ok(bytes) => success && bytes == answer && answer@.len() <= self.answer_limit(),
                Err(error) => !(success && answer@.len() <= self.answer_limit()) && error
                    == SnapshotError::Unavailable,
            },
    {
        if !success || answer.len() > self.limit() {
            return Err(SnapshotError::Unavailable);
        }
        Ok(answer)
    }
}

/// The name of a private snapshot directory.
pub open spec fn directory_name(pid: nat, tick: nat, counter: nat) -> Seq<char> {
    "ai-sre-u9-snapshot-"@ + number::decimal(pid) + "-"@ + number::decimal(tick) + "-"@
        + number::decimal(counter)
}

/// Names a private snapshot directory by process, clock and counter.
pub fn private_directory_name(pid: u32, tick: u128, counter: u64) -> (r: String)
    ensures
        r@ == directory_name(pid as nat, tick as nat, counter as nat),
{
    let mut name = "ai-sre-u9-snapshot-".to_owned();
    number::push_decimal(&mut name, pid as u128);
    name.append("-");
    number::push_decimal(&mut name, tick);
    name.append("-");
    number::push_decimal(&mut name, counter as u128);
    name
}

/// Snapshots started in the same clock tick by the same process get distinct directories.
pub proof fn same_tick_directories_are_distinct(pid: nat, tick: nat, first: nat, second: nat)
    requires
        first != second,
    ensures
        directory_name(pid, tick, first) != directory_name(pid, tick, second),
{
    let front = "ai-sre-u9-snapshot-"@ + number::decimal(pid) + "-"@ + number::decimal(tick)
        + "-"@;
    assert((front + number::decimal(first)).skip(front.len() as int) =~= number::decimal(first));
    assert((front + number::decimal(second)).skip(front.len() as int) =~= number::decimal(second));
    number::lemma_decimal_value(first);
    number::lemma_decimal_value(second);
}

/// The directory of a snapshot is one that a launch may lease.
pub proof fn snapshot_directories_can_be_leased(pid: nat, tick: nat, counter: nat)
    ensures
        super::sandbox::jobs::is_snapshot_name(directory_name(pid, tick, counter)),
{
    let name = directory_name(pid, tick, counter);
    let prefix = "ai-sre-u9-snapshot-"@;
    reveal_strlit("ai-sre-u9-snapshot-");
    reveal_strlit("-");
    assert(prefix =~= name.subrange(0, prefix.len() as int));
    number::lemma_decimal_value(pid);
    number::lemma_decimal_value(tick);
    number::lemma_decimal_value(counter);
    let jobs = text::Alphabet::JobName;
    lemma_spells_join(prefix, number::decimal(pid));
    lemma_spells_join(prefix + number::decimal(pid), "-"@);
    lemma_spells_join(prefix + number::decimal(pid) + "-"@, number::decimal(tick));
    lemma_spells_join(prefix + number::decimal(pid) + "-"@ + number::decimal(tick), "-"@);
    lemma_spells_join(
        prefix + number::decimal(pid) + "-"@ + number::decimal(tick) + "-"@,
        number::decimal(counter),
    );
    assert(jobs.spells(prefix)) by {
        assert(prefix =~= seq![
            'a',
            'i',
            '-',
            's',
            'r',
            'e',
            '-',
            'u',
            '9',
            '-',
            's',
            'n',
            'a',
            'p',
            's',
            'h',
            'o',
            't',
            '-',
        ]);
    }
    assert(jobs.spells("-"@));
    assert(jobs.spells(number::decimal(pid)));
    assert(jobs.spells(number::decimal(tick)));
    assert(jobs.spells(number::decimal(counter)));
}

proof fn lemma_spells_join(a: Seq<char>, b: Seq<char>)
    ensures
        text::Alphabet::JobName.spells(a) && text::Alphabet::JobName.spells(b)
            ==> text::Alphabet::JobName.spells(a + b),
{
}

/// Three fields and their separators are the whole.
proof fn lemma_three_fields(s: Seq<char>)
    requires
        split::fields(s, ' ').len() == 3,
    ensures
        ({
            let parts = split::fields(s, ' ');
            s == parts[0] + seq![' '] + parts[1] + seq![' '] + parts[2]
        }),
{
    let parts = split::fields(s, ' ');
    split::fields_rejoin_to_the_whole(s, ' ');
    let two = parts.drop_last();
    let one = two.drop_last();
    assert(one.len() == 1);
    assert(split::rejoined(one, ' ') == parts[0]);
    assert(split::rejoined(two, ' ') =~= parts[0].push(' ') + parts[1]);
    assert(split::rejoined(parts, ' ') =~= (parts[0].push(' ') + parts[1]).push(' ') + parts[2]);
    assert(s =~= parts[0] + seq![' '] + parts[1] + seq![' '] + parts[2]);
}

/// One more field stands behind a separator.
proof fn lemma_field_behind(a: Seq<char>, b: Seq<char>)
    requires
        !b.contains(' '),
    ensures
        split::fields(a.push(' ') + b, ' ') == split::fields(a, ' ').push(b),
    decreases b.len(),
{
    let s = a.push(' ') + b;
    if b.len() == 0 {
        assert(s =~= a.push(' '));
        assert(s.drop_last() =~= a);
        assert(b =~= Seq::empty());
    } else {
        let rest = b.drop_last();
        assert forall|c: char| rest.contains(c) implies b.contains(c) by {
            let i = choose|i: int| 0 <= i < rest.len() && rest[i] == c;
            assert(b[i] == c);
        }
        lemma_field_behind(a, rest);
        assert(s.drop_last() =~= a.push(' ') + rest);
        assert(b.contains(b.last()));
        assert(s.last() == b.last());
        let before = split::fields(a, ' ').push(rest);
        assert(before.drop_last() =~= split::fields(a, ' '));
        assert(rest.push(b.last()) =~= b);
    }
}

proof fn lemma_one_field(s: Seq<char>)
    requires
        !s.contains(' '),
    ensures
        split::fields(s, ' ') == seq![s],
    decreases s.len(),
{
    if s.len() == 0 {
        assert(s =~= Seq::empty());
    } else {
        let rest = s.drop_last();
        assert forall|c: char| rest.contains(c) implies s.contains(c) by {
            let i = choose|i: int| 0 <= i < rest.len() && rest[i] == c;
            assert(s[i] == c);
        }
        lemma_one_field(rest);
        assert(s.contains(s.last()));
        assert(rest.push(s.last()) =~= s);
        assert(split::fields(s, ' ') =~= seq![s]);
    }
}

/// A record that is read says exactly this: mode 100755 for an executable file and 100644 for any
/// other, `blob`, the identifier, a tab and the path.
pub proof fn records_say_mode_identifier_and_path(record: Seq<u8>)
    requires
        tree_entry(record) is Some,
    ensures
        ({
            let entry = tree_entry(record)->0;
            &&& vstd::utf8::valid_utf8(record)
            &&& vstd::utf8::decode_utf8(record) == (if entry.executable {
                "100755"@
            } else {
                "100644"@
            }) + " blob "@ + entry.oid + "\t"@ + entry.name
            &&& entry.oid.len() == 40 || entry.oid.len() == 64
            &&& forall|i: int|
                0 <= i < entry.oid.len() ==> ('0' <= #[trigger] entry.oid[i] <= '9') || ('a'
                    <= entry.oid[i] <= 'f')
        }),
{
    let line = vstd::utf8::decode_utf8(record);
    let entry = tree_entry(record)->0;
    let (header, name) = trim::cut(line, '\t')->0;
    let at = choose|i: int| 0 <= i < line.len() && line[i] == '\t';
    lemma_cut_rejoins(line, '\t');
    lemma_three_fields(header);
    reveal_strlit(" blob ");
    reveal_strlit("blob");
    reveal_strlit("\t");
    assert(" blob "@ =~= seq![' '] + "blob"@ + seq![' ']);
    assert("\t"@ =~= seq!['\t']);
    assert(line =~= (if entry.executable {
        "100755"@
    } else {
        "100644"@
    }) + " blob "@ + entry.oid + "\t"@ + entry.name);
    assert forall|i: int| 0 <= i < entry.oid.len() implies ('0' <= #[trigger] entry.oid[i] <= '9')
        || ('a' <= entry.oid[i] <= 'f') by {
        assert(text::Alphabet::LowerHex.holds(entry.oid[i]));
    }
}

proof fn lemma_cut_rejoins(s: Seq<char>, c: char)
    requires
        s.contains(c),
    ensures
        trim::cut(s, c) is Some,
        ({
            let (a, b) = trim::cut(s, c)->0;
            s == a + seq![c] + b && !a.contains(c)
        }),
{
    let any = choose|i: int| 0 <= i < s.len() && s[i] == c;
    let at = lemma_least_index(s, c, any);
    trim::lemma_first_index(s, c, at);
    assert(s =~= s.take(at) + seq![c] + s.skip(at + 1));
}

proof fn lemma_least_index(s: Seq<char>, c: char, i: int) -> (at: int)
    requires
        0 <= i < s.len(),
        s[i] == c,
    ensures
        0 <= at <= i,
        s[at] == c,
        forall|j: int| 0 <= j < at ==> s[j] != c,
    decreases i,
{
    if exists|j: int| 0 <= j < i && s[j] == c {
        let j = choose|j: int| 0 <= j < i && s[j] == c;
        lemma_least_index(s, c, j)
    } else {
        i
    }
}

/// Every record of a regular file with a safe path is read, with its mode.
pub proof fn records_of_regular_files_are_read(executable: bool, oid: Seq<char>, name: Seq<char>)
    requires
        oid.len() == 40 || oid.len() == 64,
        forall|i: int|
            0 <= i < oid.len() ==> ('0' <= #[trigger] oid[i] <= '9') || ('a' <= oid[i] <= 'f'),
        is_safe_path(name),
    ensures
        tree_entry(
            vstd::utf8::encode_utf8(
                (if executable {
                    "100755"@
                } else {
                    "100644"@
                }) + " blob "@ + oid + "\t"@ + name,
            ),
        ) == Some(EntryView { name, executable, oid }),
{
    let mode = if executable {
        "100755"@
    } else {
        "100644"@
    };
    let line = mode + " blob "@ + oid + "\t"@ + name;
    vstd::utf8::encode_utf8_valid_utf8(line);
    vstd::utf8::encode_utf8_decode_utf8(line);
    reveal_strlit(" blob ");
    reveal_strlit("blob");
    reveal_strlit("\t");
    reveal_strlit("100755");
    reveal_strlit("100644");
    let header = (mode.push(' ') + "blob"@).push(' ') + oid;
    assert(line =~= header + seq!['\t'] + name);
    assert(!header.contains('\t'));
    trim::texts_are_cut_at_the_first_separator(header, '\t', name, line);
    assert(!mode.contains(' '));
    assert(!"blob"@.contains(' '));
    assert(!oid.contains(' '));
    lemma_one_field(mode);
    lemma_field_behind(mode, "blob"@);
    lemma_field_behind(mode.push(' ') + "blob"@, oid);
    let parts = split::fields(header, ' ');
    assert(parts =~= seq![mode, "blob"@, oid]);
    assert("100755"@[3] != "100644"@[3]);
    assert(validate::is_sha(oid)) by {
        assert forall|i: int| 0 <= i < oid.len() implies text::Alphabet::LowerHex.holds(
            #[trigger] oid[i],
        ) by {}
    }
}

/// What `git cat-file --batch` prints: each header line, its blob and a newline.
pub open spec fn batch_output(headers: Seq<Seq<char>>, blobs: Seq<Seq<u8>>) -> Seq<u8>
    decreases headers.len(),
{
    if headers.len() == 0 {
        Seq::empty()
    } else {
        batch_output(headers.drop_last(), blobs.drop_last()) + vstd::utf8::encode_utf8(
            headers.last(),
        ) + seq![10u8] + blobs.last() + seq![10u8]
    }
}

/// One file of a snapshot: the blob under the path and mode of its record, and under the pilot
/// path its repair.
pub open spec fn is_recorded_file(
    file: FileView,
    entry: EntryView,
    header: Seq<char>,
    blob: Seq<u8>,
    image: Seq<char>,
) -> bool {
    &&& file.name == entry.name
    &&& file.executable == entry.executable
    &&& entry.oid + " blob "@ == header.take(entry.oid.len() as int + 6)
    &&& number::parsed(header.skip(entry.oid.len() as int + 6), usize::MAX as nat) == Some(blob.len())
    &&& file.name != "stacks/utility/compose.yml"@ ==> file.contents == blob
    &&& file.name == "stacks/utility/compose.yml"@ ==> vstd::utf8::valid_utf8(blob)
        && it_tools_image::rendered(vstd::utf8::decode_utf8(blob), image) is Ok && file.contents
        == vstd::utf8::encode_utf8(
        it_tools_image::rendered(vstd::utf8::decode_utf8(blob), image)->Ok_0,
    )
}

proof fn lemma_newline_from(data: Seq<u8>, from: int)
    requires
        newline_from(data, from) is Some,
    ensures
        0 <= from <= newline_from(data, from)->0 < data.len(),
        data[newline_from(data, from)->0] == 10u8,
    decreases data.len() - from,
{
    if data[from] != 10u8 {
        lemma_newline_from(data, from + 1);
    }
}

/// The pilot file before and after: what the blob of an entry under the pilot path says, and what the
/// file of that entry holds.
pub open spec fn is_pilot_at(
    done: Progress,
    entries: Seq<EntryView>,
    blobs: Seq<Seq<u8>>,
    i: int,
) -> bool {
    &&& 0 <= i < entries.len()
    &&& entries[i].name == "stacks/utility/compose.yml"@
    &&& vstd::utf8::valid_utf8(blobs[i])
    &&& done.original == vstd::utf8::decode_utf8(blobs[i])
    &&& done.files[i].contents == vstd::utf8::encode_utf8(done.pilot)
}

/// The files that were read, as far as they go.
proof fn lemma_files_are_recorded(entries: Seq<EntryView>, data: Seq<u8>, image: Seq<char>) -> (r: (
    Seq<Seq<char>>,
    Seq<Seq<u8>>,
))
    requires
        unpack_all(entries, data, image) is Ok,
    ensures
        ({
            let done = unpack_all(entries, data, image)->Ok_0;
            &&& r.0.len() == entries.len()
            &&& r.1.len() == entries.len()
            &&& done.files.len() == entries.len()
            &&& 0 <= done.offset <= data.len()
            &&& data.take(done.offset) == batch_output(r.0, r.1)
            &&& done.original.len() > 0 ==> exists|i: int| #[trigger] is_pilot_at(done, entries, r.1, i)
            &&& forall|i: int|
                0 <= i < entries.len() ==> is_recorded_file(
                    #[trigger] done.files[i],
                    entries[i],
                    r.0[i],
                    r.1[i],
                    image,
                )
        }),
    decreases entries.len(),
{
    if entries.len() == 0 {
        assert(data.take(0) =~= Seq::empty());
        (Seq::empty(), Seq::empty())
    } else {
        let (headers, blobs) = lemma_files_are_recorded(entries.drop_last(), data, image);
        let before = unpack_all(entries.drop_last(), data, image)->Ok_0;
        let done = unpack_all(entries, data, image)->Ok_0;
        let entry = entries.last();
        let (start, end) = blob_at(data, before.offset, entry.oid)->0;
        lemma_newline_from(data, before.offset);
        let header_bytes = data.subrange(before.offset, start - 1);
        let header = vstd::utf8::decode_utf8(header_bytes);
        let blob = data.subrange(start, end);
        lemma_three_fields(header);
        let digits = split::fields(header, ' ')[2];
        reveal_strlit(" blob ");
        reveal_strlit("blob");
        assert(" blob "@ =~= seq![' '] + "blob"@ + seq![' ']);
        assert(header =~= entry.oid + " blob "@ + digits);
        let n = entry.oid.len() + 6;
        assert(header.take(n as int) =~= entry.oid + " blob "@);
        assert(header.skip(n as int) =~= digits);
        vstd::utf8::decode_utf8_encode_utf8(header_bytes);
        let h = headers.push(header);
        let b = blobs.push(blob);
        assert(h.drop_last() =~= headers);
        assert(b.drop_last() =~= blobs);
        assert(data.take(done.offset) =~= data.take(before.offset) + header_bytes + seq![10u8] + blob
            + seq![10u8]);
        assert forall|i: int| 0 <= i < entries.len() implies is_recorded_file(
            #[trigger] done.files[i],
            entries[i],
            h[i],
            b[i],
            image,
        ) by {
            if i < entries.len() - 1 {
                assert(done.files[i] == before.files[i]);
                assert(entries.drop_last()[i] == entries[i]);
            }
        }
        if done.original.len() > 0 {
            if entry.name == "stacks/utility/compose.yml"@ {
                assert(is_pilot_at(done, entries, b, entries.len() - 1));
            } else {
                let i = choose|i: int|
                    #[trigger] is_pilot_at(before, entries.drop_last(), blobs, i);
                assert(entries.drop_last()[i] == entries[i]);
                assert(is_pilot_at(done, entries, b, i));
            }
        }
        (h, b)
    }
}

/// A captured snapshot holds, in the order of the tree and for each of its records, one file with
/// the path and mode of the record and the contents of its blob; the blob data holds these blobs
/// and nothing else.
pub proof fn captured_files_are_the_recorded_files(
    tree: Seq<u8>,
    data: Seq<u8>,
    image: Seq<char>,
) -> (r: (Seq<Seq<char>>, Seq<Seq<u8>>))
    requires
        tree_entries(tree) is Some,
        unpacked(tree_entries(tree)->0, data, image) is Ok,
    ensures
        ({
            let records = tree_records(tree);
            let files = (unpacked(tree_entries(tree)->0, data, image)->Ok_0).files;
            &&& files.len() == records.len() == r.0.len() == r.1.len()
            &&& records.len() <= 4096
            &&& data == batch_output(r.0, r.1)
            &&& exists|i: int|
                #[trigger] is_pilot_at(
                    unpacked(tree_entries(tree)->0, data, image)->Ok_0,
                    tree_entries(tree)->0,
                    r.1,
                    i,
                )
            &&& forall|i: int|
                0 <= i < records.len() ==> {
                    let entry = tree_entry(#[trigger] records[i])->0;
                    &&& is_recorded_file(files[i], entry, r.0[i], r.1[i], image)
                    &&& vstd::utf8::decode_utf8(records[i]) == (if files[i].executable {
                        "100755"@
                    } else {
                        "100644"@
                    }) + " blob "@ + entry.oid + "\t"@ + files[i].name
                }
        }),
{
    let entries = tree_entries(tree)->0;
    let records = tree_records(tree);
    let r = lemma_files_are_recorded(entries, data, image);
    assert(data.take(data.len() as int) =~= data);
    let files = (unpacked(entries, data, image)->Ok_0).files;
    assert forall|i: int| 0 <= i < records.len() implies ({
        let entry = tree_entry(#[trigger] records[i])->0;
        &&& is_recorded_file(files[i], entry, r.0[i], r.1[i], image)
        &&& vstd::utf8::decode_utf8(records[i]) == (if files[i].executable {
            "100755"@
        } else {
            "100644"@
        }) + " blob "@ + entry.oid + "\t"@ + files[i].name
    }) by {
        assert(tree_entry(records[i]) is Some);
        records_say_mode_identifier_and_path(records[i]);
        assert(entries[i] == tree_entry(records[i])->0);
        assert(is_recorded_file(files[i], entries[i], r.0[i], r.1[i], image));
    }
    r
}

/// The records of a listing are what stands between zero bytes; what is empty there is no record.
pub proof fn listings_are_records_between_zero_bytes(tree: Seq<u8>)
    ensures
        split::rejoined(split::fields(tree, 0u8), 0u8) == tree,
        tree_records(tree) == split::fields(tree, 0u8).filter(|record: Seq<u8>| record.len() > 0),
        tree_entries(tree) is Some <==> tree_records(tree).len() <= 4096 && forall|i: int|
            0 <= i < tree_records(tree).len() ==> tree_entry(#[trigger] tree_records(tree)[i])
                is Some,
{
    split::fields_rejoin_to_the_whole(tree, 0u8);
}

/// A path that a snapshot creates stays below its directory: it is relative, and no part of it is
/// empty, a dot, two dots or the Git directory. Every such path of at most 512 bytes without control
/// characters and backslashes is taken.
pub proof fn safe_paths_stay_inside(name: Seq<char>)
    ensures
        ({
            let parts = split::fields(name, '/');
            is_safe_path(name) <==> name.len() >= 1 && vstd::utf8::encode_utf8(name).len() <= 512
                && (forall|i: int|
                0 <= i < parts.len() ==> #[trigger] parts[i] != ""@ && parts[i] != "."@ && parts[i]
                    != ".."@ && parts[i] != ".git"@) && (forall|i: int|
                0 <= i < name.len() ==> #[trigger] name[i] >= '\u{20}' && name[i] != '\u{7f}'
                    && name[i] != '\\')
        }),
        is_safe_path(name) ==> name[0] != '/' && name.last() != '/',
{
    let parts = split::fields(name, '/');
    reveal_strlit("");
    assert(is_safe_path(name) <==> name.len() >= 1 && vstd::utf8::encode_utf8(name).len() <= 512
        && (forall|i: int|
        0 <= i < parts.len() ==> #[trigger] parts[i] != ""@ && parts[i] != "."@ && parts[i] != ".."@
            && parts[i] != ".git"@) && (forall|i: int|
        0 <= i < name.len() ==> #[trigger] name[i] >= '\u{20}' && name[i] != '\u{7f}' && name[i]
            != '\\')) by {
        assert forall|i: int| 0 <= i < name.len() implies is_forbidden_char(#[trigger] name[i]) == !(
        name[i] >= '\u{20}' && name[i] != '\u{7f}' && name[i] != '\\') by {}
        assert forall|i: int| 0 <= i < parts.len() implies is_forbidden_part(#[trigger] parts[i])
            == !(parts[i] != ""@ && parts[i] != "."@ && parts[i] != ".."@ && parts[i] != ".git"@) by {}
    }
    if is_safe_path(name) {
        split::lemma_fields_nonempty(name, '/');
        if name.last() == '/' {
            assert(parts.last() =~= ""@);
            assert(is_forbidden_part(parts[parts.len() - 1]));
        }
        if name[0] == '/' {
            lemma_first_field(name, '/');
            assert(parts[0] =~= ""@);
            assert(is_forbidden_part(parts[0]));
        }
    }
}

/// A text that begins with a separator has an empty first field.
proof fn lemma_first_field(s: Seq<char>, c: char)
    requires
        s.len() > 0,
        s[0] == c,
    ensures
        split::fields(s, c).len() >= 2,
        split::fields(s, c)[0].len() == 0,
    decreases s.len(),
{
    if s.len() == 1 {
        assert(s.drop_last() =~= Seq::empty());
        assert(split::fields(s.drop_last(), c) =~= seq![Seq::<char>::empty()]);
    } else {
        lemma_first_field(s.drop_last(), c);
    }
}

/// A capture is taken exactly of a repository with an absolute path at a full revision that HEAD
/// names before and after, whose tree and blobs can be read; its identity covers the tree, the
/// blobs and the image.
pub proof fn captures_need_an_unmoved_head(
    repository: Seq<char>,
    base: Seq<char>,
    image: Seq<char>,
    git: GitOutput,
    root: Seq<char>,
    root_identity: (u64, u64),
)
    ensures
        ({
            let outcome = captured(repository, base, image, git, root, root_identity);
            let entries = tree_entries(git.tree@);
            &&& outcome is Ok <==> repository.len() > 0 && repository[0] == '/' && (base.len() == 40
                || base.len() == 64) && text::Alphabet::LowerHex.spells(base)
                && vstd::utf8::valid_utf8(git.head@) && trim::trim(
                vstd::utf8::decode_utf8(git.head@),
            ) == base && entries is Some && unpacked(entries->0, git.data@, image) is Ok
                && git.head_after@ == git.head@
            &&& outcome matches Ok(view) ==> view.base == base && view.root == root
                && view.root_identity == root_identity && view.original == (unpacked(
                entries->0,
                git.data@,
                image,
            )->Ok_0).original && view.pilot == (unpacked(entries->0, git.data@, image)->Ok_0).pilot
                && view.digest == crate::digest::text_digest(
                crate::digest::digest_of(git.tree@) + ":"@ + crate::digest::digest_of(git.data@)
                    + ":"@ + image,
            )
        }),
{
    reveal_strlit("/");
}

/// Git is asked by fixed arguments, with an environment that reads no configuration, follows no
/// replacement, fetches nothing and asks nobody.
pub proof fn git_is_asked_by_fixed_arguments(repository: Seq<char>, base: Seq<char>, query: GitQuery)
    ensures
        git_process(GitQuery::Head, repository, base).arguments == seq![
            "-C"@,
            repository,
            "rev-parse"@,
            "--verify"@,
            "HEAD"@,
        ],
        git_process(GitQuery::Tree, repository, base).arguments == seq![
            "-C"@,
            repository,
            "ls-tree"@,
            "-r"@,
            "-z"@,
            "--full-tree"@,
            base,
        ],
        git_process(GitQuery::Blobs, repository, base).arguments == seq![
            "-C"@,
            repository,
            "cat-file"@,
            "--batch"@,
        ],
        ({
            let plan = git_process(query, repository, base);
            &&& plan.program == "/usr/bin/git"@
            &&& plan.environment.len() == 6
            &&& plan.environment[0] == ("GIT_CONFIG_NOSYSTEM"@, "1"@)
            &&& plan.environment[1] == ("GIT_CONFIG_GLOBAL"@, "/dev/null"@)
            &&& plan.environment[2] == ("GIT_NO_REPLACE_OBJECTS"@, "1"@)
            &&& plan.environment[3] == ("GIT_NO_LAZY_FETCH"@, "1"@)
            &&& plan.environment[4] == ("GIT_ALLOW_PROTOCOL"@, ""@)
            &&& plan.environment[5] == ("GIT_TERMINAL_PROMPT"@, "0"@)
        }),
        GitQuery::Head.answer_limit() == 128,
        GitQuery::Tree.answer_limit() == 4194304,
        GitQuery::Blobs.answer_limit() == 67108864,
{
}

/// The blobs are requested by identifier, one per line, in the order of the tree.
pub proof fn blobs_are_requested_in_order(entries: Seq<EntryView>, entry: EntryView)
    ensures
        batch_of(Seq::empty()).len() == 0,
        batch_of(entries.push(entry)) == batch_of(entries) + vstd::utf8::encode_utf8(entry.oid)
            + seq![10u8],
{
    assert(entries.push(entry).drop_last() =~= entries);
    assert(batch_of(entries.push(entry)) =~= batch_of(entries) + vstd::utf8::encode_utf8(entry.oid)
        + seq![10u8]);
}

/// The directories of a file are the source directory and every beginning of its path before a slash.
pub proof fn directories_are_beginnings_of_paths(above: Seq<char>, below: Seq<char>, name: Seq<char>)
    ensures
        holds_file("source"@, name),
        holds_file("source/"@ + above, above + "/"@ + below),
        !name.contains('/') && holds_file(above, name) ==> above == "source"@,
{
    reveal_strlit("/");
    let path = above + "/"@ + below;
    assert(path[above.len() as int] == '/');
    assert(path.take(above.len() as int) =~= above);
    if !name.contains('/') && holds_file(above, name) && above != "source"@ {
        let i = choose|i: int|
            0 <= i < name.len() && #[trigger] name[i] == '/' && above == "source/"@ + name.take(i);
        assert(name.contains(name[i]));
    }
}

/// The first newline of a text behind which it stands.
proof fn lemma_newline_at(data: Seq<u8>, from: int, at: int)
    requires
        0 <= from <= at < data.len(),
        data[at] == 10u8,
        forall|i: int| from <= i < at ==> data[i] != 10u8,
    ensures
        newline_from(data, from) == Some(at),
    decreases at - from,
{
    if from < at {
        lemma_newline_at(data, from + 1, at);
    }
}

/// The header line that Git prints before a blob.
pub open spec fn blob_header(oid: Seq<char>, length: nat) -> Seq<char> {
    oid + " blob "@ + number::decimal(length)
}

/// A blob behind its header line is found, whatever follows.
proof fn lemma_blob_is_found(data: Seq<u8>, offset: int, oid: Seq<char>, blob: Seq<u8>)
    requires
        validate::is_sha(oid),
        blob.len() <= usize::MAX,
        0 <= offset,
        ({
            let line = vstd::utf8::encode_utf8(blob_header(oid, blob.len()));
            let whole = line + seq![10u8] + blob + seq![10u8];
            offset + whole.len() <= data.len() && data.subrange(offset, offset + whole.len()) == whole
        }),
    ensures
        ({
            let line = vstd::utf8::encode_utf8(blob_header(oid, blob.len()));
            let start = offset + line.len() + 1;
            blob_at(data, offset, oid) == Some((start as int, start + blob.len()))
        }),
{
    let header = blob_header(oid, blob.len());
    let digits = number::decimal(blob.len());
    let line = vstd::utf8::encode_utf8(header);
    let whole = line + seq![10u8] + blob + seq![10u8];
    reveal_strlit(" blob ");
    reveal_strlit("blob");
    number::lemma_decimal_value(blob.len());
    assert forall|i: int| 0 <= i < header.len() implies '\0' <= #[trigger] header[i] <= '\u{7f}'
        && header[i] != '\n' by {
        if i < oid.len() {
            assert(text::Alphabet::LowerHex.holds(oid[i]));
        } else if i >= oid.len() + 6 {
            assert(text::is_digit(digits[i - oid.len() - 6]));
        }
    }
    vstd::utf8::is_ascii_chars_encode_utf8(header);
    let at = offset + line.len();
    assert forall|i: int| 0 <= i < whole.len() implies data[offset + i] == #[trigger] whole[i] by {
        assert(data.subrange(offset, offset + whole.len())[i] == data[offset + i]);
    }
    assert(whole[line.len() as int] == 10u8);
    assert forall|i: int| offset <= i < at implies data[i] != 10u8 by {
        assert(whole[i - offset] == line[i - offset]);
        assert(header[i - offset] as u8 == line[i - offset]);
        assert(header[i - offset] != '\n');
    }
    lemma_newline_at(data, offset, at as int);
    assert(data.subrange(offset, at as int) =~= line);
    vstd::utf8::encode_utf8_valid_utf8(header);
    vstd::utf8::encode_utf8_decode_utf8(header);
    assert(!oid.contains(' ')) by {
        assert forall|i: int| 0 <= i < oid.len() implies oid[i] != ' ' by {
            assert(text::Alphabet::LowerHex.holds(oid[i]));
        }
    }
    assert(!digits.contains(' ')) by {
        assert forall|i: int| 0 <= i < digits.len() implies digits[i] != ' ' by {
            assert(text::is_digit(digits[i]));
        }
    }
    assert(!"blob"@.contains(' '));
    lemma_one_field(oid);
    lemma_field_behind(oid, "blob"@);
    lemma_field_behind(oid.push(' ') + "blob"@, digits);
    assert(header =~= (oid.push(' ') + "blob"@).push(' ') + digits);
    let parts = split::fields(header, ' ');
    assert(parts =~= seq![oid, "blob"@, digits]);
    number::decimals_read_back(blob.len(), usize::MAX as nat, Seq::empty(), 0);
    let end = at + 1 + blob.len();
    assert(whole[whole.len() - 1] == 10u8);
    assert(data[end as int] == 10u8);
}

/// A file that can be captured: under the pilot path, a text of at most 256 KiB that can be repaired.
pub open spec fn is_capturable(entry: EntryView, blob: Seq<u8>, image: Seq<char>) -> bool {
    &&& validate::is_sha(entry.oid)
    &&& blob.len() <= usize::MAX
    &&& entry.name == "stacks/utility/compose.yml"@ ==> blob.len() <= 262144
        && vstd::utf8::valid_utf8(blob) && it_tools_image::rendered(
        vstd::utf8::decode_utf8(blob),
        image,
    ) is Ok
}

/// The header lines of blobs.
pub open spec fn blob_headers(entries: Seq<EntryView>, blobs: Seq<Seq<u8>>) -> Seq<Seq<char>> {
    Seq::new(entries.len(), |i: int| blob_header(entries[i].oid, blobs[i].len()))
}

proof fn lemma_printed_blobs_are_read(
    entries: Seq<EntryView>,
    blobs: Seq<Seq<u8>>,
    data: Seq<u8>,
    image: Seq<char>,
)
    requires
        entries.len() == blobs.len(),
        forall|i: int| 0 <= i < entries.len() ==> is_capturable(#[trigger] entries[i], blobs[i], image),
        ({
            let printed = batch_output(blob_headers(entries, blobs), blobs);
            printed.len() <= data.len() && data.take(printed.len() as int) == printed
        }),
    ensures
        unpack_all(entries, data, image) is Ok,
        (unpack_all(entries, data, image)->Ok_0).offset == batch_output(
            blob_headers(entries, blobs),
            blobs,
        ).len(),
    decreases entries.len(),
{
    if entries.len() > 0 {
        let front = entries.drop_last();
        let rest = blobs.drop_last();
        let headers = blob_headers(entries, blobs);
        assert(headers.drop_last() =~= blob_headers(front, rest));
        let before = batch_output(blob_headers(front, rest), rest);
        let entry = entries.last();
        let blob = blobs.last();
        let line = vstd::utf8::encode_utf8(headers.last());
        let whole = line + seq![10u8] + blob + seq![10u8];
        let printed = batch_output(headers, blobs);
        assert(printed =~= before + whole);
        assert(data.take(before.len() as int) =~= before) by {
            assert forall|i: int| 0 <= i < before.len() implies data[i] == before[i] by {
                assert(data.take(printed.len() as int)[i] == printed[i]);
            }
        }
        assert forall|i: int| 0 <= i < front.len() implies is_capturable(
            #[trigger] front[i],
            rest[i],
            image,
        ) by {
            assert(is_capturable(entries[i], blobs[i], image));
        }
        lemma_printed_blobs_are_read(front, rest, data, image);
        let offset = before.len() as int;
        assert(data.subrange(offset, offset + whole.len()) =~= whole) by {
            assert forall|i: int| 0 <= i < whole.len() implies data[offset + i] == whole[i] by {
                assert(data.take(printed.len() as int)[offset + i] == printed[offset + i]);
            }
        }
        assert(is_capturable(entries[entries.len() - 1], blobs[entries.len() - 1], image));
        lemma_blob_is_found(data, offset, entry.oid, blob);
        let start = offset + line.len() + 1;
        assert(data.subrange(start as int, start + blob.len()) =~= blob) by {
            assert forall|i: int| 0 <= i < blob.len() implies data[start + i] == blob[i] by {
                assert(data.subrange(offset, offset + whole.len())[line.len() + 1 + i] == whole[
                line.len() + 1 + i]);
            }
        }
    }
}

/// What Git prints for the requested blobs is always read: a tree of capturable files gives every one of
/// them, and nothing is left over.
pub proof fn printed_blobs_are_always_read(
    entries: Seq<EntryView>,
    blobs: Seq<Seq<u8>>,
    image: Seq<char>,
    pilot: int,
)
    requires
        entries.len() == blobs.len(),
        forall|i: int| 0 <= i < entries.len() ==> is_capturable(#[trigger] entries[i], blobs[i], image),
        0 <= pilot < entries.len(),
        entries[pilot].name == "stacks/utility/compose.yml"@,
    ensures
        unpacked(entries, batch_output(blob_headers(entries, blobs), blobs), image) is Ok,
        (unpacked(
            entries,
            batch_output(blob_headers(entries, blobs), blobs),
            image,
        )->Ok_0).files.len() == entries.len(),
{
    let data = batch_output(blob_headers(entries, blobs), blobs);
    assert(data.take(data.len() as int) =~= data);
    lemma_printed_blobs_are_read(entries, blobs, data, image);
    let r = lemma_files_are_recorded(entries, data, image);
    lemma_pilot_is_held(entries, data, image, pilot);
}

/// A pilot file that was read is held: its repair is not of an empty text.
proof fn lemma_pilot_is_held(entries: Seq<EntryView>, data: Seq<u8>, image: Seq<char>, pilot: int)
    requires
        unpack_all(entries, data, image) is Ok,
        0 <= pilot < entries.len(),
        entries[pilot].name == "stacks/utility/compose.yml"@,
    ensures
        (unpack_all(entries, data, image)->Ok_0).original.len() > 0,
    decreases entries.len(),
{
    let before = unpack_all(entries.drop_last(), data, image)->Ok_0;
    let done = unpack_all(entries, data, image)->Ok_0;
    if entries.last().name == "stacks/utility/compose.yml"@ {
        if done.original.len() == 0 {
            let k = it_tools_image::repairs_are_the_only_accepted_rewriting(
                done.original,
                image,
                done.pilot,
            );
            assert(split::pieces(done.original).len() == 0);
        }
    } else {
        assert(pilot < entries.len() - 1);
        assert(entries.drop_last()[pilot] == entries[pilot]);
        lemma_pilot_is_held(entries.drop_last(), data, image, pilot);
    }
}

} // verus!
