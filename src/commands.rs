use crate::metadata::{extract_audio_metadata, id3_tag_of, summary_of, TagSummary};
use crate::models::{opt_text, supported_extension, AudioFile, AudioFileView};
use crate::paths::{extension_of, file_extension, file_name, lower_of, name_of, raw_extension};
use vstd::prelude::*;

verus! {

/// Why a request on a path was refused.
#[derive(Clone, Copy, Debug, PartialEq, Eq, Structural)]
pub enum PathError {
    DirectoryMissing,
    NotADirectory,
    FileMissing,
}

impl PathError {
    pub open spec fn message_spec(&self) -> Seq<char> {
        match self {
            PathError::DirectoryMissing => "Directory does not exist"@,
            PathError::NotADirectory => "Path is not a directory"@,
            PathError::FileMissing => "File does not exist"@,
        }
    }

    /// The message shown to the user.
    pub fn message(&self) -> (r: String)
        ensures
            r@ == self.message_spec(),
    {
        match self {
            PathError::DirectoryMissing => String::from_str("Directory does not exist"),
            PathError::NotADirectory => String::from_str("Path is not a directory"),
            PathError::FileMissing => String::from_str("File does not exist"),
        }
    }
}

/// The greeting for `name`.
pub fn greet(name: &str) -> (r: String)
    ensures
        r@ == "Hello, "@ + name@ + "! You've been greeted from Rust!"@,
{
    String::from_str("Hello, ").concat(name).concat("! You've been greeted from Rust!")
}

/// A path may be listed only if it exists and is a directory.
pub fn check_directory(exists: bool, is_dir: bool) -> (r: Result<(), PathError>)
    ensures
        !exists ==> r == Err::<(), PathError>(PathError::DirectoryMissing),
        exists && !is_dir ==> r == Err::<(), PathError>(PathError::NotADirectory),
        exists && is_dir ==> r is Ok,
{
    if !exists {
        Err(PathError::DirectoryMissing)
    } else if !is_dir {
        Err(PathError::NotADirectory)
    } else {
        Ok(())
    }
}

/// A file may be read only if it exists.
pub fn check_file(exists: bool) -> (r: Result<(), PathError>)
    ensures
        !exists ==> r == Err::<(), PathError>(PathError::FileMissing),
        exists ==> r is Ok,
{
    if !exists {
        Err(PathError::FileMissing)
    } else {
        Ok(())
    }
}

/// The description of the file at `path`, of `size` bytes, whose content is `data`.
pub open spec fn record_of(path: Seq<char>, size: u64, data: Seq<u8>) -> AudioFileView {
    let tags: TagSummary = summary_of(data, extension_of(path));
    AudioFileView {
        path: path,
        name: name_of(path),
        size: size,
        extension: extension_of(path),
        cover: tags.cover,
        artist: tags.artist,
        album: tags.album,
        lyrics: tags.lyrics,
    }
}

/// Describes the file at `path`: name and lower-case extension from the path,
/// cover, artist, album and lyrics from its content. Never fails: a tag that
/// cannot be read leaves those fields empty.
pub fn audio_record(path: String, size: u64, data: &[u8]) -> (r: AudioFile)
    ensures
        r@ == record_of(path@, size, data@),
{
    let name = file_name(path.as_str());
    let extension = file_extension(path.as_str());
    let (cover, artist, album, lyrics) = extract_audio_metadata(data, extension.as_str());
    AudioFile { path, name, size, extension, cover, artist, album, lyrics }
}

/// Whether the file at `path` has one of the listed audio extensions, in any case.
pub fn is_audio_path(path: &str) -> (r: bool)
    ensures
        r == supported_extension(extension_of(path@)),
{
    let extension = file_extension(path);
    AudioFile::is_supported_format(extension.as_str())
}

/// One entry of a directory, as the file system reported it. `size` is `None`
/// where the entry's size could not be read; `data` is the content of the file
/// (it matters only for files with an audio extension).
pub struct DirEntry {
    pub path: String,
    pub is_file: bool,
    pub size: Option<u64>,
    pub data: Vec<u8>,
}

pub struct DirEntryView {
    pub path: Seq<char>,
    pub is_file: bool,
    pub size: Option<u64>,
    pub data: Seq<u8>,
}

impl View for DirEntry {
    type V = DirEntryView;

    open spec fn view(&self) -> DirEntryView {
        DirEntryView { path: self.path@, is_file: self.is_file, size: self.size, data: self.data@ }
    }
}

/// Whether a directory entry is listed: a file with an audio extension whose
/// size could be read.
pub open spec fn is_listed(e: DirEntryView) -> bool {
    e.is_file && supported_extension(extension_of(e.path)) && e.size is Some
}

/// The record of a listed entry.
pub open spec fn entry_record(e: DirEntryView) -> AudioFileView {
    record_of(e.path, e.size->0, e.data)
}

/// The listing of a directory: the records of its listed entries, in their order.
pub open spec fn listing(entries: Seq<DirEntryView>) -> Seq<AudioFileView>
    decreases entries.len(),
{
    if entries.len() == 0 {
        Seq::empty()
    } else {
        let rest = listing(entries.drop_last());
        if is_listed(entries.last()) {
            rest.push(entry_record(entries.last()))
        } else {
            rest
        }
    }
}

pub open spec fn entries_view(entries: Seq<DirEntry>) -> Seq<DirEntryView> {
    entries.map_values(|e: DirEntry| e@)
}

pub open spec fn records_view(records: Seq<AudioFile>) -> Seq<AudioFileView> {
    records.map_values(|r: AudioFile| r@)
}

/// The record of the file at `path` if it has an audio extension and its size
/// could be read, `None` otherwise.
pub fn process_audio_file(path: String, size: Option<u64>, data: &[u8]) -> (r: Option<AudioFile>)
    ensures
        r is Some <==> (supported_extension(extension_of(path@)) && size is Some),
        r is Some ==> r->0@ == record_of(path@, size->0, data@),
{
    if !is_audio_path(path.as_str()) {
        return None;
    }
    match size {
        Some(n) => Some(audio_record(path, n, data)),
        None => None,
    }
}

/// The audio files among the entries of a directory, in the entries' order:
/// every file with an audio extension, and nothing else.
pub fn collect_audio_files(entries: &Vec<DirEntry>) -> (r: Vec<AudioFile>)
    ensures
        records_view(r@) == listing(entries_view(entries@)),
{
    let ghost ev = entries_view(entries@);
    let mut out: Vec<AudioFile> = Vec::new();
    let mut i: usize = 0;
    while i < entries.len()
        invariant
            ev == entries_view(entries@),
            i <= entries@.len(),
            records_view(out@) == listing(ev.subrange(0, i as int)),
        decreases entries@.len() - i,
    {
        let e = &entries[i];
        let ghost pre = ev.subrange(0, i as int);
        let ghost cur = ev.subrange(0, i + 1);
        assert(cur.drop_last() =~= pre);
        assert(cur.last() == e@);
        if e.is_file {
            match process_audio_file(e.path.clone(), e.size, e.data.as_slice()) {
                Some(record) => {
                    out.push(record);
                    assert(records_view(out@) =~= listing(pre).push(entry_record(e@)));
                },
                None => {},
            }
        }
        i = i + 1;
    }
    assert(ev.subrange(0, ev.len() as int) =~= ev);
    out
}

/// Whether a text holds no ASCII capital letter.
pub open spec fn has_no_ascii_uppercase(s: Seq<char>) -> bool {
    forall|i: int| 0 <= i < s.len() ==> !(65 <= (#[trigger] s[i] as u32) && (s[i] as u32) <= 90)
}

/// The listed audio extensions hold no capital letter.
pub proof fn lemma_supported_is_lowercase(ext: Seq<char>)
    requires
        supported_extension(ext),
    ensures
        has_no_ascii_uppercase(ext),
{
    reveal_strlit("mp3");
    reveal_strlit("wav");
    reveal_strlit("flac");
    reveal_strlit("m4a");
    reveal_strlit("ogg");
    reveal_strlit("aac");
}

/// A directory's listing holds exactly the files among its entries whose
/// lower-case extension is a listed audio extension (and whose size could be
/// read): each record is the record of such an entry, each such entry has its
/// record in the listing, and no record has another extension.
pub proof fn lemma_listing_exact(entries: Seq<DirEntryView>)
    ensures
        forall|k: int|
            0 <= k < listing(entries).len() ==> exists|i: int|
                0 <= i < entries.len() && is_listed(entries[i]) && #[trigger] listing(entries)[k]
                    == entry_record(entries[i]),
        forall|i: int|
            0 <= i < entries.len() && is_listed(#[trigger] entries[i]) ==> exists|k: int|
                0 <= k < listing(entries).len() && listing(entries)[k] == entry_record(entries[i]),
        forall|k: int|
            0 <= k < listing(entries).len() ==> supported_extension(
                (#[trigger] listing(entries)[k]).extension,
            ),
    decreases entries.len(),
{
    if entries.len() > 0 {
        let front = entries.drop_last();
        lemma_listing_exact(front);
        let rest = listing(front);
        let l = listing(entries);
        let n = entries.len() - 1;
        assert forall|k: int| 0 <= k < l.len() implies exists|i: int|
            0 <= i < entries.len() && is_listed(entries[i]) && #[trigger] l[k] == entry_record(
                entries[i],
            ) by {
            if k < rest.len() {
                assert(l[k] == rest[k]);
                let i = choose|i: int|
                    0 <= i < front.len() && is_listed(front[i]) && rest[k] == entry_record(
                        front[i],
                    );
                assert(entries[i] == front[i]);
            } else {
                assert(entries[n] == entries.last());
            }
        }
        assert forall|i: int| 0 <= i < entries.len() && is_listed(#[trigger] entries[i]) implies exists|k: int|
            0 <= k < l.len() && l[k] == entry_record(entries[i]) by {
            if i < n {
                assert(front[i] == entries[i]);
                let k = choose|k: int| 0 <= k < rest.len() && rest[k] == entry_record(front[i]);
                assert(l[k] == rest[k]);
            } else {
                assert(l[rest.len() as int] == entry_record(entries.last()));
            }
        }
        assert forall|k: int| 0 <= k < l.len() implies supported_extension(
            (#[trigger] l[k]).extension,
        ) by {
            if k < rest.len() {
                assert(l[k] == rest[k]);
            }
        }
    }
}

/// Every record of a directory's listing has a lower-case extension: the
/// Unicode lower-case form of the extension in its path, with no capital letter.
pub proof fn lemma_listed_extension_lowercase(entries: Seq<DirEntryView>)
    ensures
        forall|k: int|
            0 <= k < listing(entries).len() ==> has_no_ascii_uppercase(
                (#[trigger] listing(entries)[k]).extension,
            ) && listing(entries)[k].extension == lower_of(raw_extension(listing(entries)[k].path)),
{
    lemma_listing_exact(entries);
    let l = listing(entries);
    assert forall|k: int| 0 <= k < l.len() implies has_no_ascii_uppercase((#[trigger] l[k]).extension)
        && l[k].extension == lower_of(raw_extension(l[k].path)) by {
        lemma_supported_is_lowercase(l[k].extension);
        let i = choose|i: int| 0 <= i < entries.len() && is_listed(entries[i]) && l[k] == entry_record(entries[i]);
    }
}

/// Entries with pairwise distinct paths, as those of one directory are.
pub open spec fn distinct_paths(entries: Seq<DirEntryView>) -> bool {
    forall|i: int, j: int|
        0 <= i < entries.len() && 0 <= j < entries.len() && i != j ==> #[trigger] entries[i].path
            != #[trigger] entries[j].path
}

/// Each file of a directory has at most one record in its listing: no two
/// records share a path.
pub proof fn lemma_listing_one_per_file(entries: Seq<DirEntryView>)
    requires
        distinct_paths(entries),
    ensures
        forall|a: int, b: int|
            0 <= a < listing(entries).len() && 0 <= b < listing(entries).len() && a != b
                ==> #[trigger] listing(entries)[a].path != #[trigger] listing(entries)[b].path,
    decreases entries.len(),
{
    if entries.len() > 0 {
        let front = entries.drop_last();
        let n = entries.len() - 1;
        assert forall|i: int, j: int|
            0 <= i < front.len() && 0 <= j < front.len() && i != j implies #[trigger] front[i].path
            != #[trigger] front[j].path by {
            assert(front[i] == entries[i] && front[j] == entries[j]);
        }
        lemma_listing_one_per_file(front);
        lemma_listing_exact(front);
        let l = listing(entries);
        let rest = listing(front);
        assert forall|a: int, b: int|
            0 <= a < l.len() && 0 <= b < l.len() && a != b implies #[trigger] l[a].path
            != #[trigger] l[b].path by {
            if a < rest.len() && b < rest.len() {
                assert(l[a] == rest[a] && l[b] == rest[b]);
            } else if a < rest.len() {
                let i = choose|i: int|
                    0 <= i < front.len() && is_listed(front[i]) && #[trigger] rest[a]
                        == entry_record(front[i]);
                assert(l[a] == rest[a]);
                assert(front[i] == entries[i]);
                assert(entries[n] == entries.last());
                assert(entries[i].path != entries[n].path);
            } else if b < rest.len() {
                let i = choose|i: int|
                    0 <= i < front.len() && is_listed(front[i]) && #[trigger] rest[b]
                        == entry_record(front[i]);
                assert(l[b] == rest[b]);
                assert(front[i] == entries[i]);
                assert(entries[n] == entries.last());
                assert(entries[i].path != entries[n].path);
            }
        }
    }
}

/// An MP3 file of a directory appears in its listing whether or not its tag can
/// be parsed, once where the entries' paths are distinct; where the tag cannot
/// be parsed, its cover, artist, album and lyrics are empty.
pub proof fn lemma_unparsable_mp3_listed(entries: Seq<DirEntryView>, i: int)
    requires
        0 <= i < entries.len(),
        entries[i].is_file,
        entries[i].size is Some,
        extension_of(entries[i].path) == "mp3"@,
    ensures
        exists|k: int| 0 <= k < listing(entries).len() && listing(entries)[k] == entry_record(entries[i]),
        distinct_paths(entries) ==> forall|k1: int, k2: int|
            0 <= k1 < listing(entries).len() && 0 <= k2 < listing(entries).len()
                && #[trigger] listing(entries)[k1].path == entries[i].path
                && #[trigger] listing(entries)[k2].path == entries[i].path ==> k1 == k2,
        id3_tag_of(entries[i].data) is None ==> ({
            let r = entry_record(entries[i]);
            r.cover is None && r.artist is None && r.album is None && r.lyrics is None
        }),
{
    let l = listing(entries);
    assert(exists|k: int| 0 <= k < l.len() && l[k] == entry_record(entries[i])) by {
        lemma_listing_exact(entries);
        assert(is_listed(entries[i]));
    }
    assert(distinct_paths(entries) ==> forall|k1: int, k2: int|
        0 <= k1 < l.len() && 0 <= k2 < l.len() && #[trigger] l[k1].path == entries[i].path
            && #[trigger] l[k2].path == entries[i].path ==> k1 == k2) by {
        if distinct_paths(entries) {
            lemma_listing_one_per_file(entries);
        }
    }
}

} // verus!
