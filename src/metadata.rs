use crate::blob::{base64_of, encode_picture, is_base64_text};
use crate::flac_layout::{flac_layout_ok, flac_layout_sound};
use crate::models::opt_text;
use id3::TagLike;
use vstd::prelude::*;

verus! {

/// A user-defined text frame of an ID3 tag.
pub struct ExtendedText {
    pub description: String,
    pub value: String,
}

pub struct ExtendedTextView {
    pub description: Seq<char>,
    pub value: Seq<char>,
}

/// What the metadata reader takes from an ID3 tag.
pub struct Id3Frames {
    pub artist: Option<String>,
    pub album: Option<String>,
    /// The data of each attached picture, in tag order.
    pub pictures: Vec<Vec<u8>>,
    pub extended_texts: Vec<ExtendedText>,
}

pub struct Id3FramesView {
    pub artist: Option<Seq<char>>,
    pub album: Option<Seq<char>>,
    pub pictures: Seq<Seq<u8>>,
    pub extended_texts: Seq<ExtendedTextView>,
}

/// The values of the Vorbis comment keys that the metadata reader uses.
pub struct VorbisFields {
    pub artist: Option<Vec<String>>,
    pub album: Option<Vec<String>>,
    pub lyrics: Option<Vec<String>>,
}

pub struct VorbisFieldsView {
    pub artist: Option<Seq<Seq<char>>>,
    pub album: Option<Seq<Seq<char>>>,
    pub lyrics: Option<Seq<Seq<char>>>,
}

/// What the metadata reader takes from the metadata blocks of a FLAC stream.
pub struct FlacBlocks {
    /// The first Vorbis comment block, if any.
    pub vorbis: Option<VorbisFields>,
    /// The data of each picture block, in stream order.
    pub pictures: Vec<Vec<u8>>,
}

pub struct FlacBlocksView {
    pub vorbis: Option<VorbisFieldsView>,
    pub pictures: Seq<Seq<u8>>,
}

/// Model of the optional cover, artist, album and lyrics of a file.
pub struct TagSummary {
    pub cover: Option<Seq<char>>,
    pub artist: Option<Seq<char>>,
    pub album: Option<Seq<char>>,
    pub lyrics: Option<Seq<char>>,
}

/// Cover (text-safe), artist, album and lyrics, in that order.
pub type TagFields = (Option<String>, Option<String>, Option<String>, Option<String>);

pub open spec fn fields_view(f: TagFields) -> TagSummary {
    TagSummary { cover: opt_text(f.0), artist: opt_text(f.1), album: opt_text(f.2), lyrics: opt_text(f.3) }
}

pub open spec fn no_tags() -> TagSummary {
    TagSummary { cover: None, artist: None, album: None, lyrics: None }
}

pub open spec fn texts_view(v: Vec<String>) -> Seq<Seq<char>> {
    v@.map_values(|s: String| s@)
}

pub open spec fn opt_texts_view(o: Option<Vec<String>>) -> Option<Seq<Seq<char>>> {
    match o {
        Some(v) => Some(texts_view(v)),
        None => None,
    }
}

pub open spec fn pictures_view(v: Vec<Vec<u8>>) -> Seq<Seq<u8>> {
    v@.map_values(|p: Vec<u8>| p@)
}

impl View for ExtendedText {
    type V = ExtendedTextView;

    open spec fn view(&self) -> ExtendedTextView {
        ExtendedTextView { description: self.description@, value: self.value@ }
    }
}

impl View for Id3Frames {
    type V = Id3FramesView;

    open spec fn view(&self) -> Id3FramesView {
        Id3FramesView {
            artist: opt_text(self.artist),
            album: opt_text(self.album),
            pictures: pictures_view(self.pictures),
            extended_texts: self.extended_texts@.map_values(|t: ExtendedText| t@),
        }
    }
}

impl View for VorbisFields {
    type V = VorbisFieldsView;

    open spec fn view(&self) -> VorbisFieldsView {
        VorbisFieldsView {
            artist: opt_texts_view(self.artist),
            album: opt_texts_view(self.album),
            lyrics: opt_texts_view(self.lyrics),
        }
    }
}

impl View for FlacBlocks {
    type V = FlacBlocksView;

    open spec fn view(&self) -> FlacBlocksView {
        FlacBlocksView {
            vorbis: match self.vorbis {
                Some(v) => Some(v@),
                None => None,
            },
            pictures: pictures_view(self.pictures),
        }
    }
}

pub open spec fn opt_id3_view(o: Option<Id3Frames>) -> Option<Id3FramesView> {
    match o {
        Some(t) => Some(t@),
        None => None,
    }
}

pub open spec fn opt_flac_view(o: Option<FlacBlocks>) -> Option<FlacBlocksView> {
    match o {
        Some(t) => Some(t@),
        None => None,
    }
}

/// The ID3 tag found in the bytes of a file, if one can be parsed.
pub uninterp spec fn id3_tag_of(data: Seq<u8>) -> Option<Id3FramesView>;

/// The FLAC metadata blocks found in the bytes of a file, if they can be parsed.
pub uninterp spec fn flac_tag_of(data: Seq<u8>) -> Option<FlacBlocksView>;

/// Relies on `id3::Tag::read_from2` to parse the tag out of a file's bytes, and
/// on the tag's `artist`, `album`, `pictures` and `extended_texts` accessors.
#[verifier::external_body]
fn read_id3(data: &[u8]) -> (r: Option<Id3Frames>)
    ensures
        opt_id3_view(r) == id3_tag_of(data@),
{
    let tag = id3::Tag::read_from2(std::io::Cursor::new(data)).ok()?;
    Some(Id3Frames {
        artist: tag.artist().map(|a| a.to_string()),
        album: tag.album().map(|a| a.to_string()),
        pictures: tag.pictures().map(|p| p.data.clone()).collect(),
        extended_texts: tag.extended_texts().map(
            |t| ExtendedText { description: t.description.clone(), value: t.value.clone() },
        ).collect(),
    })
}

/// Relies on `metaflac::Tag::read_from` to parse the metadata blocks out of a
/// file's bytes, on `vorbis_comments` with its `artist`, `album` and `lyrics`
/// keys, and on `pictures`. The reader slices each block's fields by the lengths
/// written in the data without checking them, so it is called only on data whose
/// blocks hold those fields; other failures come back as errors.
#[verifier::external_body]
fn read_flac(data: &[u8]) -> (r: Option<FlacBlocks>)
    requires
        flac_layout_sound(data@),
    ensures
        opt_flac_view(r) == flac_tag_of(data@),
{
    let tag = metaflac::Tag::read_from(&mut std::io::Cursor::new(data)).ok()?;
    Some(FlacBlocks {
        vorbis: tag.vorbis_comments().map(
            |v| VorbisFields { artist: v.artist().cloned(), album: v.album().cloned(), lyrics: v.lyrics().cloned() },
        ),
        pictures: tag.pictures().map(|p| p.data.clone()).collect(),
    })
}

/// Code point of `c` after ASCII lower-casing; other characters keep theirs.
pub open spec fn folded_code(c: char) -> u32 {
    if 65 <= (c as u32) && (c as u32) <= 90 {
        ((c as u32) + 32) as u32
    } else {
        c as u32
    }
}

/// Equality up to ASCII case, as `str::eq_ignore_ascii_case` decides it.
pub open spec fn equal_ignoring_ascii_case(a: Seq<char>, b: Seq<char>) -> bool {
    a.len() == b.len() && forall|i: int| 0 <= i < a.len() ==> folded_code(a[i]) == folded_code(b[i])
}

/// Whether an ID3 user text frame with this description holds lyrics.
pub open spec fn is_lyrics_description(d: Seq<char>) -> bool {
    equal_ignoring_ascii_case(d, "lyrics"@) || equal_ignoring_ascii_case(d, "unsyncedlyrics"@)
}

/// The value of the first frame, from index `i` on, whose description names lyrics.
pub open spec fn lyrics_from(texts: Seq<ExtendedTextView>, i: int) -> Option<Seq<char>>
    decreases texts.len() - i,
{
    if i < 0 || i >= texts.len() {
        None
    } else if is_lyrics_description(texts[i].description) {
        Some(texts[i].value)
    } else {
        lyrics_from(texts, i + 1)
    }
}

/// The text-safe form of the first picture, if there is one.
pub open spec fn cover_of(pictures: Seq<Seq<u8>>) -> Option<Seq<char>> {
    if pictures.len() > 0 {
        Some(base64_of(pictures[0]))
    } else {
        None
    }
}

/// The first of a key's values, if the key has any.
pub open spec fn first_value(values: Option<Seq<Seq<char>>>) -> Option<Seq<char>> {
    match values {
        Some(vs) => if vs.len() > 0 {
            Some(vs[0])
        } else {
            None
        },
        None => None,
    }
}

/// What an MP3 file's tag contributes to its description.
pub open spec fn mp3_summary(tag: Option<Id3FramesView>) -> TagSummary {
    match tag {
        Some(t) => TagSummary {
            cover: cover_of(t.pictures),
            artist: t.artist,
            album: t.album,
            lyrics: lyrics_from(t.extended_texts, 0),
        },
        None => no_tags(),
    }
}

/// What a FLAC file's metadata blocks contribute to its description.
pub open spec fn flac_summary(tag: Option<FlacBlocksView>) -> TagSummary {
    match tag {
        Some(t) => match t.vorbis {
            Some(v) => TagSummary {
                cover: cover_of(t.pictures),
                artist: first_value(v.artist),
                album: first_value(v.album),
                lyrics: first_value(v.lyrics),
            },
            None => TagSummary { cover: cover_of(t.pictures), artist: None, album: None, lyrics: None },
        },
        None => no_tags(),
    }
}

/// What the metadata reader finds in a file's bytes, given its lower-case extension.
pub open spec fn summary_of(data: Seq<u8>, extension: Seq<char>) -> TagSummary {
    if extension == "mp3"@ {
        mp3_summary(id3_tag_of(data))
    } else if extension == "flac"@ {
        if flac_layout_sound(data) {
            flac_summary(flac_tag_of(data))
        } else {
            no_tags()
        }
    } else {
        no_tags()
    }
}

/// Equality up to ASCII case.
pub fn eq_ignore_ascii_case(a: &str, b: &str) -> (r: bool)
    ensures
        r == equal_ignoring_ascii_case(a@, b@),
{
    let n = a.unicode_len();
    if n != b.unicode_len() {
        return false;
    }
    let mut i: usize = 0;
    while i < n
        invariant
            n == a@.len(),
            n == b@.len(),
            i <= n,
            forall|j: int| 0 <= j < i ==> folded_code(a@[j]) == folded_code(b@[j]),
        decreases n - i,
    {
        let x = a.get_char(i) as u32;
        let y = b.get_char(i) as u32;
        let fx: u32 = if 65 <= x && x <= 90 { x + 32 } else { x };
        let fy: u32 = if 65 <= y && y <= 90 { y + 32 } else { y };
        if fx != fy {
            return false;
        }
        i = i + 1;
    }
    true
}

/// The value of the first user text frame whose description is `lyrics` or
/// `unsyncedlyrics`, in any ASCII case.
pub fn find_lyrics(texts: &Vec<ExtendedText>) -> (r: Option<String>)
    ensures
        opt_text(r) == lyrics_from(texts@.map_values(|t: ExtendedText| t@), 0),
{
    let ghost tv = texts@.map_values(|t: ExtendedText| t@);
    let mut i: usize = 0;
    while i < texts.len()
        invariant
            tv == texts@.map_values(|t: ExtendedText| t@),
            i <= texts@.len(),
            lyrics_from(tv, 0) == lyrics_from(tv, i as int),
        decreases texts@.len() - i,
    {
        let t = &texts[i];
        assert(tv[i as int] == t@);
        if eq_ignore_ascii_case(t.description.as_str(), "lyrics")
            || eq_ignore_ascii_case(t.description.as_str(), "unsyncedlyrics")
        {
            return Some(t.value.clone());
        }
        i = i + 1;
    }
    None
}

/// The text-safe form of the first picture, if there is one.
pub fn first_cover(pictures: &Vec<Vec<u8>>) -> (r: Option<String>)
    ensures
        opt_text(r) == cover_of(pictures_view(*pictures)),
        r is Some ==> is_base64_text(r->0@),
{
    if pictures.len() > 0 {
        let ghost pv = pictures_view(*pictures);
        assert(pv[0] == pictures[0]@);
        match encode_picture(pictures[0].as_slice()) {
            Ok(e) => Some(e),
            Err(_) => None,
        }
    } else {
        None
    }
}

/// The first of a key's values, if the key has any.
pub fn first_of(values: &Option<Vec<String>>) -> (r: Option<String>)
    ensures
        opt_text(r) == first_value(opt_texts_view(*values)),
{
    match values {
        Some(vs) => if vs.len() > 0 {
            assert(texts_view(*vs)[0] == vs[0]@);
            Some(vs[0].clone())
        } else {
            None
        },
        None => None,
    }
}

/// Cover, artist, album and lyrics from a parsed ID3 tag; all empty where
/// no tag could be parsed.
pub fn mp3_metadata(tag: Option<Id3Frames>) -> (r: TagFields)
    ensures
        fields_view(r) == mp3_summary(opt_id3_view(tag)),
        r.0 is Some ==> is_base64_text(r.0->0@),
{
    match tag {
        Some(t) => {
            let cover = first_cover(&t.pictures);
            let lyrics = find_lyrics(&t.extended_texts);
            (cover, t.artist, t.album, lyrics)
        },
        None => (None, None, None, None),
    }
}

/// Cover, artist, album and lyrics from parsed FLAC metadata blocks (the first
/// value of each Vorbis comment key); all empty where nothing could be parsed.
pub fn flac_metadata(tag: Option<FlacBlocks>) -> (r: TagFields)
    ensures
        fields_view(r) == flac_summary(opt_flac_view(tag)),
        r.0 is Some ==> is_base64_text(r.0->0@),
{
    match tag {
        Some(t) => {
            let cover = first_cover(&t.pictures);
            match t.vorbis {
                Some(v) => (cover, first_of(&v.artist), first_of(&v.album), first_of(&v.lyrics)),
                None => (cover, None, None, None),
            }
        },
        None => (None, None, None, None),
    }
}

/// Cover, artist, album and lyrics of a file, from its bytes and its lower-case
/// extension. Only `mp3` and `flac` files carry any; a tag that cannot be
/// parsed (for FLAC, also one whose blocks are too short for their fields)
/// leaves every field empty, and nothing here fails.
pub fn extract_audio_metadata(data: &[u8], extension: &str) -> (r: TagFields)
    ensures
        fields_view(r) == summary_of(data@, extension@),
        r.0 is Some ==> is_base64_text(r.0->0@),
{
    if crate::models::same_text(extension, "mp3") {
        mp3_metadata(read_id3(data))
    } else if crate::models::same_text(extension, "flac") {
        if flac_layout_ok(data) {
            flac_metadata(read_flac(data))
        } else {
            (None, None, None, None)
        }
    } else {
        (None, None, None, None)
    }
}

} // verus!
