use vstd::prelude::*;

verus! {

/// Description of one audio file, as handed to the display layer.
#[derive(Clone, Debug)]
pub struct AudioFile {
    pub path: String,
    /// The file name without its extension.
    pub name: String,
    pub size: u64,
    /// Always lower case.
    pub extension: String,
    /// Cover art in its text-safe form.
    pub cover: Option<String>,
    pub artist: Option<String>,
    pub album: Option<String>,
    pub lyrics: Option<String>,
}

/// Mathematical model of an [`AudioFile`].
pub struct AudioFileView {
    pub path: Seq<char>,
    pub name: Seq<char>,
    pub size: u64,
    pub extension: Seq<char>,
    pub cover: Option<Seq<char>>,
    pub artist: Option<Seq<char>>,
    pub album: Option<Seq<char>>,
    pub lyrics: Option<Seq<char>>,
}

pub open spec fn opt_text(o: Option<String>) -> Option<Seq<char>> {
    match o {
        Some(s) => Some(s@),
        None => None,
    }
}

impl View for AudioFile {
    type V = AudioFileView;

    open spec fn view(&self) -> AudioFileView {
        AudioFileView {
            path: self.path@,
            name: self.name@,
            size: self.size,
            extension: self.extension@,
            cover: opt_text(self.cover),
            artist: opt_text(self.artist),
            album: opt_text(self.album),
            lyrics: opt_text(self.lyrics),
        }
    }
}

/// The audio extensions that the browser lists.
pub open spec fn supported_extension(ext: Seq<char>) -> bool {
    ext == "mp3"@ || ext == "wav"@ || ext == "flac"@ || ext == "m4a"@ || ext == "ogg"@
        || ext == "aac"@
}

/// Character-wise equality of two strings.
pub fn same_text(a: &str, b: &str) -> (r: bool)
    ensures
        r == (a@ == b@),
{
    let n = a.unicode_len();
    if n != b.unicode_len() {
        return false;
    }
    let mut i: usize = 0;
    while i < n
        invariant
            n == a@.len(),
            n == b@.len(),
            i <= n,
            forall|j: int| 0 <= j < i ==> a@[j] == b@[j],
        decreases n - i,
    {
        if a.get_char(i) != b.get_char(i) {
            return false;
        }
        i = i + 1;
    }
    assert(a@ =~= b@);
    true
}

impl AudioFile {
    /// Whether `extension` (already lower case) is one of the listed audio formats.
    pub fn is_supported_format(extension: &str) -> (r: bool)
        ensures
            r == supported_extension(extension@),
    {
        same_text(extension, "mp3") || same_text(extension, "wav") || same_text(extension, "flac")
            || same_text(extension, "m4a") || same_text(extension, "ogg") || same_text(
            extension,
            "aac",
        )
    }
}

} // verus!
