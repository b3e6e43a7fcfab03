use audio_shelf::blob::{decode_blob, encode_blob, encode_picture};
use audio_shelf::flac_layout::flac_layout_ok;
use audio_shelf::commands::{
    audio_record, check_directory, check_file, collect_audio_files, greet, is_audio_path,
    process_audio_file, DirEntry, PathError,
};
use audio_shelf::metadata::{
    eq_ignore_ascii_case, extract_audio_metadata, find_lyrics, flac_metadata, mp3_metadata,
    ExtendedText, FlacBlocks, Id3Frames, VorbisFields,
};
use audio_shelf::models::AudioFile;
use audio_shelf::paths::{file_extension, file_name};
use id3::TagLike;

fn mp3_bytes(artist: &str, album: &str, picture: Option<Vec<u8>>, lyrics: Option<&str>) -> Vec<u8> {
    let mut tag = id3::Tag::new();
    tag.set_artist(artist);
    tag.set_album(album);
    if let Some(data) = picture {
        tag.add_frame(id3::frame::Picture {
            mime_type: "image/png".to_string(),
            picture_type: id3::frame::PictureType::CoverFront,
            description: String::new(),
            data,
        });
    }
    if let Some(text) = lyrics {
        tag.add_frame(id3::frame::ExtendedText {
            description: "UnsyncedLyrics".to_string(),
            value: text.to_string(),
        });
    }
    let mut out: Vec<u8> = Vec::new();
    tag.write_to(&mut out, id3::Version::Id3v24).unwrap();
    out.extend_from_slice(&[0xFF, 0xFB, 0x90, 0x00]);
    out
}

fn flac_bytes(artist: &str, picture: Option<Vec<u8>>) -> Vec<u8> {
    let mut tag = metaflac::Tag::new();
    tag.vorbis_comments_mut().set_artist(vec![artist]);
    tag.vorbis_comments_mut().set_lyrics(vec!["la la", "second"]);
    if let Some(data) = picture {
        tag.add_picture("image/jpeg", metaflac::block::PictureType::CoverFront, data);
    }
    let mut out: Vec<u8> = Vec::new();
    tag.write_to(&mut out).unwrap();
    out
}

fn entry(path: &str, is_file: bool, size: Option<u64>, data: Vec<u8>) -> DirEntry {
    DirEntry { path: path.to_string(), is_file, size, data }
}

#[test]
fn supported_formats() {
    for ext in ["mp3", "wav", "flac", "m4a", "ogg", "aac"] {
        assert!(AudioFile::is_supported_format(ext));
    }
    for ext in ["", "txt", "MP3", "mp4", "fla", "flacc"] {
        assert!(!AudioFile::is_supported_format(ext));
    }
}

#[test]
fn extension_is_lowercased() {
    assert_eq!(file_extension("/music/Song.MP3"), "mp3");
    assert_eq!(file_extension("/music/Song.FlAc"), "flac");
    assert_eq!(file_extension("/music/README"), "");
    assert_eq!(file_name("/music/Song.MP3"), "Song");
    assert!(is_audio_path("/music/Track.OGG"));
    assert!(!is_audio_path("/music/cover.jpg"));
    assert!(!is_audio_path("/music/.mp3"));
}

#[test]
fn blob_round_trip() {
    let samples: Vec<Vec<u8>> = vec![vec![], vec![0], vec![1, 2], vec![0xFF, 0x00, 0x7F], (0..=255).collect()];
    for bytes in samples {
        let text = encode_blob(&bytes);
        assert_eq!(text.len(), 4 * ((bytes.len() + 2) / 3));
        assert_eq!(decode_blob(&text), Some(bytes));
    }
    assert_eq!(encode_blob(b"Man"), "TWFu");
    assert_eq!(encode_blob(b"Ma"), "TWE=");
    assert_eq!(encode_blob(b""), "");
    assert_eq!(decode_blob("not base64!"), None);
    assert_eq!(encode_picture(&[0xFF, 0xD8]), Ok("/9g=".to_string()));
}

#[test]
fn mp3_with_artist_album_and_picture() {
    let data = mp3_bytes("A", "B", Some(vec![0x89, 0x50, 0x4E, 0x47]), None);
    let (cover, artist, album, lyrics) = extract_audio_metadata(&data, "mp3");
    assert_eq!(artist.as_deref(), Some("A"));
    assert_eq!(album.as_deref(), Some("B"));
    assert_eq!(cover.as_deref(), Some("iVBORw=="));
    assert_eq!(lyrics, None);
}

#[test]
fn mp3_lyrics_from_user_text_frame() {
    let data = mp3_bytes("A", "B", None, Some("words"));
    let (cover, _, _, lyrics) = extract_audio_metadata(&data, "mp3");
    assert_eq!(cover, None);
    assert_eq!(lyrics.as_deref(), Some("words"));
}

#[test]
fn flac_with_artist_and_no_picture() {
    let data = flac_bytes("X", None);
    let (cover, artist, album, lyrics) = extract_audio_metadata(&data, "flac");
    assert_eq!(artist.as_deref(), Some("X"));
    assert_eq!(cover, None);
    assert_eq!(album, None);
    assert_eq!(lyrics.as_deref(), Some("la la"));
}

#[test]
fn flac_with_picture() {
    let data = flac_bytes("X", Some(vec![1, 2, 3]));
    let (cover, artist, _, _) = extract_audio_metadata(&data, "flac");
    assert_eq!(artist.as_deref(), Some("X"));
    assert_eq!(cover.as_deref(), Some("AQID"));
}

#[test]
fn other_formats_have_no_tags() {
    let data = mp3_bytes("A", "B", None, None);
    assert_eq!(extract_audio_metadata(&data, "wav"), (None, None, None, None));
    assert_eq!(extract_audio_metadata(&data, "MP3"), (None, None, None, None));
}

#[test]
fn corrupt_tags_leave_fields_empty() {
    let junk = vec![0x49, 0x44, 0x33, 0xFF, 0xFF, 0x01, 0x02];
    assert_eq!(extract_audio_metadata(&junk, "mp3"), (None, None, None, None));
    assert_eq!(extract_audio_metadata(&junk, "flac"), (None, None, None, None));
    assert_eq!(extract_audio_metadata(&[], "mp3"), (None, None, None, None));
}

#[test]
fn mp3_metadata_from_parsed_frames() {
    let frames = Id3Frames {
        artist: Some("A".to_string()),
        album: None,
        pictures: vec![vec![1, 2, 3], vec![9]],
        extended_texts: vec![
            ExtendedText { description: "comment".to_string(), value: "no".to_string() },
            ExtendedText { description: "LYRICS".to_string(), value: "first".to_string() },
            ExtendedText { description: "lyrics".to_string(), value: "second".to_string() },
        ],
    };
    let (cover, artist, album, lyrics) = mp3_metadata(Some(frames));
    assert_eq!(cover.as_deref(), Some("AQID"));
    assert_eq!(artist.as_deref(), Some("A"));
    assert_eq!(album, None);
    assert_eq!(lyrics.as_deref(), Some("first"));
    assert_eq!(mp3_metadata(None), (None, None, None, None));
}

#[test]
fn flac_metadata_takes_first_values() {
    let blocks = FlacBlocks {
        vorbis: Some(VorbisFields {
            artist: Some(vec!["X".to_string(), "Y".to_string()]),
            album: Some(vec![]),
            lyrics: None,
        }),
        pictures: vec![],
    };
    assert_eq!(flac_metadata(Some(blocks)), (None, Some("X".to_string()), None, None));
    let no_comments = FlacBlocks { vorbis: None, pictures: vec![vec![0]] };
    assert_eq!(flac_metadata(Some(no_comments)), (Some("AA==".to_string()), None, None, None));
    assert_eq!(flac_metadata(None), (None, None, None, None));
}

#[test]
fn lyrics_descriptions_ignore_ascii_case() {
    assert!(eq_ignore_ascii_case("UnSyncedLyrics", "unsyncedlyrics"));
    assert!(!eq_ignore_ascii_case("lyric", "lyrics"));
    assert!(!eq_ignore_ascii_case("lyrics ", "lyrics"));
    let texts = vec![ExtendedText { description: "Lyrics2".to_string(), value: "x".to_string() }];
    assert_eq!(find_lyrics(&texts), None);
    assert_eq!(find_lyrics(&vec![]), None);
}

#[test]
fn listing_keeps_only_audio_files() {
    let entries = vec![
        entry("/d/one.MP3", true, Some(10), mp3_bytes("A", "B", None, None)),
        entry("/d/notes.txt", true, Some(3), vec![1, 2, 3]),
        entry("/d/sub.flac", false, None, vec![]),
        entry("/d/two.wav", true, Some(7), vec![]),
        entry("/d/gone.ogg", true, None, vec![]),
        entry("/d/noext", true, Some(1), vec![]),
    ];
    let list = collect_audio_files(&entries);
    assert_eq!(list.len(), 2);
    assert_eq!(list[0].path, "/d/one.MP3");
    assert_eq!(list[0].name, "one");
    assert_eq!(list[0].extension, "mp3");
    assert_eq!(list[0].size, 10);
    assert_eq!(list[0].artist.as_deref(), Some("A"));
    assert_eq!(list[1].path, "/d/two.wav");
    assert_eq!(list[1].extension, "wav");
    assert_eq!(list[1].artist, None);
    assert!(collect_audio_files(&vec![]).is_empty());
}

#[test]
fn corrupt_mp3_still_listed() {
    let entries = vec![entry("/d/broken.mp3", true, Some(5), vec![0x49, 0x44, 0x33, 0xFF, 0x00])];
    let list = collect_audio_files(&entries);
    assert_eq!(list.len(), 1);
    assert_eq!(list[0].name, "broken");
    assert_eq!(list[0].cover, None);
    assert_eq!(list[0].artist, None);
    assert_eq!(list[0].album, None);
    assert_eq!(list[0].lyrics, None);
}

#[test]
fn missing_paths_are_refused() {
    assert_eq!(check_directory(false, false), Err(PathError::DirectoryMissing));
    assert_eq!(check_directory(true, false), Err(PathError::NotADirectory));
    assert_eq!(check_directory(true, true), Ok(()));
    assert_eq!(check_file(false), Err(PathError::FileMissing));
    assert_eq!(check_file(true), Ok(()));
    assert_eq!(PathError::DirectoryMissing.message(), "Directory does not exist");
    assert_eq!(PathError::NotADirectory.message(), "Path is not a directory");
    assert_eq!(PathError::FileMissing.message(), "File does not exist");
}

#[test]
fn single_file_record() {
    let r = audio_record("/m/Song.Mp3".to_string(), 42, &mp3_bytes("A", "B", None, None));
    assert_eq!(r.name, "Song");
    assert_eq!(r.extension, "mp3");
    assert_eq!(r.size, 42);
    assert_eq!(r.album.as_deref(), Some("B"));
    let other = audio_record("/m/readme.TXT".to_string(), 1, &[]);
    assert_eq!(other.extension, "txt");
    assert_eq!(other.cover, None);
    assert!(process_audio_file("/m/readme.txt".to_string(), Some(1), &[]).is_none());
    assert!(process_audio_file("/m/a.aac".to_string(), None, &[]).is_none());
    assert_eq!(process_audio_file("/m/a.aac".to_string(), Some(2), &[]).unwrap().extension, "aac");
}

#[test]
fn greeting() {
    assert_eq!(greet("Ann"), "Hello, Ann! You've been greeted from Rust!");
}

fn flac_with_block(header: u8, content: &[u8]) -> Vec<u8> {
    let mut out = b"fLaC".to_vec();
    let n = content.len();
    out.extend_from_slice(&[header, (n >> 16) as u8, (n >> 8) as u8, n as u8]);
    out.extend_from_slice(content);
    out
}

#[test]
fn malformed_flac_blocks_give_no_tags() {
    // A last STREAMINFO block of length 0.
    let empty_streaminfo = vec![0x66, 0x4C, 0x61, 0x43, 0x80, 0x00, 0x00, 0x00];
    // A picture block whose MIME length runs past the block.
    let picture = flac_with_block(0x86, &[0, 0, 0, 3, 0xFF, 0xFF, 0xFF, 0xFF, b'a']);
    // A Vorbis comment without `=`.
    let mut vorbis = vec![0, 0, 0, 0, 1, 0, 0, 0, 6, 0, 0, 0];
    vorbis.extend_from_slice(b"ARTIST");
    let no_equals = flac_with_block(0x84, &vorbis);
    // A cue sheet too short for its header.
    let cuesheet = flac_with_block(0x85, &[0u8; 100]);
    for data in [empty_streaminfo, picture, no_equals, cuesheet] {
        assert!(!flac_layout_ok(&data));
        assert_eq!(extract_audio_metadata(&data, "flac"), (None, None, None, None));
        let list = collect_audio_files(&vec![entry("/d/bad.flac", true, Some(8), data)]);
        assert_eq!(list.len(), 1);
        assert_eq!(list[0].artist, None);
    }
}

#[test]
fn sound_flac_layouts_are_accepted() {
    let mut vorbis = vec![0, 0, 0, 0, 1, 0, 0, 0, 8, 0, 0, 0];
    vorbis.extend_from_slice(b"ARTIST=Z");
    let data = flac_with_block(0x84, &vorbis);
    assert!(flac_layout_ok(&data));
    assert_eq!(extract_audio_metadata(&data, "flac").1.as_deref(), Some("Z"));
    assert!(flac_layout_ok(&flac_bytes("X", Some(vec![1, 2, 3]))));
    assert!(flac_layout_ok(&flac_with_block(0x00, &[0u8; 34])));
    assert!(!flac_layout_ok(&flac_with_block(0x00, &[0u8; 33])));
    // Not FLAC at all: the reader fails cleanly, nothing is left to check.
    assert!(flac_layout_ok(b"abc"));
}

#[test]
fn covers_use_base64_characters() {
    let data = mp3_bytes("A", "B", Some((0..=255).collect()), None);
    let cover = extract_audio_metadata(&data, "mp3").0.unwrap();
    assert_eq!(cover.len(), 4 * ((256 + 2) / 3));
    assert!(cover.chars().all(|c| c.is_ascii_alphanumeric() || c == '+' || c == '/' || c == '='));
    assert_eq!(encode_picture(&[]), Ok(String::new()));
}
