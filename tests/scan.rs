use autogenre::{
    decode_tag, format_for_extension, format_for_path, AudioFile, FileProbe, FileScanner,
    MediaError, Metadata, NativeYear, RawTag, TagDialect, TagFormat,
};

fn meta(artist: Option<&str>, title: Option<&str>) -> Metadata {
    Metadata {
        title: title.map(|s| s.to_string()),
        artist: artist.map(|s| s.to_string()),
        album: None,
        genre: None,
        year: None,
    }
}

fn entry(path: &str, m: Option<Metadata>) -> AudioFile {
    AudioFile { path: path.to_string(), filename: String::new(), extension: "mp3".to_string(), current_metadata: m }
}

#[test]
fn corrupt_file_still_listed() {
    let scanner = FileScanner::new();
    let probes = vec![
        FileProbe { path: "/m/bad.mp3".to_string(), tags: Err(MediaError::NoTagBlock) },
        FileProbe { path: "/m/good.FLAC".to_string(), tags: Ok(meta(Some("A"), Some("B"))) },
        FileProbe { path: "/m/notes.txt".to_string(), tags: Err(MediaError::UnsupportedFormat) },
        FileProbe { path: "/m/also.ogg".to_string(), tags: Ok(meta(None, None)) },
        FileProbe { path: "/m/noext".to_string(), tags: Err(MediaError::UnsupportedFormat) },
    ];
    let inv = scanner.scan_directory(&probes);
    assert_eq!(inv.len(), 3);
    assert_eq!(inv[0].path, "/m/bad.mp3");
    assert_eq!(inv[0].filename, "bad.mp3");
    assert_eq!(inv[0].current_metadata, None);
    assert_eq!(inv[1].extension, "flac");
    assert_eq!(inv[1].filename, "good.FLAC");
    assert_eq!(inv[1].current_metadata, Some(meta(Some("A"), Some("B"))));
    assert_eq!(inv[2].extension, "ogg");
}

#[test]
fn aiff_is_scanned_but_has_no_codec() {
    let scanner = FileScanner::new();
    assert_eq!(scanner.audio_extension("/m/x.AIFF"), Some("aiff".to_string()));
    assert_eq!(format_for_path("/m/x.aiff"), None);
    assert_eq!(scanner.read_metadata("/m/x.aiff", None), Err(MediaError::UnsupportedFormat));
    assert_eq!(
        scanner.write_metadata("/m/x.aiff", &meta(Some("A"), None)),
        Err(MediaError::UnsupportedFormat)
    );
    assert!(!scanner.is_supported("MP3"));
    assert!(scanner.is_supported("mp3"));
}

#[test]
fn format_by_extension_any_case() {
    assert_eq!(format_for_path("/a/b.MP3"), Some(TagFormat::Mp3));
    assert_eq!(format_for_path("/a/b.Flac"), Some(TagFormat::Flac));
    assert_eq!(format_for_path("/a/b.wav"), Some(TagFormat::Wav));
    assert_eq!(format_for_path("/a/b.ogg"), Some(TagFormat::Ogg));
    assert_eq!(format_for_path("/a/b.m4a"), Some(TagFormat::M4a));
    assert_eq!(format_for_path("/a/b"), None);
    assert_eq!(format_for_extension("MP3"), None);
}

#[test]
fn write_plan_per_format() {
    let scanner = FileScanner::new();
    let mut m = meta(Some("A"), None);
    m.year = Some(-1);
    let w = scanner.write_metadata("/a/b.mp3", &m).unwrap();
    assert_eq!(w.fresh_dialect, TagDialect::Id3v24);
    assert_eq!(w.year, Some(NativeYear::Signed(-1)));
    assert_eq!(w.artist, Some("A".to_string()));
    assert_eq!(w.title, None);
    let w = scanner.write_metadata("/a/b.flac", &m).unwrap();
    assert_eq!(w.fresh_dialect, TagDialect::VorbisComments);
    assert_eq!(w.year, Some(NativeYear::Unsigned(u32::MAX)));
    assert_eq!(scanner.write_metadata("/a/b.wav", &m).unwrap().fresh_dialect, TagDialect::Id3v2);
    assert_eq!(scanner.write_metadata("/a/b.ogg", &m).unwrap().fresh_dialect, TagDialect::VorbisComments);
    assert_eq!(scanner.write_metadata("/a/b.M4A", &m).unwrap().fresh_dialect, TagDialect::Mp4Ilst);
    let r = scanner.restore_from_backup("/a/b.m4a", &m).unwrap();
    assert_eq!(r.format, TagFormat::M4a);
}

#[test]
fn decode_normalises_empty_text_and_year() {
    let raw = RawTag {
        title: Some(String::new()),
        artist: Some("X".to_string()),
        album: None,
        genre: Some("House".to_string()),
        year: Some(NativeYear::Unsigned(2001)),
    };
    let m = decode_tag(Some(raw)).unwrap();
    assert_eq!(m.title, None);
    assert_eq!(m.artist, Some("X".to_string()));
    assert_eq!(m.genre, Some("House".to_string()));
    assert_eq!(m.year, Some(2001));
    assert_eq!(decode_tag(None), Err(MediaError::NoTagBlock));
    let scanner = FileScanner::new();
    assert_eq!(scanner.read_metadata("/x.mp3", None), Err(MediaError::NoTagBlock));
}

#[test]
fn three_identical_make_one_group() {
    let scanner = FileScanner::new();
    let files = vec![
        entry("a", Some(meta(Some("A"), Some("T")))),
        entry("b", Some(meta(Some("A"), Some("T")))),
        entry("c", Some(meta(Some("A"), Some("T")))),
    ];
    assert_eq!(scanner.find_duplicates(&files), vec![vec![0, 1, 2]]);
}

#[test]
fn matching_ignores_case_and_whitespace() {
    let scanner = FileScanner::new();
    let files = vec![
        entry("a", Some(meta(Some("Daft Punk"), Some(" one more time ")))),
        entry("b", Some(meta(Some("daft punk"), Some("One More Time")))),
    ];
    assert_eq!(scanner.find_duplicates(&files), vec![vec![0, 1]]);
    assert!(scanner.is_duplicate(files[0].current_metadata.as_ref().unwrap(), files[1].current_metadata.as_ref().unwrap()));
}

#[test]
fn untagged_entries_never_grouped() {
    let scanner = FileScanner::new();
    let files = vec![
        entry("a", Some(meta(None, Some("T")))),
        entry("b", Some(meta(None, Some("T")))),
        entry("c", None),
        entry("d", None),
        entry("e", Some(meta(Some("  "), Some("T")))),
        entry("f", Some(meta(Some("  "), Some("T")))),
    ];
    assert!(scanner.find_duplicates(&files).is_empty());
    assert!(!scanner.is_duplicate(&meta(None, None), &meta(None, None)));
}

#[test]
fn groups_follow_first_occurrence() {
    let scanner = FileScanner::new();
    let files = vec![
        entry("a", Some(meta(Some("A"), Some("T")))),
        entry("b", Some(meta(Some("B"), Some("T")))),
        entry("c", Some(meta(Some("a"), Some("t")))),
        entry("d", Some(meta(Some("C"), Some("T")))),
        entry("e", Some(meta(Some("b"), Some("T ")))),
        entry("f", Some(meta(Some("A"), Some("T")))),
    ];
    assert_eq!(scanner.find_duplicates(&files), vec![vec![0, 2, 5], vec![1, 4]]);
    assert!(scanner.find_duplicates(&Vec::new()).is_empty());
}

#[test]
fn restore_plan_rewrites_snapshot_fields() {
    let scanner = FileScanner::new();
    let raw = RawTag {
        title: Some("Song".to_string()),
        artist: Some(String::new()),
        album: Some("LP".to_string()),
        genre: None,
        year: Some(NativeYear::Unsigned(1999)),
    };
    let snapshot = decode_tag(Some(raw)).unwrap();
    let w = scanner.restore_from_backup("/a/song.ogg", &snapshot).unwrap();
    assert_eq!(w.title, Some("Song".to_string()));
    assert_eq!(w.artist, None);
    assert_eq!(w.album, Some("LP".to_string()));
    assert_eq!(w.genre, None);
    assert_eq!(w.year, Some(NativeYear::Unsigned(1999)));
    assert_eq!(w.fresh_dialect, TagDialect::VorbisComments);
}
