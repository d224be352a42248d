use autogenre::{
    backup_before_write, backup_file_name, check_destination, expand_pattern, rename_target,
    BackupPlan, FileScanner, MediaError, Metadata, MovePlan,
};

fn track(artist: Option<&str>, title: Option<&str>, genre: Option<&str>, year: Option<i32>) -> Metadata {
    Metadata {
        title: title.map(|s| s.to_string()),
        artist: artist.map(|s| s.to_string()),
        album: None,
        genre: genre.map(|s| s.to_string()),
        year,
    }
}

#[test]
fn genre_pattern_without_genre_is_unknown() {
    let scanner = FileScanner::new();
    let m = track(Some("Daft Punk"), Some("One More Time"), None, None);
    let plan = scanner.organize_file("/in/song.mp3", &m, "/music", "{genre}").unwrap();
    assert_eq!(plan.folder, "/music/Unknown");
    assert_eq!(plan.destination, "/music/Unknown/song.mp3");
}

#[test]
fn pattern_fields_are_sanitised() {
    let mut m = track(Some("AC/DC"), Some("T.N.T."), Some("Rock & Roll"), Some(1975));
    m.album = Some("High Voltage".to_string());
    let out = expand_pattern("{genre}/{artist}/{album} - {title} ({year})", &m);
    assert_eq!(out, "Rock _ Roll/AC_DC/High Voltage - T_N_T_ (1975)");
}

#[test]
fn pattern_absent_fields_are_unknown() {
    let m = track(None, None, None, None);
    assert_eq!(expand_pattern("{artist}-{album}-{title}-{year}", &m), "Unknown-Unknown-Unknown-Unknown");
}

#[test]
fn pattern_negative_year_and_repeats() {
    let m = track(None, None, Some("Jazz"), Some(-12));
    assert_eq!(expand_pattern("{year}{genre}{genre}", &m), "-12JazzJazz");
    assert_eq!(expand_pattern("no tokens", &m), "no tokens");
    assert_eq!(expand_pattern("", &m), "");
}

#[test]
fn pattern_keeps_unicode_letters() {
    let m = track(None, None, Some("Música Ñ"), None);
    assert_eq!(expand_pattern("{genre}", &m), "Música Ñ");
}

#[test]
fn organize_keeps_file_name_under_expanded_folder() {
    let scanner = FileScanner::new();
    let m = track(Some("Air"), Some("Sexy Boy"), Some("Electronic"), Some(1998));
    let plan = scanner.organize_file("/in/a.flac", &m, "/lib", "{genre}/{year}").unwrap();
    assert_eq!(plan.folder, "/lib/Electronic/1998");
    assert_eq!(plan.destination, "/lib/Electronic/1998/a.flac");
}

#[test]
fn organize_without_file_name_fails() {
    let scanner = FileScanner::new();
    let m = track(None, None, None, None);
    assert_eq!(scanner.organize_file("/in/..", &m, "/lib", "{genre}"), Err(MediaError::NoFileName));
}

#[test]
fn rename_builds_artist_title_name() {
    let scanner = FileScanner::new();
    let m = track(Some("AC/DC"), Some("T.N.T."), None, None);
    let plan = scanner.rename_file("/a/b/track.MP3", &m).unwrap();
    assert_eq!(plan.folder, "/a/b");
    assert_eq!(plan.destination, "/a/b/AC_DC - T.N.T..MP3");
}

#[test]
fn rename_defaults_for_absent_fields() {
    assert_eq!(rename_target(&track(None, None, None, None), "mp3"), "Unknown Artist - Unknown Title.mp3");
}

#[test]
fn rename_without_extension_fails() {
    let scanner = FileScanner::new();
    let m = track(Some("A"), Some("B"), None, None);
    assert_eq!(scanner.rename_file("/a/b/track", &m), Err(MediaError::NoExtension));
}

#[test]
fn existing_destination_is_refused() {
    let plan = MovePlan { folder: "/a".to_string(), destination: "/a/x.mp3".to_string() };
    assert_eq!(
        check_destination(plan.clone(), true),
        Err(MediaError::DestinationExists("/a/x.mp3".to_string()))
    );
    assert_eq!(check_destination(plan.clone(), false), Ok(plan));
}

#[test]
fn backup_goes_beside_the_file() {
    let scanner = FileScanner::new();
    let plan = scanner.backup_metadata("/a/b/x.mp3", 1700000000).unwrap();
    assert_eq!(
        plan,
        BackupPlan {
            directory: "/a/b/.autogenre_backups".to_string(),
            file: "/a/b/.autogenre_backups/x.mp3.1700000000.json".to_string(),
        }
    );
    assert_eq!(backup_file_name("song.flac", 0), "song.flac.0.json");
}

#[test]
fn backup_of_root_has_no_parent() {
    let scanner = FileScanner::new();
    assert_eq!(scanner.backup_metadata("/", 5), Err(MediaError::NoParentDirectory));
}

#[test]
fn backup_gate_before_write() {
    let m = track(Some("A"), Some("B"), None, None);
    assert_eq!(backup_before_write(false, None), Ok(None));
    assert_eq!(backup_before_write(true, Some(m.clone())), Ok(Some(m)));
    assert_eq!(backup_before_write(true, None), Err(MediaError::NothingToBackUp));
}
