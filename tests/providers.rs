use autogenre::{
    beatport_expiry, beatport_query, beatport_result, cached_token, collect_results,
    musicbrainz_query, musicbrainz_result, no_match_result, pick_credential, spotify_expiry,
    spotify_query, spotify_result, AppSettings, BeatportClient, Confidence, MetadataResult,
    MusicBrainzClient, SpotifyClient, TokenCache,
};

#[test]
fn spotify_query_quotes_multiword_parts() {
    assert_eq!(spotify_query("Daft Punk", "Aerodynamic"), "artist:\"Daft Punk\" track:Aerodynamic");
    assert_eq!(spotify_query("Air", "Sexy Boy"), "artist:Air track:\"Sexy Boy\"");
}

#[test]
fn other_queries() {
    assert_eq!(musicbrainz_query("Air", "Sexy Boy"), "artist:Air AND recording:Sexy Boy");
    assert_eq!(beatport_query("Air", "Sexy Boy"), "Air Sexy Boy");
    assert_eq!(MusicBrainzClient::new().recording_url(), "https://musicbrainz.org/ws/2/recording");
}

#[test]
fn provider_results() {
    let r = no_match_result("Air", "Spotify");
    assert_eq!(r.source, "Spotify (No match)");
    assert_eq!(r.confidence, Confidence::Low);
    assert_eq!(r.artist, Some("Air".to_string()));
    assert_eq!(r.genre, None);
    let r = spotify_result("Air".to_string(), Some("french house".to_string()));
    assert_eq!(r.confidence, Confidence::High);
    assert_eq!(spotify_result("Air".to_string(), None).confidence, Confidence::Medium);
    let r = musicbrainz_result("air", None, None, Some("electronic".to_string()));
    assert_eq!(r.artist, Some("air".to_string()));
    assert_eq!(r.genre, Some("electronic".to_string()));
    assert_eq!(r.confidence, Confidence::Medium);
    assert_eq!(musicbrainz_result("air", Some("Air".to_string()), None, None).confidence, Confidence::Low);
    let r = beatport_result("x", Some("Y".to_string()), Some("Deep".to_string()), Some("House".to_string()));
    assert_eq!(r.genre, Some("Deep".to_string()));
    assert_eq!(r.artist, Some("Y".to_string()));
    assert_eq!(r.confidence, Confidence::High);
    assert_eq!(beatport_result("x", None, None, None).confidence, Confidence::Low);
}

#[test]
fn failed_providers_are_dropped() {
    let a = no_match_result("A", "Spotify");
    let b = spotify_result("B".to_string(), None);
    let out = collect_results(vec![Ok(a.clone()), Err("down".to_string()), Ok(b.clone())]);
    assert_eq!(out, vec![a, b]);
    let none: Vec<MetadataResult> = collect_results(vec![Err("x".to_string())]);
    assert!(none.is_empty());
}

#[test]
fn token_cache_expiry() {
    let cache = Some(TokenCache { access_token: "tok".to_string(), expires_at: 100 });
    assert_eq!(cached_token(&cache, 99), Some("tok".to_string()));
    assert_eq!(cached_token(&cache, 100), None);
    assert_eq!(cached_token(&None, 0), None);
    assert_eq!(spotify_expiry(1000), 4000);
    assert_eq!(spotify_expiry(u64::MAX), u64::MAX);
    assert_eq!(beatport_expiry(1000, None), 4300);
    assert_eq!(beatport_expiry(1000, Some(600)), 1300);
    assert_eq!(beatport_expiry(0, Some(10)), 0);
}

#[test]
fn credentials_need_both_parts() {
    assert!(SpotifyClient::new(Some("i".to_string()), None).credentials().is_none());
    assert_eq!(
        SpotifyClient::new(Some("i".to_string()), Some("s".to_string())).credentials(),
        Some(("i".to_string(), "s".to_string()))
    );
    assert!(BeatportClient::new(None, Some("p".to_string())).credentials().is_none());
    assert_eq!(pick_credential(Some("env".to_string()), Some("cfg".to_string())), Some("env".to_string()));
    assert_eq!(pick_credential(None, Some("cfg".to_string())), Some("cfg".to_string()));
    assert_eq!(pick_credential(None, Some(String::new())), None);
}

#[test]
fn default_settings() {
    let s = AppSettings::default();
    assert_eq!(s.folder_pattern, "{genre}");
    assert!(s.backup_before_changes);
    assert!(!s.organize_files && !s.rename_files);
    assert!(s.spotify_client_id.is_empty());
}
