use beanal::media::{
    art_url_changed, clean_app_name, join_strings, mpris_track_text, sanitize_title, sanitize_title_checked,
    should_publish, track_from_script_report, wiki_article_url, wiki_fallback_url, wiki_search_query,
    MediaTrackInfo, ScriptArtCache, ScriptReport, ScriptTrack, SessionArtCache,
};
use beanal::url::{url_decode, url_encode};
use beanal::media::{art_location, script_output_json, ArtLocation};
use beanal::text::{ends_with_text, is_whitespace, starts_with_text, trim_start_matches_text};
use beanal::media::{title_can_be_sanitized, wiki_article_for_results, wiki_lookup_texts, WikiSearchHit};

#[test]
fn test_url_encode_security() {
    let malicious = "Song&admin=true";
    assert_eq!(url_encode(malicious), "Song%26admin%3Dtrue");
    let messy = "AC/DC - Who Made Who?";
    assert_eq!(url_encode(messy), "AC%2FDC+-+Who+Made+Who%3F");
}

#[test]
fn url_encode_keeps_unreserved_and_encodes_utf8_bytes() {
    assert_eq!(url_encode("aZ09-._~"), "aZ09-._~");
    assert_eq!(url_encode("é"), "%C3%A9");
    assert_eq!(url_encode(""), "");
    assert_eq!(url_encode("#1"), "%231");
}

#[test]
fn url_decode_inverts_encode_on_ascii() {
    let text = "Rock&Roll=Fun?/#";
    assert_eq!(url_decode(&url_encode(text)), text);
    assert_eq!(url_decode("a%20b+c"), "a b+c");
    assert_eq!(url_decode("100%"), "100%");
    assert_eq!(url_decode("%zz"), "%zz");
}

#[test]
fn test_clean_app_name_standard_exe() {
    assert_eq!(clean_app_name("Spotify.exe"), "Spotify");
    assert_eq!(clean_app_name("chrome.exe"), "Chrome");
    assert_eq!(clean_app_name("firefox"), "Firefox");
}

#[test]
fn test_clean_app_name_uwp() {
    let raw = "Microsoft.ZuneMusic_8wekyb3d8bbwe!Microsoft.ZuneMusic";
    assert_eq!(clean_app_name(raw), "Microsoft");
}

#[test]
fn test_clean_app_name_edge_cases() {
    assert_eq!(clean_app_name(""), "");
    assert_eq!(clean_app_name("My.Cool.App.exe"), "My");
    assert_eq!(clean_app_name("simple"), "Simple");
}

#[test]
fn sanitize_title_cuts_decorations() {
    assert_eq!(sanitize_title("Song (Official Video)"), "Song");
    assert_eq!(sanitize_title("Song [LYRIC VIDEO] extra"), "Song");
    assert_eq!(sanitize_title("Artist Song ft. Guest"), "Artist Song");
    assert_eq!(sanitize_title("  Plain Title  "), "Plain Title");
    assert_eq!(sanitize_title("Track featuring Someone (Audio)"), "Track");
}

#[test]
fn sanitize_title_checked_refuses_titles_that_would_panic() {
    assert_eq!(sanitize_title_checked("Hello feat. X"), Some("Hello".to_string()));
    assert_eq!(sanitize_title_checked("İİ feat. X"), Some("İİ fe".to_string()));
    assert_eq!(sanitize_title_checked("İİİİ ft.é"), None);
}

#[test]
fn wiki_query_prefers_album() {
    assert_eq!(wiki_search_query("Queen", "Bohemian Rhapsody", "A Night at the Opera"), "Queen A Night at the Opera");
    assert_eq!(wiki_search_query("Queen", "Bohemian Rhapsody", "Unknown Album"), "Queen Bohemian Rhapsody");
    assert_eq!(wiki_search_query("Queen", "Bohemian Rhapsody", ""), "Queen Bohemian Rhapsody");
}

#[test]
fn wiki_article_is_accepted_only_when_it_matches() {
    assert_eq!(
        wiki_article_url("Queen", "", "Queen (band)", None),
        Some("https://en.wikipedia.org/wiki/Queen_%28band%29".to_string())
    );
    assert_eq!(wiki_article_url("Queen", "Jazz", "Jazz (album)", None).as_deref(), Some("https://en.wikipedia.org/wiki/Jazz_%28album%29"));
    assert_eq!(wiki_article_url("Queen", "", "Some Article", Some("by QUEEN")).is_some(), true);
    assert_eq!(wiki_article_url("Queen", "", "Unrelated", Some("nothing")), None);
}

#[test]
fn wiki_fallback_is_a_search_page() {
    assert_eq!(wiki_fallback_url("AC/DC", "Thunder"), "https://duckduckgo.com/?q=AC%2FDC+Thunder+music");
}

#[test]
fn mpris_defaults_fill_missing_fields() {
    let (t, a, b) = mpris_track_text(None, None, None);
    assert_eq!(t, "Unknown Title");
    assert_eq!(a, "Unknown Artist");
    assert_eq!(b, "");
    let artists = vec!["A".to_string(), "B".to_string()];
    let (t, a, b) = mpris_track_text(Some("T"), Some(&artists), Some("Al"));
    assert_eq!(t, "T");
    assert_eq!(a, "A, B");
    assert_eq!(b, "Al");
    assert_eq!(join_strings(&Vec::new(), ", "), "");
}

#[test]
fn art_url_change_detection() {
    assert!(!art_url_changed(&None, &None));
    assert!(art_url_changed(&Some("x".to_string()), &None));
    assert!(!art_url_changed(&Some("x".to_string()), &Some("x".to_string())));
    assert!(art_url_changed(&Some("x".to_string()), &Some("y".to_string())));
}

fn track(title: &str, playing: bool) -> MediaTrackInfo {
    MediaTrackInfo {
        title: title.to_string(),
        artist: "Artist".to_string(),
        album: String::new(),
        is_playing: playing,
        source_app: "App".to_string(),
        album_art: None,
    }
}

#[test]
fn only_changed_tracks_are_published() {
    assert!(should_publish(&None, &track("A", true)));
    assert!(!should_publish(&Some(track("A", true)), &track("A", true)));
    assert!(should_publish(&Some(track("A", true)), &track("A", false)));
    assert!(should_publish(&Some(track("A", true)), &track("B", true)));
}

fn report(title: &str, b64: Option<&str>, url: Option<&str>) -> ScriptReport {
    ScriptReport {
        app: None,
        title: Some(title.to_string()),
        artist: Some("Artist".to_string()),
        album: None,
        playing: Some(true),
        art_base64: b64.map(|s| s.to_string()),
        art_url: url.map(|s| s.to_string()),
    }
}

#[test]
fn script_reports_decode_embedded_art() {
    let (t, download) = track_from_script_report(&report("New", Some("aGVsbG8="), None), "Old", "Artist");
    assert_eq!(t.album_art, Some(b"hello".to_vec()));
    assert_eq!(t.source_app, "Unknown");
    assert!(t.is_playing);
    assert!(download.is_none());
}

#[test]
fn script_reports_fall_back_to_art_address() {
    let (t, download) =
        track_from_script_report(&report("New", Some("not base64!"), Some("http://art")), "Old", "Artist");
    assert!(t.album_art.is_none());
    assert_eq!(download.as_deref(), Some("http://art"));
    let (t, download) = track_from_script_report(&report("Old", Some("aGVsbG8="), Some("http://art")), "Old", "Artist");
    assert!(t.album_art.is_none());
    assert!(download.is_none());
}

#[test]
fn script_cache_hands_back_remembered_art() {
    let mut cache = ScriptArtCache::new();
    let mut first = ScriptTrack {
        title: "T".to_string(),
        artist: "A".to_string(),
        album: String::new(),
        source_app: "App".to_string(),
        is_playing: true,
        album_art: Some(vec![1, 2, 3]),
    };
    cache.apply(&mut first);
    let mut again = ScriptTrack { album_art: None, ..first };
    cache.apply(&mut again);
    assert_eq!(again.album_art, Some(vec![1, 2, 3]));
    let mut other = ScriptTrack {
        title: "U".to_string(),
        artist: "A".to_string(),
        album: String::new(),
        source_app: "App".to_string(),
        is_playing: true,
        album_art: None,
    };
    cache.apply(&mut other);
    assert!(other.album_art.is_none());
}

#[test]
fn session_cache_remembers_last_track() {
    let mut cache = SessionArtCache::new();
    assert!(cache.lookup("T", "A").is_none());
    cache.remember("T", "A", &Some(vec![9]));
    assert_eq!(cache.lookup("T", "A"), Some(Some(vec![9])));
    assert!(cache.lookup("T", "B").is_none());
}

#[test]
fn art_addresses_are_classified() {
    assert_eq!(art_location("file:///home/me/My%20Art.png"), ArtLocation::LocalFile("/home/me/My Art.png".to_string()));
    assert_eq!(art_location("file://file:///x"), ArtLocation::LocalFile("/x".to_string()));
    assert_eq!(art_location("https://img/x.jpg"), ArtLocation::Web("https://img/x.jpg".to_string()));
    assert_eq!(art_location("http://img/x.jpg"), ArtLocation::Web("http://img/x.jpg".to_string()));
    assert_eq!(art_location("ftp://img/x.jpg"), ArtLocation::Unsupported);
    assert_eq!(art_location(""), ArtLocation::Unsupported);
}

#[test]
fn script_output_is_trimmed_json_or_nothing() {
    assert_eq!(script_output_json("  {\"a\":1}\n"), Some("{\"a\":1}".to_string()));
    assert_eq!(script_output_json("null\n"), None);
    assert_eq!(script_output_json("   "), None);
}

#[test]
fn prefix_and_suffix_helpers() {
    assert!(starts_with_text("file://x", "file://"));
    assert!(!starts_with_text("fil", "file://"));
    assert!(ends_with_text("alsa.monitor", ".monitor"));
    assert!(!ends_with_text("monitor", ".monitor"));
    assert_eq!(trim_start_matches_text("vvv1", "v"), "1");
    assert_eq!(trim_start_matches_text("abab", "ab"), "");
    assert_eq!(trim_start_matches_text("abc", ""), "abc");
}

#[test]
fn white_space_is_the_unicode_list() {
    for c in ['\t', '\n', '\u{b}', '\u{c}', '\r', ' ', '\u{85}', '\u{a0}', '\u{1680}', '\u{2000}', '\u{200a}', '\u{2028}', '\u{2029}', '\u{202f}', '\u{205f}', '\u{3000}'] {
        assert!(is_whitespace(c));
        assert_eq!(is_whitespace(c), c.is_whitespace());
    }
    for c in ['a', '\u{200b}', '\u{feff}', '\u{180e}', '_', '\u{0}'] {
        assert!(!is_whitespace(c));
        assert_eq!(is_whitespace(c), c.is_whitespace());
    }
}

#[test]
fn wiki_texts_from_raw_title() {
    assert!(title_can_be_sanitized("Song (Official Video)"));
    assert!(!title_can_be_sanitized("İİİİ ft.é"));
    let (q, f) = wiki_lookup_texts("Queen", "Bohemian Rhapsody (Official Video)", "").unwrap();
    assert_eq!(q, "Queen Bohemian Rhapsody");
    assert_eq!(f, "https://duckduckgo.com/?q=Queen+Bohemian+Rhapsody+music");
    assert!(wiki_lookup_texts("Queen", "İİİİ ft.é", "").is_none());
}

#[test]
fn wiki_results_use_the_first_hit() {
    let hits = vec![
        WikiSearchHit { title: Some("Queen (band)".to_string()), snippet: None },
        WikiSearchHit { title: Some("Other".to_string()), snippet: None },
    ];
    assert_eq!(wiki_article_for_results("Queen", "", &hits).as_deref(), Some("https://en.wikipedia.org/wiki/Queen_%28band%29"));
    assert_eq!(wiki_article_for_results("Queen", "", &Vec::new()), None);
    let untitled = vec![WikiSearchHit { title: None, snippet: Some("Queen".to_string()) }];
    assert_eq!(wiki_article_for_results("Queen", "", &untitled), None);
    let other = vec![WikiSearchHit { title: Some("One".to_string()), snippet: Some("by U2".to_string()) }];
    assert_eq!(wiki_article_for_results("Metallica", "", &other), None);
}

#[test]
fn url_decode_reads_escaped_bytes_as_utf8() {
    assert_eq!(url_decode("M%C3%BAsica"), "Música");
    assert_eq!(url_decode("%E2%82%AC%20and%20%F0%9F%8E%B5"), "€ and 🎵");
    assert_eq!(url_decode("Caf%c3%a9"), "Café");
    assert_eq!(url_decode("Música"), "Música");
    assert_eq!(url_decode("%FF"), "\u{ff}");
    assert_eq!(url_decode("Mú%FFx"), "Mú\u{ff}x");
    let text = "Ünïcode/Música?&é€🎵";
    assert_eq!(url_decode(&url_encode(text)), text);
    assert_eq!(
        art_location("file:///home/me/M%C3%BAsica/cover.png"),
        ArtLocation::LocalFile("/home/me/Música/cover.png".to_string())
    );
}
