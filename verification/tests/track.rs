use termplayer::duration::Duration;
use termplayer::track::{is_audio_file, joins_playlist, load_track, FileTags, TagText};

fn text(s: &str) -> Option<String> {
    Some(s.to_string())
}

fn tag(title: Option<String>, artist: Option<String>) -> Option<TagText> {
    Some(TagText { title, artist })
}

#[test]
fn audio_files_by_extension() {
    for name in ["a.mp3", "a.wav", "a.flac", "a.ogg", "a.oga", "a.b.mp3", "..mp3"] {
        assert!(is_audio_file(Some(name.as_bytes())), "{name}");
    }
    for name in ["a.m4a", "mp3", ".mp3", "a.mp3x", "a.mp", "a.", "a.mp3.txt", "a", "", "."] {
        assert!(!is_audio_file(Some(name.as_bytes())), "{name}");
    }
    assert!(!is_audio_file(None));
}

#[test]
fn only_audio_files_join_the_playlist() {
    assert!(joins_playlist(true, Some(b"a.mp3")));
    assert!(!joins_playlist(false, Some(b"a.mp3")));
    assert!(!joins_playlist(true, Some(b"a.txt")));
    assert!(!joins_playlist(true, None));
}

#[test]
fn case_of_the_extension_does_not_matter() {
    assert!(is_audio_file(Some(b"Song.MP3")));
    assert!(is_audio_file(Some(b"song.FlAc")));
    assert!(!is_audio_file(Some(b"song.MP4")));
}

#[test]
fn names_that_are_no_text_still_have_extensions() {
    assert!(is_audio_file(Some(b"\xff\xfe.ogg")));
    assert!(!is_audio_file(Some(b"a.og\xff")));
}

#[test]
fn extensions_and_stems_agree_with_paths() {
    let names = [
        "a.mp3", ".mp3", "..mp3", "a.b.wav", "noext", "a.", ".hidden.ogg", "x.FLAC", "ü.oga", "a b.c d",
    ];
    for name in names {
        let path = std::path::Path::new(name);
        let known = path
            .extension()
            .and_then(|e| e.to_str())
            .map(|e| ["mp3", "wav", "flac", "ogg", "oga"].contains(&e.to_ascii_lowercase().as_str()))
            .unwrap_or(false);
        let bytes = path.file_name().map(|n| n.as_encoded_bytes());
        assert_eq!(is_audio_file(bytes), known, "{name}");
        let stem = path.file_stem().and_then(|s| s.to_str()).unwrap_or("Unknown");
        assert_eq!(load_track(String::new(), bytes, None).title, stem, "{name}");
    }
}

#[test]
fn files_without_tags_are_named_after_themselves() {
    let track = load_track("/m/Song One.mp3".to_string(), Some(b"Song One.mp3"), None);
    assert_eq!(track.path, "/m/Song One.mp3");
    assert_eq!(track.title, "Song One");
    assert_eq!(track.artist, "");
    assert_eq!(track.duration, None);
}

#[test]
fn names_that_are_no_text_are_unknown() {
    assert_eq!(load_track(String::new(), Some(b"\xff\xfe.mp3"), None).title, "Unknown");
    assert_eq!(load_track(String::new(), None, None).title, "Unknown");
    let utf8 = "آهنگ.mp3";
    assert_eq!(load_track(String::new(), Some(utf8.as_bytes()), None).title, "آهنگ");
}

#[test]
fn tags_give_title_artist_and_length() {
    let tags = FileTags {
        duration: Duration::from_secs(200),
        primary: tag(text("  A Title \n"), text("\u{a0}Someone\u{3000}")),
        first: tag(text("other"), text("else")),
    };
    let track = load_track("p".to_string(), Some(b"f.mp3"), Some(tags));
    assert_eq!(track.title, "A Title");
    assert_eq!(track.artist, "Someone");
    assert_eq!(track.duration, Some(Duration::from_secs(200)));
}

#[test]
fn first_tag_counts_where_the_usual_one_is_missing() {
    let tags = FileTags {
        duration: Duration::zero(),
        primary: None,
        first: tag(text("T"), None),
    };
    let track = load_track("p".to_string(), Some(b"f.mp3"), Some(tags));
    assert_eq!(track.title, "T");
    assert_eq!(track.artist, "");
    assert_eq!(track.duration, Some(Duration::zero()));
}

#[test]
fn usual_tag_counts_even_where_it_is_empty() {
    let tags = FileTags {
        duration: Duration::from_secs(1),
        primary: tag(None, None),
        first: tag(text("T"), text("A")),
    };
    let track = load_track("p".to_string(), Some(b"f.mp3"), Some(tags));
    assert_eq!(track.title, "f");
    assert_eq!(track.artist, "");
}

#[test]
fn blank_tag_texts_are_ignored() {
    let tags = FileTags {
        duration: Duration::from_secs(1),
        primary: tag(text(" \t\u{2003}"), text("")),
        first: None,
    };
    let track = load_track("p".to_string(), Some(b"f.mp3"), Some(tags));
    assert_eq!(track.title, "f");
    assert_eq!(track.artist, "");
    assert_eq!(track.duration, Some(Duration::from_secs(1)));
}

#[test]
fn files_without_any_tag_still_have_a_length() {
    let tags = FileTags { duration: Duration::from_secs(3), primary: None, first: None };
    let track = load_track("p".to_string(), Some(b"f.mp3"), Some(tags));
    assert_eq!(track.title, "f");
    assert_eq!(track.duration, Some(Duration::from_secs(3)));
}

#[test]
fn white_space_is_what_unicode_says() {
    let listed = |c: char| {
        let code = c as u32;
        (0x09..=0x0d).contains(&code)
            || (0x2000..=0x200a).contains(&code)
            || [0x20, 0x85, 0xa0, 0x1680, 0x2028, 0x2029, 0x202f, 0x205f, 0x3000].contains(&code)
    };
    for c in '\0'..=char::MAX {
        assert_eq!(c.is_whitespace(), listed(c), "{:x}", c as u32);
    }
    for c in ('\0'..='\u{3100}').filter(|c| c.is_whitespace()) {
        let tags = FileTags {
            duration: Duration::zero(),
            primary: tag(Some(format!("{c}x{c}y{c}{c}")), Some(format!("{c}{c}"))),
            first: None,
        };
        let track = load_track("p".to_string(), Some(b"f.mp3"), Some(tags));
        assert_eq!(track.title, format!("x{c}y"));
        assert_eq!(track.artist, "");
    }
}
