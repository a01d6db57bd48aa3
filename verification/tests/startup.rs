use termplayer::startup::{plan_startup, refuse_empty, root_argument, RootKind, Startup};

#[test]
fn current_directory_without_an_argument() {
    assert_eq!(root_argument(None), ".");
    assert_eq!(root_argument(Some("Music".to_string())), "Music");
    assert_eq!(root_argument(Some(String::new())), "");
}

#[test]
fn files_are_loaded_and_directories_scanned() {
    assert!(matches!(plan_startup("x", RootKind::File), Startup::LoadFile));
    assert!(matches!(plan_startup("x", RootKind::Directory), Startup::ScanDirectory));
}

#[test]
fn missing_paths_are_refused() {
    match plan_startup("/no/such", RootKind::Missing) {
        Startup::Refuse { reason } => assert_eq!(reason, "Path not found: /no/such"),
        _ => panic!("a missing path was accepted"),
    }
}

#[test]
fn empty_playlists_are_refused() {
    assert_eq!(
        refuse_empty("/m", 0),
        Some("No audio files found in \"/m\" (supported: mp3, wav, flac, ogg)".to_string())
    );
    assert_eq!(refuse_empty("/m", 1), None);
}
