use termplayer::duration::Duration;
use termplayer::keys::{KeyCode, KeyEvent, KeyKind};
use termplayer::model::{PlayStatus, RepeatMode};
use termplayer::player::{Action, App, LoadOutcome};
use termplayer::track::Track;
use termplayer::volume::{percent, FULL_VOLUME, INITIAL_VOLUME};

fn secs(n: u64) -> Duration {
    Duration::from_secs(n)
}

fn track(name: &str, length: Option<Duration>) -> Track {
    Track {
        path: format!("/music/{name}.mp3"),
        title: name.to_string(),
        artist: String::new(),
        duration: length,
    }
}

fn player(count: usize) -> App {
    let tracks = (0..count).map(|i| track(&format!("t{i}"), Some(secs(100)))).collect();
    App::new(tracks, None, Duration::zero())
}

fn playing(count: usize, index: usize) -> App {
    let mut app = player(count);
    app.finish_load(index, LoadOutcome::Ready, Duration::zero());
    app
}

fn key(code: KeyCode) -> KeyEvent {
    KeyEvent { code, control: false, kind: KeyKind::Press }
}

fn press(app: &mut App, code: KeyCode) -> Action {
    assert!(app.accepts_key(key(code), secs(1)));
    app.handle_event(key(code), secs(1), secs(50))
}

fn press_char(app: &mut App, c: char) -> Action {
    press(app, KeyCode::Char(c))
}

fn message(app: &App) -> &str {
    match &app.message {
        Some(m) => &m.text,
        None => "",
    }
}

fn loaded(action: Action) -> usize {
    match action {
        Action::Load { index } => index,
        _ => panic!("no track was asked for"),
    }
}

#[test]
fn new_player() {
    let app = App::new(vec![track("a", None)], Some((7u128 << 64) + 40), secs(2));
    assert_eq!(app.tracks.len(), 1);
    assert_eq!(app.selected, 0);
    assert_eq!(app.current, None);
    assert_eq!(app.status, PlayStatus::Stopped);
    assert_eq!(app.volume, INITIAL_VOLUME);
    assert_eq!(percent(app.volume), 80);
    assert!(!app.muted);
    assert_eq!(app.repeat, RepeatMode::Off);
    assert!(!app.shuffle);
    assert!(!app.quit);
    assert!(app.message.is_none());
    assert_eq!(app.started_at, secs(2));
    assert_eq!(app.rng, 41);
}

#[test]
fn clock_that_cannot_be_read() {
    assert_eq!(App::new(vec![], None, secs(0)).rng, 0xDEAD_BEEF);
}

#[test]
fn random_numbers() {
    let mut app = App::new(vec![], Some(1), secs(0));
    assert_eq!(app.rand_u64(), 0x4082_2041);
    assert_eq!(app.rng, 0x4082_2041);
}

#[test]
fn selection_stays_in_the_playlist() {
    let mut app = player(30);
    press(&mut app, KeyCode::Up);
    assert_eq!(app.selected, 0);
    press(&mut app, KeyCode::Down);
    press_char(&mut app, 'j');
    assert_eq!(app.selected, 2);
    press_char(&mut app, 'k');
    assert_eq!(app.selected, 1);
    press(&mut app, KeyCode::PageDown);
    assert_eq!(app.selected, 11);
    press(&mut app, KeyCode::PageUp);
    assert_eq!(app.selected, 1);
    press(&mut app, KeyCode::PageUp);
    assert_eq!(app.selected, 0);
    press(&mut app, KeyCode::End);
    assert_eq!(app.selected, 29);
    press(&mut app, KeyCode::PageDown);
    assert_eq!(app.selected, 29);
    press(&mut app, KeyCode::Home);
    assert_eq!(app.selected, 0);
    app.move_selection(isize::MAX);
    assert_eq!(app.selected, 29);
    app.move_selection(isize::MIN);
    assert_eq!(app.selected, 0);
}

#[test]
fn empty_playlist_has_nothing_to_do() {
    let mut app = player(0);
    for code in [KeyCode::Down, KeyCode::End, KeyCode::Enter, KeyCode::Char('n'), KeyCode::Char('p')] {
        assert!(matches!(press(&mut app, code), Action::Nothing));
    }
    assert!(matches!(press_char(&mut app, ' '), Action::Nothing));
    assert_eq!(app.selected, 0);
    assert_eq!(app.next_index(false), None);
    assert_eq!(app.next_index(true), None);
}

#[test]
fn playing_a_track() {
    let mut app = player(3);
    press(&mut app, KeyCode::Down);
    assert_eq!(loaded(press(&mut app, KeyCode::Enter)), 1);
    assert_eq!(app.status, PlayStatus::Stopped);
    app.selected = 0;
    let action = app.finish_load(1, LoadOutcome::Ready, secs(9));
    assert!(matches!(action, Action::SetVolume { volume: INITIAL_VOLUME }));
    assert_eq!(app.current, Some(1));
    assert_eq!(app.selected, 1);
    assert_eq!(app.status, PlayStatus::Playing);
    assert_eq!(app.started_at, secs(9));
    assert!(app.message.is_none());
}

#[test]
fn muted_tracks_start_silent() {
    let mut app = player(1);
    press_char(&mut app, 'm');
    let action = app.finish_load(0, LoadOutcome::Ready, secs(1));
    assert!(matches!(action, Action::SetVolume { volume: 0 }));
}

#[test]
fn tracks_that_are_not_there_are_not_asked_for() {
    let app = player(2);
    assert!(matches!(app.play_index(2), Action::Nothing));
    assert_eq!(loaded(app.play_index(1)), 1);
}

#[test]
fn failed_loads_leave_the_current_track_alone() {
    let mut app = playing(3, 0);
    let outcome = LoadOutcome::OpenFailed { reason: "denied".to_string() };
    assert!(matches!(app.finish_load(2, outcome, secs(4)), Action::Nothing));
    assert_eq!(message(&app), "Cannot open /music/t2.mp3: denied");
    assert_eq!(app.message.as_ref().map(|m| m.at), Some(secs(4)));
    let outcome = LoadOutcome::Undecodable { reason: "garbage".to_string() };
    assert!(matches!(app.finish_load(1, outcome, secs(5)), Action::Nothing));
    assert_eq!(message(&app), "Unsupported format /music/t1.mp3: garbage");
    assert_eq!(app.current, Some(0));
    assert_eq!(app.status, PlayStatus::Playing);
}

#[test]
fn pausing_and_resuming() {
    let mut app = playing(2, 1);
    assert!(matches!(press_char(&mut app, ' '), Action::Pause));
    assert_eq!(app.status, PlayStatus::Paused);
    assert!(matches!(press_char(&mut app, ' '), Action::Resume));
    assert_eq!(app.status, PlayStatus::Playing);
    press_char(&mut app, 'x');
    press(&mut app, KeyCode::Home);
    assert_eq!(loaded(press_char(&mut app, ' ')), 0);
    assert_eq!(app.status, PlayStatus::Stopped);
}

#[test]
fn skipping_goes_through_the_playlist_and_round() {
    let mut app = player(3);
    let mut order = vec![];
    for _ in 0..7 {
        let index = loaded(press_char(&mut app, 'n'));
        app.finish_load(index, LoadOutcome::Ready, secs(0));
        order.push(index);
    }
    assert_eq!(order, [0, 1, 2, 0, 1, 2, 0]);
}

#[test]
fn end_of_a_track_by_repeat_mode() {
    let mut app = playing(2, 0);
    assert_eq!(app.next_index(true), Some(1));
    let mut app = playing(2, 1);
    assert_eq!(app.next_index(true), None);
    assert_eq!(app.next_index(false), Some(0));
    app.repeat = RepeatMode::All;
    assert_eq!(app.next_index(true), Some(0));
    app.repeat = RepeatMode::One;
    assert_eq!(app.next_index(true), Some(1));
    assert_eq!(app.next_index(false), Some(0));
    let mut app = player(2);
    app.repeat = RepeatMode::One;
    assert_eq!(app.next_index(true), Some(0));
}

#[test]
fn shuffling_draws_until_another_track_comes() {
    for count in 2..20usize {
        for current in 0..count {
            let mut app = playing(count, current);
            app.shuffle = true;
            let mut x = app.rng;
            let expected = loop {
                x ^= x << 13;
                x ^= x >> 7;
                x ^= x << 17;
                let candidate = (x as usize) % count;
                if candidate != current {
                    break candidate;
                }
            };
            assert_eq!(app.next_index(false), Some(expected));
            assert_eq!(app.rng, x);
            assert_ne!(expected, current);
        }
    }
}

#[test]
fn shuffling_repeats_one_track_at_its_end() {
    let mut app = playing(5, 2);
    app.shuffle = true;
    app.repeat = RepeatMode::One;
    let before = app.rng;
    assert_eq!(app.next_index(true), Some(2));
    assert_eq!(app.rng, before);
    assert_ne!(app.next_index(false), Some(2));
}

#[test]
fn shuffling_a_single_track() {
    let mut app = playing(1, 0);
    app.shuffle = true;
    assert_eq!(app.next_index(false), Some(0));
    assert_eq!(app.next_index(true), None);
}

#[test]
fn previous_track_or_start_of_this_one() {
    let app = playing(3, 2);
    assert_eq!(loaded(app.skip_previous(secs(3))), 1);
    assert!(matches!(app.skip_previous(Duration::new(3, 1)), Action::Restart));
    let mut app = playing(3, 0);
    assert_eq!(loaded(app.skip_previous(secs(0))), 0);
    app.repeat = RepeatMode::All;
    assert_eq!(loaded(app.skip_previous(secs(0))), 2);
    let app = player(3);
    assert_eq!(loaded(app.skip_previous(secs(60))), 0);
    let mut app = playing(3, 1);
    press_char(&mut app, ' ');
    assert!(matches!(app.skip_previous(secs(4)), Action::Restart));
}

#[test]
fn previous_undoes_next() {
    let mut app = playing(4, 1);
    let index = loaded(press_char(&mut app, 'n'));
    app.finish_load(index, LoadOutcome::Ready, secs(1));
    assert_eq!(loaded(press_char(&mut app, 'p')), 1);
}

#[test]
fn stopping() {
    let mut app = playing(2, 1);
    assert!(matches!(press_char(&mut app, 'x'), Action::Clear));
    assert_eq!(app.status, PlayStatus::Stopped);
    assert_eq!(app.current, None);
    assert_eq!(app.selected, 1);
    assert_eq!(message(&app), "Stopped");
    assert!(matches!(app.check_track_end(true, secs(99)), Action::Nothing));
}

#[test]
fn volume_keys() {
    let mut app = player(1);
    assert!(matches!(press_char(&mut app, '+'), Action::SetVolume { volume: 228_170_144 }));
    assert_eq!(message(&app), "Volume: 85%");
    for _ in 0..5 {
        press_char(&mut app, '=');
    }
    assert_eq!(app.volume, FULL_VOLUME);
    assert_eq!(message(&app), "Volume: 100%");
    assert!(matches!(press_char(&mut app, '-'), Action::SetVolume { volume: 255_013_680 }));
    assert_eq!(message(&app), "Volume: 95%");
    for _ in 0..30 {
        press_char(&mut app, '_');
    }
    assert_eq!(app.volume, 0);
    assert_eq!(message(&app), "Volume: 0%");
    app.change_volume(i32::MAX, secs(0));
    assert_eq!(app.volume, FULL_VOLUME);
    app.change_volume(i32::MIN, secs(0));
    assert_eq!(app.volume, 0);
}

#[test]
fn volumes_are_gains_in_single_precision() {
    let mut app = player(1);
    let mut gain = 0.8f32;
    let mut x = 1u64;
    assert_eq!(app.volume as f32 / FULL_VOLUME as f32, gain);
    for _ in 0..20_000 {
        x ^= x << 13;
        x ^= x >> 7;
        x ^= x << 17;
        let (c, step) = if x % 2 == 0 { ('+', 0.05f32) } else { ('-', -0.05f32) };
        let action = press_char(&mut app, c);
        gain = (gain + step).clamp(0.0, 1.0);
        assert_eq!(app.volume as f32 / FULL_VOLUME as f32, gain);
        assert_eq!(app.volume as f64 / FULL_VOLUME as f64, gain as f64);
        assert_eq!(message(&app), format!("Volume: {}%", (gain * 100.0).round() as u32));
        assert!(matches!(action, Action::SetVolume { volume } if volume == app.volume));
    }
}

#[test]
fn four_steps_down() {
    let mut app = player(1);
    for _ in 0..4 {
        press_char(&mut app, '-');
    }
    assert_eq!(app.volume, 161_061_264);
    assert_eq!(app.volume as f32 / FULL_VOLUME as f32, 0.8f32 - 0.05 - 0.05 - 0.05 - 0.05);
    assert_eq!(message(&app), "Volume: 60%");
}

#[test]
fn silent_volumes_need_not_be_zero() {
    let mut app = player(1);
    let mut least = FULL_VOLUME;
    let mut x = 1u64;
    for _ in 0..20_000 {
        x ^= x << 13;
        x ^= x >> 7;
        x ^= x << 17;
        press_char(&mut app, if x % 2 == 0 { '+' } else { '-' });
        if app.volume > 0 {
            least = least.min(app.volume);
        }
        assert_eq!(percent(app.volume) % 5, 0);
    }
    assert_eq!(least, 2);
    assert_eq!(percent(least), 0);
}

#[test]
fn muting() {
    let mut app = player(1);
    assert!(matches!(press_char(&mut app, 'm'), Action::SetVolume { volume: 0 }));
    assert!(app.muted);
    assert_eq!(app.output_volume(), 0);
    assert_eq!(message(&app), "Muted");
    assert!(matches!(press_char(&mut app, 'm'), Action::SetVolume { volume: INITIAL_VOLUME }));
    assert!(!app.muted);
    assert_eq!(message(&app), "Volume: 80%");
    press_char(&mut app, 'm');
    assert!(matches!(press_char(&mut app, '-'), Action::SetVolume { volume: 201_326_592 }));
    assert!(!app.muted);
}

#[test]
fn repeat_modes_take_turns() {
    let mut app = player(1);
    let mut seen = vec![];
    for _ in 0..4 {
        assert!(matches!(press_char(&mut app, 'r'), Action::Nothing));
        seen.push((app.repeat, message(&app).to_string()));
    }
    assert_eq!(seen[0], (RepeatMode::All, "Repeat: all".to_string()));
    assert_eq!(seen[1], (RepeatMode::One, "Repeat: one".to_string()));
    assert_eq!(seen[2], (RepeatMode::Off, "Repeat: off".to_string()));
    assert_eq!(seen[3], seen[0]);
}

#[test]
fn shuffle_switch() {
    let mut app = player(1);
    press_char(&mut app, 's');
    assert!(app.shuffle);
    assert_eq!(message(&app), "Shuffle: on");
    press_char(&mut app, 's');
    assert!(!app.shuffle);
    assert_eq!(message(&app), "Shuffle: off");
}

fn target(action: Action) -> Duration {
    match action {
        Action::Seek { target } => target,
        _ => panic!("no seek was asked for"),
    }
}

#[test]
fn seeking() {
    let app = playing(1, 0);
    assert_eq!(target(app.seek(5, secs(10))), secs(15));
    assert_eq!(target(app.seek(-5, secs(10))), secs(5));
    assert_eq!(target(app.seek(-5, secs(3))), Duration::zero());
    assert_eq!(target(app.seek(5, secs(95))), secs(100));
    assert_eq!(target(app.seek(5, Duration::new(95, 1))), Duration::new(99, 750_000_000));
    assert_eq!(target(app.seek(-5, secs(300))), Duration::new(99, 750_000_000));
}

#[test]
fn seeking_back_undoes_seeking_forward() {
    let app = playing(1, 0);
    for start in [Duration::zero(), secs(1), Duration::new(40, 123), secs(95)] {
        let there = target(app.seek(5, start));
        assert_eq!(target(app.seek(-5, there)), start);
    }
}

#[test]
fn seeking_in_tracks_of_unknown_or_zero_length() {
    for length in [None, Some(Duration::zero())] {
        let mut app = App::new(vec![track("a", length)], None, secs(0));
        app.finish_load(0, LoadOutcome::Ready, secs(0));
        assert_eq!(target(app.seek(5, secs(1_000))), secs(1_005));
    }
}

#[test]
fn seeking_needs_a_track() {
    let app = player(1);
    assert!(matches!(app.seek(5, secs(1)), Action::Nothing));
    let mut app = playing(1, 0);
    press_char(&mut app, ' ');
    assert_eq!(target(app.seek(5, secs(1))), secs(6));
}

#[test]
fn seeking_in_tracks_of_less_than_a_quarter_of_a_second() {
    let mut app = App::new(vec![track("a", Some(Duration::from_millis(249)))], None, secs(0));
    app.finish_load(0, LoadOutcome::Ready, secs(0));
    assert!(app.can_seek(5, secs(0)));
    assert_eq!(target(app.seek(5, secs(0))), Duration::zero());
    assert_eq!(target(app.seek(-5, secs(9))), Duration::zero());
    assert_eq!(target(press(&mut app, KeyCode::Right)), Duration::zero());
    let mut app = App::new(vec![track("a", Some(Duration::from_millis(251)))], None, secs(0));
    app.finish_load(0, LoadOutcome::Ready, secs(0));
    assert_eq!(target(app.seek(5, secs(0))), Duration::from_millis(1));
}

#[test]
fn seeks_that_leave_the_range_are_told() {
    let mut app = App::new(vec![track("a", None)], None, secs(0));
    assert!(app.can_seek(5, secs(u64::MAX)));
    app.finish_load(0, LoadOutcome::Ready, secs(0));
    assert!(!app.can_seek(5, secs(u64::MAX)));
    assert!(!app.accepts_key(key(KeyCode::Right), secs(u64::MAX)));
    assert!(app.accepts_key(key(KeyCode::Left), secs(u64::MAX)));
    assert!(app.accepts_key(key(KeyCode::Enter), secs(u64::MAX)));
    assert_eq!(target(app.seek(i64::MIN, secs(7))), Duration::zero());
    let app = playing(1, 0);
    assert!(app.can_seek(5, secs(u64::MAX)));
    assert_eq!(target(app.seek(5, secs(u64::MAX))), Duration::new(99, 750_000_000));
    assert_eq!(target(app.seek(i64::MAX, secs(u64::MAX))), Duration::new(99, 750_000_000));
}

#[test]
fn next_track_does_not_depend_on_the_status() {
    let last_of_three = |repeat| {
        let mut app = player(3);
        app.current = Some(2);
        app.repeat = repeat;
        app
    };
    assert_eq!(last_of_three(RepeatMode::Off).next_index(true), None);
    assert_eq!(last_of_three(RepeatMode::Off).next_index(false), Some(0));
    assert_eq!(last_of_three(RepeatMode::All).next_index(true), Some(0));
    assert_eq!(last_of_three(RepeatMode::One).next_index(true), Some(2));
    assert_eq!(last_of_three(RepeatMode::One).next_index(false), Some(0));
}

#[test]
fn one_draw_of_five() {
    let mut app = player(5);
    app.current = Some(3);
    app.shuffle = true;
    app.rng = 1;
    assert_eq!(app.next_index(true), Some(1));
    assert_eq!(app.rng, 1_082_269_761);
}

#[test]
fn draws_from_the_zero_state() {
    let mut app = player(5);
    app.shuffle = true;
    app.rng = 0;
    assert!(app.has_next_index(false));
    assert_eq!(app.next_index(false), Some(0));
    app.current = Some(0);
    assert!(!app.has_next_index(false));
    assert!(!app.accepts_key(key(KeyCode::Char('n')), secs(0)));
    app.repeat = RepeatMode::One;
    assert!(app.has_next_index(true));
    assert_eq!(app.next_index(true), Some(0));
}

#[test]
fn failed_seeks_are_told() {
    let mut app = playing(1, 0);
    app.finish_seek(true, secs(1));
    assert!(app.message.is_none());
    app.finish_seek(false, secs(1));
    assert_eq!(message(&app), "Seeking is not supported for this file");
}

#[test]
fn track_ends() {
    let mut app = playing(2, 0);
    let early = Duration::from_millis(399);
    assert!(matches!(app.check_track_end(true, early), Action::Nothing));
    assert!(matches!(app.check_track_end(false, secs(9)), Action::Nothing));
    assert_eq!(loaded(app.check_track_end(true, Duration::from_millis(400))), 1);
    app.finish_load(1, LoadOutcome::Ready, secs(10));
    assert!(matches!(app.check_track_end(true, secs(5)), Action::Nothing));
    assert!(matches!(app.check_track_end(true, secs(11)), Action::Nothing));
    assert_eq!(app.status, PlayStatus::Stopped);
    assert_eq!(app.current, None);
    assert_eq!(app.selected, 1);
    assert_eq!(message(&app), "End of playlist");
}

#[test]
fn paused_tracks_do_not_end() {
    let mut app = playing(2, 0);
    press_char(&mut app, ' ');
    assert!(matches!(app.check_track_end(true, secs(99)), Action::Nothing));
    assert_eq!(app.current, Some(0));
}

#[test]
fn repeating_playlists_do_not_end() {
    let mut app = playing(2, 1);
    app.repeat = RepeatMode::All;
    assert_eq!(loaded(app.check_track_end(true, secs(1))), 0);
    app.repeat = RepeatMode::One;
    assert_eq!(loaded(app.check_track_end(true, secs(1))), 1);
}

#[test]
fn quitting() {
    for code in [KeyCode::Char('q'), KeyCode::Esc] {
        let mut app = player(1);
        press(&mut app, code);
        assert!(app.quit);
    }
    let mut app = player(1);
    press_char(&mut app, 'c');
    assert!(!app.quit);
    let control_c = KeyEvent { code: KeyCode::Char('c'), control: true, kind: KeyKind::Press };
    app.handle_event(control_c, secs(0), secs(0));
    assert!(app.quit);
    press_char(&mut app, 'n');
    assert!(app.quit);
}

#[test]
fn keys_that_are_let_go_do_nothing() {
    let mut app = player(1);
    let release = KeyEvent { code: KeyCode::Esc, control: false, kind: KeyKind::Release };
    assert!(matches!(app.handle_event(release, secs(0), secs(0)), Action::Nothing));
    assert!(!app.quit);
    let held = KeyEvent { code: KeyCode::Char('+'), control: false, kind: KeyKind::Repeat };
    app.handle_event(held, secs(0), secs(0));
    assert_eq!(percent(app.volume), 85);
}

#[test]
fn other_keys_do_nothing() {
    let mut app = playing(2, 1);
    for code in [KeyCode::Char('z'), KeyCode::Char('Q'), KeyCode::Other] {
        assert!(matches!(press(&mut app, code), Action::Nothing));
    }
    assert_eq!(app.current, Some(1));
    assert!(app.message.is_none());
}

#[test]
fn seek_keys() {
    let mut app = playing(1, 0);
    assert_eq!(target(press(&mut app, KeyCode::Right)), secs(6));
    assert_eq!(target(press(&mut app, KeyCode::Left)), Duration::zero());
}
