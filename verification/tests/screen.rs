use termplayer::duration::Duration;
use termplayer::layout::Area;
use termplayer::model::RepeatMode;
use termplayer::player::{App, LoadOutcome};
use termplayer::screen::{Color, Panel, StyledText, TextStyle};
use termplayer::track::Track;

fn secs(n: u64) -> Duration {
    Duration::from_secs(n)
}

fn track(title: &str, artist: &str, length: Option<Duration>) -> Track {
    Track {
        path: String::new(),
        title: title.to_string(),
        artist: artist.to_string(),
        duration: length,
    }
}

fn player() -> App {
    let tracks = vec![
        track("First", "", Some(secs(61))),
        track("Second", "Someone", None),
        track("A title that is far too long for a narrow screen", "Nobody", Some(secs(4_000))),
    ];
    App::new(tracks, None, secs(0))
}

fn text(line: &[StyledText]) -> String {
    line.iter().map(|s| s.text.as_str()).collect()
}

fn texts(panel: &Panel) -> Vec<String> {
    panel.lines.iter().map(|l| text(l)).collect()
}

fn style(fg: Option<Color>, bg: Option<Color>, bold: bool) -> TextStyle {
    TextStyle { fg, bg, bold }
}

#[test]
fn header_of_a_stopped_player() {
    let panel = player().render_header();
    assert_eq!(
        texts(&panel),
        [
            " TermPlayer  |  press Enter to start",
            " STOPPED   Vol: 80%  Repeat: off  Shuffle: off",
        ]
    );
    let title = panel.title.as_ref().unwrap();
    assert_eq!(title.text, " Now Playing ");
    assert_eq!(title.style, style(Some(Color::Cyan), None, true));
    assert_eq!(panel.border, style(Some(Color::DarkGray), None, false));
    let styles: Vec<TextStyle> = panel.lines[0].iter().map(|s| s.style).collect();
    assert_eq!(
        styles,
        [
            style(Some(Color::Cyan), None, true),
            style(None, None, false),
            style(None, None, true),
        ]
    );
    assert_eq!(panel.lines[1][0].style, style(Some(Color::White), Some(Color::DarkGray), false));
}

#[test]
fn header_of_a_playing_player() {
    let mut app = player();
    app.finish_load(1, LoadOutcome::Ready, secs(0));
    app.toggle_mute(secs(0));
    app.repeat = RepeatMode::One;
    app.toggle_shuffle(secs(0));
    let panel = app.render_header();
    assert_eq!(
        texts(&panel),
        [
            " TermPlayer  |  Second — Someone",
            " PLAYING   Vol: muted  Repeat: one  Shuffle: on",
        ]
    );
    assert_eq!(panel.lines[1][0].style, style(Some(Color::Black), Some(Color::Green), true));
    app.toggle_pause();
    let panel = app.render_header();
    assert_eq!(panel.lines[1][0].text, " PAUSED ");
    assert_eq!(panel.lines[1][0].style, style(Some(Color::Black), Some(Color::Yellow), true));
}

#[test]
fn playlist_lines() {
    let mut app = player();
    app.finish_load(1, LoadOutcome::Ready, secs(0));
    let panel = app.render_playlist(42);
    assert_eq!(panel.title.as_ref().unwrap().text, " Playlist (3 tracks) ");
    assert_eq!(panel.title.as_ref().unwrap().style, style(Some(Color::Cyan), None, false));
    assert_eq!(
        texts(&panel),
        [
            "  01. First                        01:01",
            "▶ 02. Second — Someone             --:--",
            "  03. A title that is far too …  1:06:40",
        ]
    );
    for line in texts(&panel) {
        assert_eq!(line.chars().count(), 40);
    }
    let styles: Vec<TextStyle> = panel.lines[1].iter().map(|s| s.style).collect();
    assert_eq!(
        styles,
        [
            style(Some(Color::Green), None, true),
            style(Some(Color::DarkGray), None, false),
            style(Some(Color::Green), None, true),
            style(Some(Color::DarkGray), None, false),
        ]
    );
    assert_eq!(panel.lines[0][2].style, style(None, None, false));
}

#[test]
fn playlist_line_of_the_current_track() {
    let mut app = App::new(vec![track("A", "B", Some(secs(65)))], None, secs(0));
    app.current = Some(0);
    let panel = app.render_playlist(30);
    assert_eq!(texts(&panel), [format!("▶ 01. A — B{}01:05", " ".repeat(12))]);
    assert_eq!(texts(&panel)[0].chars().count(), 28);
}

#[test]
fn playlist_lines_of_every_width() {
    let app = player();
    for width in 0..100u16 {
        let inner = width.saturating_sub(2) as usize;
        for (line, base) in texts(&app.render_playlist(width)).iter().zip([11, 11, 13]) {
            assert_eq!(line.chars().count(), inner.max(base + 1));
        }
    }
}

#[test]
fn playlist_lines_in_no_room() {
    let panel = player().render_playlist(0);
    assert_eq!(texts(&panel)[0], "  01.  01:01");
    let panel = player().render_playlist(16);
    assert_eq!(texts(&panel)[0], "  01. …  01:01");
}

#[test]
fn playlist_numbers_have_two_places() {
    let tracks = (0..120).map(|_| track("x", "", None)).collect();
    let panel = App::new(tracks, None, secs(0)).render_playlist(80);
    assert_eq!(panel.lines[8][1].text, "09. ");
    assert_eq!(panel.lines[9][1].text, "10. ");
    assert_eq!(panel.lines[119][1].text, "120. ");
    assert_eq!(panel.title.as_ref().unwrap().text, " Playlist (120 tracks) ");
}

const KEYS: &str = " ↑/↓ select | enter play | space pause | ←/→ seek ±5s | n next | p prev | +/- volume | m mute | r repeat | s shuffle | x stop | q quit";

#[test]
fn footer_of_a_stopped_player() {
    let app = player();
    assert_eq!(app.bar_width(secs(30), 80), 40);
    let panel = app.render_footer(80, secs(30), 17, secs(9));
    assert!(panel.title.is_none());
    assert_eq!(texts(&panel), [format!(" 00:00 {} --:--", "░".repeat(40)), KEYS.to_string()]);
    assert_eq!(panel.lines[1][0].style, style(Some(Color::DarkGray), None, false));
}

#[test]
fn footer_of_a_playing_player() {
    let mut app = player();
    app.finish_load(0, LoadOutcome::Ready, secs(0));
    app.set_message("Hello".to_string(), secs(7));
    assert_eq!(app.bar_width(secs(30), 40), 20);
    let panel = app.render_footer(40, secs(30), 10, secs(9));
    assert_eq!(
        texts(&panel),
        [format!(" 00:30 {}{} 01:01", "█".repeat(10), "░".repeat(10)), " Hello".to_string()]
    );
    let styles: Vec<TextStyle> = panel.lines[0].iter().map(|s| s.style).collect();
    assert_eq!(
        styles,
        [
            style(Some(Color::Green), None, true),
            style(Some(Color::Cyan), None, false),
            style(Some(Color::Green), None, false),
        ]
    );
    assert_eq!(panel.lines[1][0].style, style(Some(Color::Yellow), None, true));
}

#[test]
fn messages_last_three_seconds() {
    let mut app = player();
    app.set_message("Hello".to_string(), secs(7));
    let shown = |now| text(&app.render_footer(80, secs(0), 0, now).lines[1]);
    assert_eq!(shown(secs(6)), " Hello");
    assert_eq!(shown(secs(7)), " Hello");
    assert_eq!(shown(Duration::new(9, 999_999_999)), " Hello");
    assert_eq!(shown(secs(10)), KEYS);
}

#[test]
fn progress_bar_between_its_ends() {
    let mut app = player();
    app.finish_load(0, LoadOutcome::Ready, secs(0));
    let filled = |app: &App, position, scaled| {
        let panel = app.render_footer(200, position, scaled, secs(0));
        let drawn = &panel.lines[0][1].text;
        assert_eq!(drawn.chars().count(), 40);
        drawn.chars().take_while(|c| *c == '█').count()
    };
    assert_eq!(filled(&app, secs(0), 3), 0);
    assert_eq!(filled(&app, secs(1), 1), 1);
    assert_eq!(filled(&app, secs(1), 30), 1);
    assert_eq!(filled(&app, secs(30), 0), 20);
    assert_eq!(filled(&app, secs(60), 400), 39);
    assert_eq!(filled(&app, Duration::new(0, 762_500_000), 0), 0);
    assert_eq!(filled(&app, Duration::new(0, 762_500_000), 1), 1);
    assert_eq!(filled(&app, Duration::new(0, 760_000_000), 1), 0);
    assert_eq!(filled(&app, Duration::new(0, 765_000_000), 0), 1);
    assert_eq!(filled(&app, secs(61), 0), 40);
    assert_eq!(filled(&app, secs(500), 0), 40);
    app.finish_load(1, LoadOutcome::Ready, secs(0));
    assert_eq!(filled(&app, secs(500), 9), 0);
}

#[test]
fn progress_bar_is_the_rounded_ratio() {
    let mut app = player();
    app.finish_load(0, LoadOutcome::Ready, secs(0));
    let mut x = 1u64;
    let mut next = || {
        x ^= x << 13;
        x ^= x >> 7;
        x ^= x << 17;
        x
    };
    for _ in 0..20_000 {
        let total = std::time::Duration::new(next() >> (next() % 64), (next() % 1_000_000_000) as u32);
        let part = next() % 1_000_001;
        let nanos = total.as_nanos() / 1_000_000 * part as u128;
        let played =
            std::time::Duration::new((nanos / 1_000_000_000) as u64, (nanos % 1_000_000_000) as u32);
        app.tracks[0].duration = Some(Duration::new(total.as_secs(), total.subsec_nanos()));
        let position = Duration::new(played.as_secs(), played.subsec_nanos());
        let width = (next() % 100) as u16;
        let columns = app.bar_width(position, width);
        let ratio = if total.as_secs_f64() > 0.0 {
            (played.as_secs_f64() / total.as_secs_f64()).clamp(0.0, 1.0)
        } else {
            0.0
        };
        let scaled = (ratio * columns as f64).round() as usize;
        let panel = app.render_footer(width, position, scaled, secs(0));
        let filled = panel.lines[0][1].text.chars().filter(|c| *c == '█').count();
        assert_eq!(filled, scaled);
    }
}

#[test]
fn progress_bar_never_falls() {
    let mut app = player();
    app.finish_load(0, LoadOutcome::Ready, secs(0));
    let mut last = 0;
    for tenth in 0..700u64 {
        let position = Duration::from_millis(tenth * 100);
        let columns = app.bar_width(position, 80);
        let scaled = (tenth as f64 / 610.0 * columns as f64).round() as usize;
        let panel = app.render_footer(80, position, scaled, secs(0));
        let filled = panel.lines[0][1].text.chars().filter(|c| *c == '█').count();
        assert!(last <= filled && filled <= columns);
        last = filled;
    }
    assert_eq!(last, 40);
}

#[test]
fn progress_bar_has_five_columns_at_least() {
    let app = player();
    assert_eq!(app.bar_width(secs(0), 0), 5);
    assert_eq!(app.bar_width(secs(0), 25), 5);
    assert_eq!(app.bar_width(secs(0), 26), 6);
    assert_eq!(app.bar_width(secs(0), 60), 40);
    assert_eq!(app.bar_width(secs(0), u16::MAX), 40);
}

#[test]
fn whole_screen() {
    let mut app = player();
    app.selected = 2;
    let area = Area { x: 1, y: 2, width: 42, height: 30 };
    let screen = app.ui(area, secs(0), 0, secs(0));
    assert_eq!(screen.areas.header, Area { x: 1, y: 2, width: 42, height: 4 });
    assert_eq!(screen.areas.list, Area { x: 1, y: 6, width: 42, height: 22 });
    assert_eq!(screen.areas.footer, Area { x: 1, y: 28, width: 42, height: 4 });
    assert_eq!(screen.selected, 2);
    assert_eq!(screen.highlight, style(None, Some(Color::DarkGray), true));
    assert_eq!(texts(&screen.header), texts(&app.render_header()));
    assert_eq!(texts(&screen.list), texts(&app.render_playlist(42)));
    assert_eq!(texts(&screen.footer), texts(&app.render_footer(42, secs(0), 0, secs(0))));
}
