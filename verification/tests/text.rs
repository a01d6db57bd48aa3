use termplayer::duration::Duration;
use termplayer::text::{
    append_decimal, append_decimal2, append_repeated, format_duration, format_length, truncate,
};

#[test]
fn numbers_in_decimal() {
    for n in [0u64, 1, 9, 10, 42, 99, 100, 1_234_567_890, u64::MAX] {
        let mut s = String::from("<");
        append_decimal(&mut s, n);
        assert_eq!(s, format!("<{n}"));
        let mut s = String::from("<");
        append_decimal2(&mut s, n);
        assert_eq!(s, format!("<{n:02}"));
    }
}

#[test]
fn texts_are_repeated() {
    let mut s = String::from("a");
    append_repeated(&mut s, "█ ", 3);
    assert_eq!(s, "a█ █ █ ");
    append_repeated(&mut s, "x", 0);
    assert_eq!(s, "a█ █ █ ");
}

#[test]
fn durations_as_a_clock_shows_them() {
    assert_eq!(format_duration(Duration::zero()), "00:00");
    assert_eq!(format_duration(Duration::new(59, 999_999_999)), "00:59");
    assert_eq!(format_duration(Duration::from_secs(60)), "01:00");
    assert_eq!(format_duration(Duration::from_secs(3_599)), "59:59");
    assert_eq!(format_duration(Duration::from_secs(3_600)), "1:00:00");
    assert_eq!(format_duration(Duration::from_secs(3_725)), "1:02:05");
    assert_eq!(format_duration(Duration::from_secs(360_000)), "100:00:00");
    assert_eq!(format_duration(Duration::from_secs(u64::MAX)), "5124095576030431:00:15");
}

#[test]
fn unknown_lengths_are_dashes() {
    assert_eq!(format_length(None), "--:--");
    assert_eq!(format_length(Some(Duration::from_secs(61))), "01:01");
}

#[test]
fn clock_texts_tell_seconds_apart() {
    let texts: Vec<String> =
        (0..8_000).map(|s| format_duration(Duration::from_secs(s))).collect();
    for i in 1..texts.len() {
        assert_ne!(texts[i - 1], texts[i]);
    }
    let mut sorted = texts.clone();
    sorted.sort();
    sorted.dedup();
    assert_eq!(sorted.len(), texts.len());
}

#[test]
fn long_texts_are_cut() {
    assert_eq!(truncate("hello", 5), "hello");
    assert_eq!(truncate("hello", 9), "hello");
    assert_eq!(truncate("hello", 4), "hel…");
    assert_eq!(truncate("hello", 1), "…");
    assert_eq!(truncate("hello", 0), "");
    assert_eq!(truncate("", 0), "");
    assert_eq!(truncate("سلام دنیا", 5), "سلام…");
    assert_eq!(truncate("日本語のタイトル", 4), "日本語…");
}
