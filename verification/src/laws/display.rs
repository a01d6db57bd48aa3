use vstd::prelude::*;

use super::{law_progress_bar_is_in_proportion, law_progress_bar_has_its_width};
use super::{lemma_decimal_not_empty, lemma_repeated_char};
use crate::layout::{Area, ScreenAreas};
use crate::model::{PlayStatus, RepeatMode, State};
use crate::screen::{
    bar, bar_width, entry_padding, filled_columns, footer_model, header_model, label, list_model,
    shown_position, Color, Panel, Span, TextStyle, HELP_TEXT,
};
use crate::text::{clock, clock_or_dashes, decimal, decimal2, repeated};
use crate::volume::volume_percent;

verus! {

/// The number that a text of decimal digits stands for.
pub open spec fn number_of(digits: Seq<char>) -> int
    decreases digits.len(),
{
    if digits.len() == 0 {
        0
    } else {
        10 * number_of(digits.drop_last()) + (digits.last() as int - 48)
    }
}

/// A text of decimal digits.
pub open spec fn is_number(digits: Seq<char>) -> bool {
    &&& digits.len() > 0
    &&& forall|i: int| 0 <= i < digits.len() ==> 48 <= #[trigger] digits[i] as int <= 57
}

/// A number reads back as what it was, and has no zero in front.
pub proof fn law_numbers_read_back(n: nat)
    ensures
        is_number(decimal(n)),
        number_of(decimal(n)) == n,
        n > 0 ==> decimal(n).first() != '0',
        n == 0 ==> decimal(n).len() == 1,
    decreases n,
{
    reveal_with_fuel(number_of, 2);
    if n >= 10 {
        law_numbers_read_back(n / 10);
        assert(decimal(n).drop_last() =~= decimal(n / 10));
        assert(decimal(n).first() == decimal(n / 10).first());
    } else {
        assert(decimal(n).drop_last() =~= Seq::<char>::empty());
    }
}

/// A number in two places or more reads back as what it was, and has a zero in
/// front only where it has one digit.
pub proof fn law_two_places_read_back(n: nat)
    ensures
        is_number(decimal2(n)),
        number_of(decimal2(n)) == n,
        decimal2(n).len() >= 2,
        n >= 10 ==> decimal2(n).first() != '0',
        n < 100 ==> decimal2(n).len() == 2,
{
    law_numbers_read_back(n);
    reveal_with_fuel(number_of, 3);
    if n < 10 {
        assert(decimal2(n).drop_last() =~= seq!['0']);
        assert(seq!['0'].drop_last() =~= Seq::<char>::empty());
    } else {
        lemma_decimal_not_empty(n / 10);
        if n < 100 {
            assert(decimal(n / 10).len() == 1);
        }
    }
}

/// A clock reads back as the time it tells: seconds and minutes in two places,
/// and hours in front from the first hour on.
pub proof fn law_clock_reads_back(hours: nat, minutes: nat, seconds: nat)
    requires
        minutes < 60,
        seconds < 60,
    ensures
        ({
            let text = clock(3600 * hours + 60 * minutes + seconds);
            let n = text.len() as int;
            &&& n >= 5
            &&& n == 5 <==> hours == 0
            &&& text[n - 3] == ':'
            &&& is_number(text.subrange(n - 2, n))
            &&& number_of(text.subrange(n - 2, n)) == seconds
            &&& is_number(text.subrange(n - 5, n - 3))
            &&& number_of(text.subrange(n - 5, n - 3)) == minutes
            &&& hours > 0 ==> {
                &&& n >= 7
                &&& text[n - 6] == ':'
                &&& text.first() != '0'
                &&& is_number(text.take(n - 6))
                &&& number_of(text.take(n - 6)) == hours
            }
        }),
{
    let secs = 3600 * hours + 60 * minutes + seconds;
    let text = clock(secs);
    let n = text.len() as int;
    assert(secs / 3600 == hours);
    assert((secs % 3600) / 60 == minutes);
    assert(secs % 60 == seconds);
    reveal_strlit(":");
    law_numbers_read_back(hours);
    law_two_places_read_back(minutes);
    law_two_places_read_back(seconds);
    assert(text.subrange(n - 2, n) =~= decimal2(seconds));
    assert(text.subrange(n - 5, n - 3) =~= decimal2(minutes));
    if hours > 0 {
        assert(text.take(n - 6) =~= decimal(hours));
        assert(text.first() == decimal(hours).first());
    }
}

/// A length is told as a clock does, without fractions of a second; dashes
/// stand for one that is not known.
pub proof fn law_lengths_are_told(length: Option<nat>)
    ensures
        length matches Some(d) ==> clock_or_dashes(length) == clock(d / 1_000_000_000),
        length is None ==> clock_or_dashes(length) == "--:--"@,
{
}

/// The header names the track that is current, by its title and its artist,
/// whatever is selected. Where none is current it tells how to start.
pub proof fn law_header_names_the_current_track(s: State)
    requires
        s.current matches Some(c) ==> c < s.tracks.len(),
    ensures
        ({
            let line = header_model(s).lines[0];
            let track = s.tracks[s.current->0 as int];
            &&& header_model(s).lines.len() == 2
            &&& line.len() == 3
            &&& line[0].text == " TermPlayer"@
            &&& line[1].text == "  |  "@
            &&& s.current is None ==> line[2].text == "press Enter to start"@
            &&& s.current is Some && track.artist.len() == 0 ==> line[2].text == track.title
            &&& s.current is Some && track.artist.len() > 0 ==> line[2].text == track.title
                + " — "@ + track.artist
        }),
{
}

/// Two players show the same header where the same track is current and the
/// settings are the same: the selection, the rest of the playlist, messages and
/// times do not show in it.
pub proof fn law_header_shows_nothing_else(a: State, b: State)
    requires
        a.current is Some <==> b.current is Some,
        a.current is Some ==> a.tracks[a.current->0 as int] == b.tracks[b.current->0 as int],
        a.status == b.status,
        a.volume == b.volume,
        a.muted == b.muted,
        a.repeat == b.repeat,
        a.shuffle == b.shuffle,
    ensures
        header_model(a) == header_model(b),
{
}

/// Moving the selection leaves the header as it was.
pub proof fn law_header_ignores_the_selection(s: State, delta: int)
    ensures
        header_model(s.move_selection(delta)) == header_model(s),
{
}

/// The second line of the header tells the status, the volume, the repeat mode
/// and whether tracks are shuffled.
pub proof fn law_header_tells_the_settings(s: State)
    ensures
        ({
            let line = header_model(s).lines[1];
            &&& line.len() == 4
            &&& s.status == PlayStatus::Playing ==> line[0].text == " PLAYING "@
            &&& s.status == PlayStatus::Paused ==> line[0].text == " PAUSED "@
            &&& s.status == PlayStatus::Stopped ==> line[0].text == " STOPPED "@
            &&& s.muted ==> line[1].text == "  Vol: muted"@
            &&& !s.muted ==> line[1].text == "  Vol: "@ + decimal(volume_percent(s.volume)) + "%"@
            &&& s.repeat == RepeatMode::Off ==> line[2].text == "  Repeat: off"@
            &&& s.repeat == RepeatMode::All ==> line[2].text == "  Repeat: all"@
            &&& s.repeat == RepeatMode::One ==> line[2].text == "  Repeat: one"@
            &&& s.shuffle ==> line[3].text == "  Shuffle: on"@
            &&& !s.shuffle ==> line[3].text == "  Shuffle: off"@
        }),
{
    reveal_strlit("  Vol: ");
    reveal_strlit("muted");
    reveal_strlit("%");
    reveal_strlit("  Vol: muted");
    reveal_strlit("  Repeat: ");
    reveal_strlit("off");
    reveal_strlit("all");
    reveal_strlit("one");
    reveal_strlit("  Repeat: off");
    reveal_strlit("  Repeat: all");
    reveal_strlit("  Repeat: one");
    reveal_strlit("  Shuffle: ");
    reveal_strlit("on");
    reveal_strlit("  Shuffle: on");
    reveal_strlit("  Shuffle: off");
    assert("  Vol: "@ + "muted"@ =~= "  Vol: muted"@);
    assert("  Vol: "@ + (decimal(volume_percent(s.volume)) + "%"@) =~= "  Vol: "@ + decimal(
        volume_percent(s.volume),
    ) + "%"@);
    assert("  Repeat: "@ + "off"@ =~= "  Repeat: off"@);
    assert("  Repeat: "@ + "all"@ =~= "  Repeat: all"@);
    assert("  Repeat: "@ + "one"@ =~= "  Repeat: one"@);
    assert("  Shuffle: "@ + "on"@ =~= "  Shuffle: on"@);
    assert("  Shuffle: "@ + "off"@ =~= "  Shuffle: off"@);
}

/// The header is drawn in the same colours always, but for the status: green
/// for playing, yellow for paused, and grey for stopped.
pub proof fn law_header_colors(s: State)
    ensures
        ({
            let panel = header_model(s);
            &&& panel.title == Some(
                Span {
                    text: " Now Playing "@,
                    style: TextStyle { fg: Some(Color::Cyan), bg: None, bold: true },
                },
            )
            &&& panel.border == (TextStyle { fg: Some(Color::DarkGray), bg: None, bold: false })
            &&& panel.lines[0][0].style == (TextStyle {
                fg: Some(Color::Cyan),
                bg: None,
                bold: true,
            })
            &&& panel.lines[0][1].style == (TextStyle { fg: None, bg: None, bold: false })
            &&& panel.lines[0][2].style == (TextStyle { fg: None, bg: None, bold: true })
            &&& s.status == PlayStatus::Playing ==> panel.lines[1][0].style == (TextStyle {
                fg: Some(Color::Black),
                bg: Some(Color::Green),
                bold: true,
            })
            &&& s.status == PlayStatus::Paused ==> panel.lines[1][0].style == (TextStyle {
                fg: Some(Color::Black),
                bg: Some(Color::Yellow),
                bold: true,
            })
            &&& s.status == PlayStatus::Stopped ==> panel.lines[1][0].style == (TextStyle {
                fg: Some(Color::White),
                bg: Some(Color::DarkGray),
                bold: false,
            })
            &&& forall|i: int|
                1 <= i < 4 ==> (#[trigger] panel.lines[1][i]).style == (TextStyle {
                    fg: None,
                    bg: None,
                    bold: false,
                })
        }),
{
}

/// The playlist shows every track once, in order, under its number, with a
/// mark in front of the current one only.
pub proof fn law_playlist_shows_every_track(s: State, width: u16, i: int)
    requires
        0 <= i < s.tracks.len() <= usize::MAX,
    ensures
        ({
            let panel = list_model(s, width);
            let line = panel.lines[i];
            let number = line[1].text;
            let n = number.len() as int;
            let current = s.current is Some && s.current->0 == i;
            &&& panel.lines.len() == s.tracks.len()
            &&& line.len() == 4
            &&& current ==> line[0].text == "▶ "@
            &&& !current ==> line[0].text == "  "@
            &&& n >= 4
            &&& i < 99 ==> n == 4
            &&& number[n - 2] == '.' && number[n - 1] == ' '
            &&& is_number(number.take(n - 2))
            &&& number_of(number.take(n - 2)) == i + 1
            &&& i >= 9 ==> number.first() != '0'
        }),
{
    let number = list_model(s, width).lines[i][1].text;
    law_two_places_read_back((i + 1) as nat);
    reveal_strlit(". ");
    assert(number == decimal2((i + 1) as nat) + ". "@);
    assert(number.take(number.len() - 2) =~= decimal2((i + 1) as nat));
    assert(number.first() == decimal2((i + 1) as nat).first());
}

/// A playlist line shows the title of its track, and its artist where it has
/// one. A label for which there is no room is cut, and ends in an ellipsis.
pub proof fn law_playlist_lines_show_the_label(s: State, width: u16, i: int)
    requires
        0 <= i < s.tracks.len() <= usize::MAX,
    ensures
        ({
            let line = list_model(s, width).lines[i];
            let track = s.tracks[i];
            let full = if track.artist.len() == 0 {
                track.title
            } else {
                track.title + " — "@ + track.artist
            };
            let length = match track.duration {
                Some(d) => clock(d / 1_000_000_000),
                None => "--:--"@,
            };
            let room = width - 2 - line[0].text.len() - line[1].text.len() - length.len() - 2;
            let shown = line[2].text;
            &&& full.len() <= room ==> shown == full
            &&& full.len() > room > 0 ==> {
                &&& shown.len() == room
                &&& shown.last() == '…'
                &&& shown.drop_last() == full.take(room - 1)
            }
            &&& room <= 0 ==> shown.len() == 0
        }),
{
    let line = list_model(s, width).lines[i];
    let track = s.tracks[i];
    let full = label(track);
    let length = clock_or_dashes(track.duration);
    reveal_strlit("…");
    let room = width - 2 - line[0].text.len() - line[1].text.len() - length.len() - 2;
    if full.len() > room > 0 {
        assert(line[2].text.drop_last() =~= full.take(room - 1));
    }
    if room <= 0 {
        assert(line[2].text =~= Seq::<char>::empty());
    }
}

/// A playlist line ends in the length of its track, with one space or more in
/// front and nothing else.
pub proof fn law_playlist_lines_end_in_the_length(s: State, width: u16, i: int)
    requires
        0 <= i < s.tracks.len() <= usize::MAX,
    ensures
        ({
            let text = list_model(s, width).lines[i][3].text;
            let length = match s.tracks[i].duration {
                Some(d) => clock(d / 1_000_000_000),
                None => "--:--"@,
            };
            let n = text.len() - length.len();
            &&& n >= 1
            &&& text.skip(n) == length
            &&& forall|k: int| 0 <= k < n ==> #[trigger] text[k] == ' '
        }),
{
    let is_current = s.current == Some(i as usize);
    let padding = entry_padding(
        i as nat,
        s.tracks[i],
        is_current,
        crate::screen::inner_width(width),
    );
    let length = clock_or_dashes(s.tracks[i].duration);
    let text = list_model(s, width).lines[i][3].text;
    reveal_strlit(" ");
    lemma_repeated_char(" "@, padding);
    assert(text == repeated(" "@, padding) + length);
    assert(text.skip(padding as int) =~= length);
}

/// The current track stands out in the playlist in bold green; the others are
/// drawn plainly. The title counts the tracks. The selection changes none of
/// this.
pub proof fn law_playlist_colors(s: State, width: u16, i: int, selected: usize)
    requires
        0 <= i < s.tracks.len() <= usize::MAX,
    ensures
        ({
            let panel = list_model(s, width);
            let line = panel.lines[i];
            let current = s.current is Some && s.current->0 == i;
            &&& panel.title == Some(
                Span {
                    text: " Playlist ("@ + decimal(s.tracks.len()) + " tracks) "@,
                    style: TextStyle { fg: Some(Color::Cyan), bg: None, bold: false },
                },
            )
            &&& panel.border == (TextStyle { fg: Some(Color::DarkGray), bg: None, bold: false })
            &&& line[0].style == (TextStyle { fg: Some(Color::Green), bg: None, bold: true })
            &&& line[1].style == (TextStyle { fg: Some(Color::DarkGray), bg: None, bold: false })
            &&& current ==> line[2].style == (TextStyle {
                fg: Some(Color::Green),
                bg: None,
                bold: true,
            })
            &&& !current ==> line[2].style == (TextStyle { fg: None, bg: None, bold: false })
            &&& line[3].style == (TextStyle { fg: Some(Color::DarkGray), bg: None, bold: false })
            &&& list_model(State { selected, ..s }, width).lines[i] == line
        }),
{
}

/// The footer tells how far the track has played and how long it is, with the
/// progress bar between. When stopped, nothing has played.
pub proof fn law_footer_tells_the_times(
    s: State,
    width: u16,
    position: nat,
    scaled: nat,
    now: nat,
)
    requires
        s.current matches Some(c) ==> c < s.tracks.len(),
    ensures
        ({
            let panel = footer_model(s, width, position, scaled, now);
            let line = panel.lines[0];
            let length = match s.current {
                Some(c) => s.tracks[c as int].duration,
                None => None,
            };
            &&& panel.lines.len() == 2
            &&& line.len() == 3
            &&& s.status != PlayStatus::Stopped ==> line[0].text == " "@ + clock(
                position / 1_000_000_000,
            ) + " "@
            &&& s.status == PlayStatus::Stopped ==> line[0].text == " 00:00 "@
            &&& length is Some ==> line[2].text == " "@ + clock(length->0 / 1_000_000_000)
            &&& length is None ==> line[2].text == " --:--"@
            &&& shown_position(s, position) == if s.status == PlayStatus::Stopped {
                0
            } else {
                position
            }
        }),
{
    reveal_strlit(" ");
    reveal_strlit(":");
    reveal_strlit("--:--");
    reveal_strlit(" --:--");
    reveal_strlit(" 00:00 ");
    assert(" "@ + "--:--"@ =~= " --:--"@);
    assert(clock(0) =~= seq!['0', '0', ':', '0', '0']);
    assert(" "@ + clock(0) + " "@ =~= " 00:00 "@);
}

/// The progress bar fills the panel beside the times, within 5 and 40 columns.
pub proof fn law_progress_bar_fills_the_panel(
    s: State,
    width: u16,
    position: nat,
    scaled: nat,
    now: nat,
)
    ensures
        ({
            let line = footer_model(s, width, position, scaled, now).lines[0];
            let columns = line[1].text.len();
            let times = line[0].text.len() - 2 + line[2].text.len() - 1;
            &&& columns == bar_width(s, position, width)
            &&& 5 <= columns <= 40
            &&& 5 < columns < 40 ==> columns + times + 8 == width - 2
            &&& columns == 5 ==> times + 13 >= width - 2
            &&& columns == 40 ==> times + 48 <= width - 2
        }),
{
    reveal_strlit(" ");
    let length = s.current_length();
    law_progress_bar_has_its_width(
        s,
        position,
        width,
        shown_position(s, position),
        length,
        scaled,
    );
}

/// A column of the progress bar is filled where the track has played past its
/// middle, to within a thousandth of a column. Nothing is filled when stopped
/// or where the length is not known, and all is at the end of the track.
pub proof fn law_progress_bar_shows_the_played_part(
    s: State,
    width: u16,
    position: nat,
    scaled: nat,
    now: nat,
    i: int,
)
    requires
        s.current matches Some(c) ==> c < s.tracks.len(),
        0 <= i < footer_model(s, width, position, scaled, now).lines[0][1].text.len(),
    ensures
        ({
            let text = footer_model(s, width, position, scaled, now).lines[0][1].text;
            let columns = text.len();
            let length = match s.current {
                Some(c) => s.tracks[c as int].duration,
                None => None,
            };
            let known = length is Some && length->0 > 0;
            let total = length->0;
            &&& text[i] == '█' || text[i] == '░'
            &&& !known || s.status == PlayStatus::Stopped ==> text[i] == '░'
            &&& known && s.status != PlayStatus::Stopped && position >= total ==> text[i] == '█'
            &&& known && s.status != PlayStatus::Stopped && position < total && text[i] == '█'
                ==> 1024 * ((i + 1) * total - position * columns) <= 513 * total
            &&& known && s.status != PlayStatus::Stopped && position < total && text[i] == '░'
                ==> 1024 * (position * columns - i * total) <= 513 * total
        }),
{
    let columns = bar_width(s, position, width);
    let length = s.current_length();
    let played = shown_position(s, position);
    let filled = filled_columns(played, length, columns, scaled);
    let text = footer_model(s, width, position, scaled, now).lines[0][1].text;
    law_progress_bar_has_its_width(s, position, width, played, length, scaled);
    super::law_progress_bar_at_its_ends(s, position, columns, scaled);
    assert(text == bar(filled, columns));
    if length is Some && 0 < length->0 && played < length->0 {
        let total = length->0;
        law_progress_bar_is_in_proportion(played, total, columns, scaled);
        if i < filled {
            assert((i + 1) * total <= filled * total) by (nonlinear_arith)
                requires
                    i + 1 <= filled,
                    total > 0,
            ;
        } else {
            assert(filled * total <= i * total) by (nonlinear_arith)
                requires
                    filled <= i,
                    total > 0,
            ;
        }
    }
}

/// The lower line of the footer shows a message until three seconds after it
/// was set, in bold yellow, and the list of keys otherwise.
pub proof fn law_footer_shows_messages(
    s: State,
    width: u16,
    position: nat,
    scaled: nat,
    now: nat,
)
    ensures
        ({
            let panel = footer_model(s, width, position, scaled, now);
            let line = panel.lines[1];
            &&& line.len() == 1
            &&& match s.message {
                Some((text, at)) => if now < at + 3_000_000_000 {
                    &&& line[0].text == " "@ + text
                    &&& line[0].style == (TextStyle {
                        fg: Some(Color::Yellow),
                        bg: None,
                        bold: true,
                    })
                } else {
                    &&& line[0].text == " "@ + HELP_TEXT@
                    &&& line[0].style == (TextStyle {
                        fg: Some(Color::DarkGray),
                        bg: None,
                        bold: false,
                    })
                },
                None => {
                    &&& line[0].text == " "@ + HELP_TEXT@
                    &&& line[0].style == (TextStyle {
                        fg: Some(Color::DarkGray),
                        bg: None,
                        bold: false,
                    })
                },
            }
            &&& panel.title is None
            &&& panel.border == (TextStyle { fg: Some(Color::DarkGray), bg: None, bold: false })
            &&& panel.lines[0][0].style == (TextStyle {
                fg: Some(Color::Green),
                bg: None,
                bold: true,
            })
            &&& panel.lines[0][1].style == (TextStyle {
                fg: Some(Color::Cyan),
                bg: None,
                bold: false,
            })
            &&& panel.lines[0][2].style == (TextStyle {
                fg: Some(Color::Green),
                bg: None,
                bold: false,
            })
        }),
{
}

/// The selected entry is drawn in bold letters on grey.
pub proof fn law_selected_entry_is_highlighted()
    ensures
        crate::screen::highlight_style() == (TextStyle {
            fg: None,
            bg: Some(Color::DarkGray),
            bold: true,
        }),
{
}

/// A screen of twelve rows or more has four rows for the header at its top,
/// four for the footer at its bottom, and the rest between for the list.
pub proof fn law_parts_of_a_high_screen(areas: ScreenAreas, screen: Area)
    requires
        areas.fit(screen),
        screen.height >= 12,
        screen.y + screen.height <= 65_535,
    ensures
        areas.header == (Area { x: screen.x, y: screen.y, width: screen.width, height: 4 }),
        areas.list == (Area {
            x: screen.x,
            y: (screen.y + 4) as u16,
            width: screen.width,
            height: (screen.height - 8) as u16,
        }),
        areas.footer == (Area {
            x: screen.x,
            y: (screen.y + screen.height - 4) as u16,
            width: screen.width,
            height: 4,
        }),
{
}

/// On a low screen the list has four rows as far as there are any, and the
/// parts lie one below the other and leave no row over.
pub proof fn law_parts_of_a_low_screen(areas: ScreenAreas, screen: Area)
    requires
        areas.fit(screen),
        screen.height < 12,
        screen.y + screen.height <= 65_535,
    ensures
        screen.height >= 4 ==> areas.list.height == 4,
        screen.height < 4 ==> areas.list.height == screen.height,
        areas.header.height <= 4,
        areas.footer.height <= 4,
        areas.header.y == screen.y,
        areas.list.y == areas.header.y + areas.header.height,
        areas.footer.y == areas.list.y + areas.list.height,
        areas.header.height + areas.list.height + areas.footer.height == screen.height,
        areas.header.x == screen.x && areas.list.x == screen.x && areas.footer.x == screen.x,
        areas.header.width == screen.width && areas.list.width == screen.width
            && areas.footer.width == screen.width,
{
}

/// The view of a panel shows its texts and styles as they are.
pub proof fn law_view_of_a_panel(panel: Panel, i: int, j: int)
    requires
        0 <= i < panel.lines@.len(),
        0 <= j < panel.lines@[i]@.len(),
    ensures
        panel@.lines.len() == panel.lines@.len(),
        panel@.lines[i].len() == panel.lines@[i]@.len(),
        panel@.lines[i][j].text == panel.lines@[i]@[j].text@,
        panel@.lines[i][j].style == panel.lines@[i]@[j].style,
        panel@.border == panel.border,
        panel@.title is Some <==> panel.title is Some,
        panel.title matches Some(t) ==> panel@.title == Some(
            Span { text: t.text@, style: t.style },
        ),
{
}

} // verus!
