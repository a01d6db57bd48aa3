use vstd::arithmetic::div_mod::lemma_small_mod;
use vstd::prelude::*;

use crate::duration::{longest, second, Duration};
use crate::layout::{screen_areas, Area, ScreenAreas};
use crate::model::{clamped, elapsed, repeat_label, switch_label, PlayStatus, State};
use crate::player::{repeat_name, switch_name, App};
use crate::text::{
    append_decimal, append_decimal2, append_repeated, clock, clock_or_dashes, decimal, decimal2,
    format_duration, format_length, join, lemma_decimal_len, repeated, truncate, truncated,
};
use crate::track::{optional_nanos, Track, TrackModel};
use crate::volume::{percent, volume_percent};

verus! {

#[derive(Clone, Copy, Debug, PartialEq, Eq, Structural)]
pub enum Color {
    Black,
    Cyan,
    DarkGray,
    Green,
    White,
    Yellow,
}

/// How a text is drawn. What is not given is left to the terminal.
#[derive(Clone, Copy, Debug, PartialEq, Eq, Structural)]
pub struct TextStyle {
    pub fg: Option<Color>,
    pub bg: Option<Color>,
    pub bold: bool,
}

/// A text and how it is drawn.
pub struct StyledText {
    pub text: String,
    pub style: TextStyle,
}

/// A framed box of text lines.
pub struct Panel {
    pub title: Option<StyledText>,
    pub border: TextStyle,
    pub lines: Vec<Vec<StyledText>>,
}

/// Everything that is drawn, and where. In the list the line `selected` is
/// drawn with the style `highlight` over its own.
pub struct Screen {
    pub areas: ScreenAreas,
    pub header: Panel,
    pub list: Panel,
    pub selected: usize,
    pub highlight: TextStyle,
    pub footer: Panel,
}

/// The view of a styled text.
#[verifier::ext_equal]
pub struct Span {
    pub text: Seq<char>,
    pub style: TextStyle,
}

/// The view of a panel.
#[verifier::ext_equal]
pub struct PanelModel {
    pub title: Option<Span>,
    pub border: TextStyle,
    pub lines: Seq<Seq<Span>>,
}

impl View for StyledText {
    type V = Span;

    open spec fn view(&self) -> Span {
        Span { text: self.text@, style: self.style }
    }
}

/// The view of a line.
pub open spec fn line_model(line: Seq<StyledText>) -> Seq<Span> {
    line.map_values(|s: StyledText| s@)
}

/// The view of a list of lines.
pub open spec fn lines_model(lines: Seq<Vec<StyledText>>) -> Seq<Seq<Span>> {
    lines.map_values(|l: Vec<StyledText>| line_model(l@))
}

impl View for Panel {
    type V = PanelModel;

    open spec fn view(&self) -> PanelModel {
        PanelModel {
            title: match self.title {
                Some(t) => Some(t@),
                None => None,
            },
            border: self.border,
            lines: lines_model(self.lines@),
        }
    }
}

/// The style of a text that is drawn as the terminal does by itself.
pub open spec fn plain_style() -> TextStyle {
    TextStyle { fg: None, bg: None, bold: false }
}

/// A style with a text colour.
pub open spec fn colored(fg: Color) -> TextStyle {
    TextStyle { fg: Some(fg), bg: None, bold: false }
}

/// A style with bold letters in a text colour.
pub open spec fn bold_colored(fg: Color) -> TextStyle {
    TextStyle { fg: Some(fg), bg: None, bold: true }
}

/// The title of a track, followed by its artist where it has one.
pub open spec fn label(track: TrackModel) -> Seq<char> {
    if track.artist.len() == 0 {
        track.title
    } else {
        track.title + " — "@ + track.artist
    }
}

/// The text that tells what is played.
pub open spec fn now_playing(s: State) -> Seq<char> {
    match s.current {
        Some(index) => label(s.tracks[index as int]),
        None => "press Enter to start"@,
    }
}

/// The text and the style that tell the status.
pub open spec fn badge(status: PlayStatus) -> Span {
    match status {
        PlayStatus::Playing => Span {
            text: " PLAYING "@,
            style: TextStyle { fg: Some(Color::Black), bg: Some(Color::Green), bold: true },
        },
        PlayStatus::Paused => Span {
            text: " PAUSED "@,
            style: TextStyle { fg: Some(Color::Black), bg: Some(Color::Yellow), bold: true },
        },
        PlayStatus::Stopped => Span {
            text: " STOPPED "@,
            style: TextStyle { fg: Some(Color::White), bg: Some(Color::DarkGray), bold: false },
        },
    }
}

/// The text that tells the volume.
pub open spec fn volume_label(s: State) -> Seq<char> {
    if s.muted {
        "muted"@
    } else {
        decimal(volume_percent(s.volume)) + "%"@
    }
}

/// The header: what is played, and the settings.
pub open spec fn header_model(s: State) -> PanelModel {
    PanelModel {
        title: Some(Span { text: " Now Playing "@, style: bold_colored(Color::Cyan) }),
        border: colored(Color::DarkGray),
        lines: seq![
            seq![
                Span { text: " TermPlayer"@, style: bold_colored(Color::Cyan) },
                Span { text: "  |  "@, style: plain_style() },
                Span {
                    text: now_playing(s),
                    style: TextStyle { fg: None, bg: None, bold: true },
                },
            ],
            seq![
                badge(s.status),
                Span { text: "  Vol: "@ + volume_label(s), style: plain_style() },
                Span { text: "  Repeat: "@ + repeat_label(s.repeat), style: plain_style() },
                Span { text: "  Shuffle: "@ + switch_label(s.shuffle), style: plain_style() },
            ],
        ],
    }
}

/// `x - y`, or zero where `y` is larger.
pub open spec fn monus(x: nat, y: nat) -> nat {
    if x >= y {
        (x - y) as nat
    } else {
        0
    }
}

/// The mark in front of a playlist entry.
pub open spec fn marker(is_current: bool) -> Seq<char> {
    if is_current {
        "▶ "@
    } else {
        "  "@
    }
}

/// The number in front of a playlist entry.
pub open spec fn entry_number(index: nat) -> Seq<char> {
    decimal2(index + 1) + ". "@
}

/// The columns that an entry needs besides its label.
pub open spec fn entry_base(index: nat, track: TrackModel, is_current: bool) -> nat {
    marker(is_current).len() + entry_number(index).len() + clock_or_dashes(track.duration).len()
}

/// The label of an entry, cut to leave two columns before the length.
pub open spec fn entry_label(
    index: nat,
    track: TrackModel,
    is_current: bool,
    inner_width: nat,
) -> Seq<char> {
    truncated(label(track), monus(inner_width, entry_base(index, track, is_current) + 2))
}

/// The columns between the label and the length: what is left, one at least.
pub open spec fn entry_padding(
    index: nat,
    track: TrackModel,
    is_current: bool,
    inner_width: nat,
) -> nat {
    let free = monus(
        inner_width,
        entry_base(index, track, is_current) + entry_label(
            index,
            track,
            is_current,
            inner_width,
        ).len(),
    );
    if free >= 1 {
        free
    } else {
        1
    }
}

/// A playlist entry: its mark, its number, its label, and its length at the
/// right end.
pub open spec fn entry_line(
    index: nat,
    track: TrackModel,
    is_current: bool,
    inner_width: nat,
) -> Seq<Span> {
    seq![
        Span { text: marker(is_current), style: bold_colored(Color::Green) },
        Span { text: entry_number(index), style: colored(Color::DarkGray) },
        Span {
            text: entry_label(index, track, is_current, inner_width),
            style: if is_current {
                bold_colored(Color::Green)
            } else {
                plain_style()
            },
        },
        Span {
            text: repeated(" "@, entry_padding(index, track, is_current, inner_width))
                + clock_or_dashes(track.duration),
            style: colored(Color::DarkGray),
        },
    ]
}

/// The columns inside the frame of a panel of this width.
pub open spec fn inner_width(width: u16) -> nat {
    monus(width as nat, 2)
}

/// The playlist in a panel of this width.
pub open spec fn list_model(s: State, width: u16) -> PanelModel {
    PanelModel {
        title: Some(
            Span {
                text: " Playlist ("@ + decimal(s.tracks.len()) + " tracks) "@,
                style: colored(Color::Cyan),
            },
        ),
        border: colored(Color::DarkGray),
        lines: Seq::new(
            s.tracks.len(),
            |i: int|
                entry_line(
                    i as nat,
                    s.tracks[i],
                    s.current == Some(i as usize),
                    inner_width(width),
                ),
        ),
    }
}

/// The style of the selected playlist entry.
pub open spec fn highlight_style() -> TextStyle {
    TextStyle { fg: None, bg: Some(Color::DarkGray), bold: true }
}

/// How far the current track has played; zero when stopped.
pub open spec fn shown_position(s: State, position: nat) -> nat {
    if s.is_active() {
        position
    } else {
        0
    }
}

/// The columns of the progress bar in a panel of this width, between 5 and 40.
pub open spec fn bar_width(s: State, position: nat, width: u16) -> nat {
    let texts = clock(shown_position(s, position) / second()).len() + clock_or_dashes(
        s.current_length(),
    ).len();
    clamped(monus(inner_width(width), texts + 8) as int, 5, 40) as nat
}

/// The columns that a part of `total` fills, where `product` is that part
/// times the columns of the bar: the nearest number of columns. Within a
/// thousandth of the middle of a column, `scaled` decides.
pub open spec fn nearest_columns(product: nat, total: nat, scaled: nat) -> nat {
    let full = product / total;
    let rest = product % total;
    if 1024 * rest < 511 * total {
        full
    } else if 1024 * rest > 513 * total {
        full + 1
    } else if scaled <= full {
        full
    } else {
        full + 1
    }
}

/// The filled columns of a progress bar of `width` columns. `scaled` is the
/// played part of the track, in columns. A track of unknown or zero length
/// fills nothing, and one that has played to its end fills all.
pub open spec fn filled_columns(played: nat, total: Option<nat>, width: nat, scaled: nat) -> nat {
    match total {
        Some(total) => if total == 0 {
            0
        } else if played >= total {
            width
        } else {
            nearest_columns(played * width, total, scaled)
        },
        None => 0,
    }
}

/// A track that has not played to its end fills no more columns than there are.
pub proof fn lemma_columns(played: nat, total: nat, width: nat, scaled: nat)
    requires
        played < total,
    ensures
        nearest_columns(played * width, total, scaled) <= width,
        width > 0 ==> played * width / total < width,
{
    let product = played * width;
    if width > 0 {
        assert(product / total < width) by (nonlinear_arith)
            requires
                product == played * width,
                played < total,
                width > 0,
        ;
    } else {
        assert(product == 0) by (nonlinear_arith)
            requires
                product == played * width,
                width == 0,
        ;
        lemma_small_mod(0, total);
        assert(0nat / total == 0) by (nonlinear_arith)
            requires
                total > 0,
        ;
    }
}

/// A progress bar.
pub open spec fn bar(filled: nat, width: nat) -> Seq<char> {
    repeated("█"@, filled) + repeated("░"@, (width - filled) as nat)
}

/// The list of keys.
pub const HELP_TEXT: &'static str =
    "↑/↓ select | enter play | space pause | ←/→ seek ±5s | n next | p prev | +/- volume | m mute | r repeat | s shuffle | x stop | q quit";

/// The lower line of the footer: a message for three seconds, else the keys.
pub open spec fn info_span(s: State, now: nat) -> Span {
    match s.message {
        Some((text, at)) => if elapsed(at, now) < 3 * second() {
            Span { text: " "@ + text, style: bold_colored(Color::Yellow) }
        } else {
            Span { text: " "@ + HELP_TEXT@, style: colored(Color::DarkGray) }
        },
        None => Span { text: " "@ + HELP_TEXT@, style: colored(Color::DarkGray) },
    }
}

/// The footer in a panel of this width.
pub open spec fn footer_model(
    s: State,
    width: u16,
    position: nat,
    scaled: nat,
    now: nat,
) -> PanelModel {
    let played = shown_position(s, position);
    let columns = bar_width(s, position, width);
    PanelModel {
        title: None,
        border: colored(Color::DarkGray),
        lines: seq![
            seq![
                Span {
                    text: " "@ + clock(played / second()) + " "@,
                    style: bold_colored(Color::Green),
                },
                Span {
                    text: bar(
                        filled_columns(played, s.current_length(), columns, scaled),
                        columns,
                    ),
                    style: colored(Color::Cyan),
                },
                Span {
                    text: " "@ + clock_or_dashes(s.current_length()),
                    style: colored(Color::Green),
                },
            ],
            seq![info_span(s, now)],
        ],
    }
}

fn plain() -> (style: TextStyle)
    ensures
        style == plain_style(),
{
    TextStyle { fg: None, bg: None, bold: false }
}

fn in_color(fg: Color) -> (style: TextStyle)
    ensures
        style == colored(fg),
{
    TextStyle { fg: Some(fg), bg: None, bold: false }
}

fn in_bold_color(fg: Color) -> (style: TextStyle)
    ensures
        style == bold_colored(fg),
{
    TextStyle { fg: Some(fg), bg: None, bold: true }
}

fn span(text: String, style: TextStyle) -> (span: StyledText)
    ensures
        span@ == (Span { text: text@, style }),
{
    StyledText { text, style }
}

/// The title of a track, followed by its artist where it has one.
fn track_label(track: &Track) -> (text: String)
    ensures
        text@ == label(track@),
{
    if track.artist.as_str().is_empty() {
        track.title.clone()
    } else {
        let mut text = join(track.title.as_str(), " — ");
        text.append(track.artist.as_str());
        text
    }
}

/// One line of the playlist.
fn playlist_entry(index: usize, track: &Track, is_current: bool, inner: usize) -> (line: Vec<
    StyledText,
>)
    requires
        index < usize::MAX,
        inner <= u16::MAX,
    ensures
        line_model(line@) == entry_line(index as nat, track@, is_current, inner as nat),
{
    let mark = if is_current {
        "▶ "
    } else {
        "  "
    };
    let mut number = String::new();
    append_decimal2(&mut number, (index + 1) as u64);
    number.append(". ");
    assert(number@ =~= entry_number(index as nat));
    let full = track_label(track);
    let length = format_length(track.duration);
    proof {
        reveal_strlit("▶ ");
        reveal_strlit("  ");
        reveal_strlit(". ");
        lemma_decimal_len((index + 1) as nat);
    }
    let base: usize = mark.unicode_len() + number.as_str().unicode_len()
        + length.as_str().unicode_len();
    let text = truncate(full.as_str(), inner.saturating_sub(base + 2));
    let columns: usize = text.as_str().unicode_len();
    proof {
        reveal_strlit("…");
    }
    let free: usize = inner.saturating_sub(base + columns);
    let padding: usize = if free >= 1 {
        free
    } else {
        1
    };
    let mut end = String::new();
    append_repeated(&mut end, " ", padding);
    end.append(length.as_str());
    let style = if is_current {
        in_bold_color(Color::Green)
    } else {
        plain()
    };
    let line = vec![
        span(mark.to_owned(), in_bold_color(Color::Green)),
        span(number, in_color(Color::DarkGray)),
        span(text, style),
        span(end, in_color(Color::DarkGray)),
    ];
    assert(line_model(line@) =~= entry_line(index as nat, track@, is_current, inner as nat));
    line
}

impl App {
    /// The header: what is played, and the settings.
    pub fn render_header(&self) -> (panel: Panel)
        requires
            self@.current_in_range(),
        ensures
            panel@ == header_model(self@),
    {
        let playing = match self.current {
            Some(index) => track_label(&self.tracks[index]),
            None => "press Enter to start".to_owned(),
        };
        let status = match self.status {
            PlayStatus::Playing => span(
                " PLAYING ".to_owned(),
                TextStyle { fg: Some(Color::Black), bg: Some(Color::Green), bold: true },
            ),
            PlayStatus::Paused => span(
                " PAUSED ".to_owned(),
                TextStyle { fg: Some(Color::Black), bg: Some(Color::Yellow), bold: true },
            ),
            PlayStatus::Stopped => span(
                " STOPPED ".to_owned(),
                TextStyle { fg: Some(Color::White), bg: Some(Color::DarkGray), bold: false },
            ),
        };
        let mut volume = "  Vol: ".to_owned();
        if self.muted {
            volume.append("muted");
        } else {
            append_decimal(&mut volume, percent(self.volume) as u64);
            volume.append("%");
        }
        assert(volume@ =~= "  Vol: "@ + volume_label(self@));
        let title_line = vec![
            span(" TermPlayer".to_owned(), in_bold_color(Color::Cyan)),
            span("  |  ".to_owned(), plain()),
            span(playing, TextStyle { fg: None, bg: None, bold: true }),
        ];
        let info_line = vec![
            status,
            span(volume, plain()),
            span(join("  Repeat: ", repeat_name(self.repeat)), plain()),
            span(join("  Shuffle: ", switch_name(self.shuffle)), plain()),
        ];
        let ghost model = header_model(self@);
        assert(line_model(title_line@) =~= model.lines[0]);
        assert(line_model(info_line@) =~= model.lines[1]);
        let panel = Panel {
            title: Some(span(" Now Playing ".to_owned(), in_bold_color(Color::Cyan))),
            border: in_color(Color::DarkGray),
            lines: vec![title_line, info_line],
        };
        assert(panel@.lines =~= model.lines);
        panel
    }

    /// The playlist, in a panel of `width` columns.
    pub fn render_playlist(&self, width: u16) -> (panel: Panel)
        ensures
            panel@ == list_model(self@, width),
    {
        let inner: usize = width.saturating_sub(2) as usize;
        let len: usize = self.tracks.len();
        let ghost model = list_model(self@, width);
        let mut lines: Vec<Vec<StyledText>> = Vec::new();
        let mut index: usize = 0;
        while index < len
            invariant
                index <= len,
                len == self.tracks@.len(),
                inner == inner_width(width),
                model == list_model(self@, width),
                lines@.len() == index,
                forall|i: int|
                    0 <= i < index ==> line_model((#[trigger] lines@[i])@) == model.lines[i],
            decreases len - index,
        {
            let is_current = match self.current {
                Some(c) => c == index,
                None => false,
            };
            assert(is_current == (self@.current == Some(index)));
            let line = playlist_entry(index, &self.tracks[index], is_current, inner);
            lines.push(line);
            index = index + 1;
        }
        let mut title = " Playlist (".to_owned();
        append_decimal(&mut title, len as u64);
        title.append(" tracks) ");
        let panel = Panel {
            title: Some(span(title, in_color(Color::Cyan))),
            border: in_color(Color::DarkGray),
            lines,
        };
        assert(panel@.lines =~= model.lines);
        panel
    }

    /// How far the current track has played; zero when stopped.
    pub fn shown_position(&self, position: Duration) -> (shown: Duration)
        ensures
            shown@ == shown_position(self@, position@),
    {
        if self.is_active() {
            position
        } else {
            Duration::zero()
        }
    }

    /// The columns of the progress bar, in a panel of `width` columns.
    pub fn bar_width(&self, position: Duration, width: u16) -> (columns: usize)
        requires
            self@.current_in_range(),
        ensures
            columns as nat == bar_width(self@, position@, width),
    {
        let played = format_duration(self.shown_position(position));
        let total = format_length(self.current_length());
        let texts: usize = played.as_str().unicode_len() + total.as_str().unicode_len();
        let free: usize = (width.saturating_sub(2) as usize).saturating_sub(texts + 8);
        if free < 5 {
            5
        } else if free > 40 {
            40
        } else {
            free
        }
    }

    /// The footer, in a panel of `width` columns: how far the current track
    /// has played, and a message or the keys. `scaled` is the played part of
    /// the track, in columns of the progress bar.
    pub fn render_footer(
        &self,
        width: u16,
        position: Duration,
        scaled: usize,
        now: Duration,
    ) -> (panel: Panel)
        requires
            self@.current_in_range(),
        ensures
            panel@ == footer_model(self@, width, position@, scaled as nat, now@),
    {
        let played = self.shown_position(position);
        let total = self.current_length();
        let columns: usize = self.bar_width(position, width);
        let filled: usize = fill_columns(played, total, columns, scaled);
        let mut clock_text = join(" ", format_duration(played).as_str());
        clock_text.append(" ");
        let mut bar_text = String::new();
        append_repeated(&mut bar_text, "█", filled);
        append_repeated(&mut bar_text, "░", columns - filled);
        assert(bar_text@ =~= bar(filled as nat, columns as nat));
        let progress_line = vec![
            span(clock_text, in_bold_color(Color::Green)),
            span(bar_text, in_color(Color::Cyan)),
            span(join(" ", format_length(total).as_str()), in_color(Color::Green)),
        ];
        let info_line = vec![self.info(now)];
        let ghost model = footer_model(self@, width, position@, scaled as nat, now@);
        assert(line_model(progress_line@) =~= model.lines[0]);
        assert(line_model(info_line@) =~= model.lines[1]);
        let panel = Panel {
            title: None,
            border: in_color(Color::DarkGray),
            lines: vec![progress_line, info_line],
        };
        assert(panel@.lines =~= model.lines);
        panel
    }

    /// The message that is shown, or the list of keys.
    fn info(&self, now: Duration) -> (info: StyledText)
        ensures
            info@ == info_span(self@, now@),
    {
        match &self.message {
            Some(message) => {
                if now.saturating_sub(message.at).is_less_than(Duration::from_secs(3)) {
                    return span(join(" ", message.text.as_str()), in_bold_color(Color::Yellow));
                }
            },
            None => {},
        }
        span(join(" ", HELP_TEXT), in_color(Color::DarkGray))
    }

    /// What is drawn in the given parts of the screen.
    pub fn compose(
        &self,
        areas: ScreenAreas,
        position: Duration,
        scaled: usize,
        now: Duration,
    ) -> (screen: Screen)
        requires
            self@.current_in_range(),
        ensures
            screen.areas == areas,
            screen.header@ == header_model(self@),
            screen.list@ == list_model(self@, areas.list.width),
            screen.selected == self@.selected,
            screen.highlight == highlight_style(),
            screen.footer@ == footer_model(
                self@,
                areas.footer.width,
                position@,
                scaled as nat,
                now@,
            ),
    {
        Screen {
            areas,
            header: self.render_header(),
            list: self.render_playlist(areas.list.width),
            selected: self.selected,
            highlight: TextStyle { fg: None, bg: Some(Color::DarkGray), bold: true },
            footer: self.render_footer(areas.footer.width, position, scaled, now),
        }
    }

    /// What is drawn on a screen of this size.
    pub fn ui(&self, area: Area, position: Duration, scaled: usize, now: Duration) -> (screen:
        Screen)
        requires
            self@.current_in_range(),
        ensures
            screen.areas.fit(area),
            screen.header@ == header_model(self@),
            screen.list@ == list_model(self@, area.width),
            screen.selected == self@.selected,
            screen.highlight == highlight_style(),
            screen.footer@ == footer_model(self@, area.width, position@, scaled as nat, now@),
    {
        self.compose(screen_areas(area), position, scaled, now)
    }
}

/// The filled columns of a progress bar.
fn fill_columns(played: Duration, total: Option<Duration>, width: usize, scaled: usize) -> (filled:
    usize)
    requires
        width <= 40,
    ensures
        filled as nat == filled_columns(
            played@,
            optional_nanos(total),
            width as nat,
            scaled as nat,
        ),
        filled <= width,
{
    match total {
        Some(total) => {
            let part: u128 = played.as_nanos();
            let whole: u128 = total.as_nanos();
            if whole == 0 {
                return 0;
            }
            if part >= whole {
                return width;
            }
            proof {
                lemma_columns(part as nat, whole as nat, width as nat, scaled as nat);
                assert(part * width <= 40 * longest()) by (nonlinear_arith)
                    requires
                        part <= longest(),
                        width <= 40,
                ;
            }
            let product: u128 = part * width as u128;
            let full: usize = (product / whole) as usize;
            let rest: u128 = product % whole;
            if 1024 * rest < 511 * whole {
                full
            } else if 1024 * rest > 513 * whole {
                full + 1
            } else if scaled <= full {
                full
            } else {
                full + 1
            }
        },
        None => 0,
    }
}

} // verus!
