use vstd::prelude::*;

use crate::duration::{longest, millisecond, second};
use crate::keys::{KeyCode, KeyEvent, KeyKind};
use crate::shuffle::pick::{can_draw_other, draw, draws_needed};
use crate::shuffle::xorshift::iterate;
use crate::text::decimal;
use crate::track::TrackModel;
use crate::volume::{changed_volume, volume_percent, FULL_VOLUME, INITIAL_VOLUME, VOLUME_STEP};

verus! {

/// What happens when a track ends.
#[derive(Clone, Copy, Debug, PartialEq, Eq, Structural)]
pub enum RepeatMode {
    Off,
    All,
    One,
}

#[derive(Clone, Copy, Debug, PartialEq, Eq, Structural)]
pub enum PlayStatus {
    Stopped,
    Playing,
    Paused,
}

/// What the audio side is asked to do: the view of an `Action`.
pub enum Effect {
    Nothing,
    Load { index: usize },
    Pause,
    Resume,
    Restart,
    Seek { target: nat },
    SetVolume { volume: nat },
    Clear,
}

/// How loading a track went: the view of a `LoadOutcome`.
pub enum OutcomeModel {
    Ready,
    OpenFailed { reason: Seq<char> },
    Undecodable { reason: Seq<char> },
}

/// The view of the player. Times are in nanoseconds, the volume is in parts of
/// full volume.
#[verifier::ext_equal]
pub struct State {
    pub tracks: Seq<TrackModel>,
    pub selected: usize,
    pub current: Option<usize>,
    pub status: PlayStatus,
    pub volume: nat,
    pub muted: bool,
    pub repeat: RepeatMode,
    pub shuffle: bool,
    pub quit: bool,
    pub message: Option<(Seq<char>, nat)>,
    pub started_at: nat,
    pub rng: u64,
}

/// `x` moved into the range from `low` to `high`.
pub open spec fn clamped(x: int, low: int, high: int) -> int {
    if x < low {
        low
    } else if x > high {
        high
    } else {
        x
    }
}

/// The message that tells the volume.
pub open spec fn volume_text(volume: nat) -> Seq<char> {
    "Volume: "@ + decimal(volume_percent(volume)) + "%"@
}

/// The name of a repeat mode.
pub open spec fn repeat_label(repeat: RepeatMode) -> Seq<char> {
    match repeat {
        RepeatMode::Off => "off"@,
        RepeatMode::All => "all"@,
        RepeatMode::One => "one"@,
    }
}

/// The name of a switch position.
pub open spec fn switch_label(on: bool) -> Seq<char> {
    if on {
        "on"@
    } else {
        "off"@
    }
}

/// The repeat mode that follows another when they are cycled through.
pub open spec fn repeat_after(repeat: RepeatMode) -> RepeatMode {
    match repeat {
        RepeatMode::Off => RepeatMode::All,
        RepeatMode::All => RepeatMode::One,
        RepeatMode::One => RepeatMode::Off,
    }
}

/// Where a seek by `seconds` lands, before the length of the track counts.
pub open spec fn seek_unbounded(position: nat, seconds: int) -> nat {
    if position + seconds * second() >= 0 {
        (position + seconds * second()) as nat
    } else {
        0
    }
}

/// The seek would go past the end of a track of known length.
pub open spec fn seek_overshoots(position: nat, seconds: int, total: Option<nat>) -> bool {
    match total {
        Some(total) => total > 0 && seek_unbounded(position, seconds) > total,
        None => false,
    }
}

/// Where a seek by `seconds` lands. One that would go past the end lands a
/// quarter of a second before it, or at the start of a track that is shorter.
pub open spec fn seek_target(position: nat, seconds: int, total: Option<nat>) -> nat {
    if seek_overshoots(position, seconds, total) {
        if total->0 >= 250 * millisecond() {
            (total->0 - 250 * millisecond()) as nat
        } else {
            0
        }
    } else {
        seek_unbounded(position, seconds)
    }
}

/// The seek lands within what a duration can hold.
pub open spec fn seek_is_defined(position: nat, seconds: int, total: Option<nat>) -> bool {
    seek_target(position, seconds, total) <= longest()
}

/// The time from `start` to `now`, or zero where `start` is later.
pub open spec fn elapsed(start: nat, now: nat) -> nat {
    if start <= now {
        (now - start) as nat
    } else {
        0
    }
}

impl State {
    /// What holds of the player at all times.
    pub open spec fn valid(self) -> bool {
        &&& self.tracks.len() <= usize::MAX
        &&& if self.tracks.len() == 0 {
            self.selected == 0
        } else {
            self.selected < self.tracks.len()
        }
        &&& self.current_in_range()
        &&& self.current is None <==> self.status == PlayStatus::Stopped
        &&& self.volume <= FULL_VOLUME
        &&& self.rng != 0
    }

    /// The current track, if there is one, is in the playlist.
    pub open spec fn current_in_range(self) -> bool {
        self.current matches Some(c) ==> c < self.tracks.len()
    }

    /// A player that has just started.
    pub open spec fn initial(tracks: Seq<TrackModel>, rng: u64, now: nat) -> State {
        State {
            tracks,
            selected: 0,
            current: None,
            status: PlayStatus::Stopped,
            volume: INITIAL_VOLUME as nat,
            muted: false,
            repeat: RepeatMode::Off,
            shuffle: false,
            quit: false,
            message: None,
            started_at: now,
            rng,
        }
    }

    /// A track is being played or held.
    pub open spec fn is_active(self) -> bool {
        self.status == PlayStatus::Playing || self.status == PlayStatus::Paused
    }

    /// The length of the current track, where there is one and it is known.
    pub open spec fn current_length(self) -> Option<nat> {
        match self.current {
            Some(c) => self.tracks[c as int].duration,
            None => None,
        }
    }

    /// The volume that is heard.
    pub open spec fn output_volume(self) -> nat {
        if self.muted {
            0
        } else {
            self.volume
        }
    }

    pub open spec fn set_message(self, text: Seq<char>, now: nat) -> State {
        State { message: Some((text, now)), ..self }
    }

    pub open spec fn move_selection(self, delta: int) -> State {
        if self.tracks.len() == 0 {
            self
        } else {
            State {
                selected: clamped(self.selected + delta, 0, self.tracks.len() - 1) as usize,
                ..self
            }
        }
    }

    /// Asking for a track that is not there asks for nothing.
    pub open spec fn play_index(self, index: usize) -> Effect {
        if index < self.tracks.len() {
            Effect::Load { index }
        } else {
            Effect::Nothing
        }
    }

    /// The track `index` was loaded, or could not be. One that was loaded is
    /// played at the volume that is set.
    pub open spec fn finish_load(self, index: usize, outcome: OutcomeModel, now: nat) -> (
        State,
        Effect,
    ) {
        match outcome {
            OutcomeModel::Ready => (
                State {
                    current: Some(index),
                    selected: index,
                    status: PlayStatus::Playing,
                    started_at: now,
                    ..self
                },
                Effect::SetVolume { volume: self.output_volume() },
            ),
            OutcomeModel::OpenFailed { reason } => (
                self.set_message(
                    "Cannot open "@ + self.tracks[index as int].path + ": "@ + reason,
                    now,
                ),
                Effect::Nothing,
            ),
            OutcomeModel::Undecodable { reason } => (
                self.set_message(
                    "Unsupported format "@ + self.tracks[index as int].path + ": "@ + reason,
                    now,
                ),
                Effect::Nothing,
            ),
        }
    }

    pub open spec fn toggle_pause(self) -> (State, Effect) {
        match self.status {
            PlayStatus::Playing => (
                State { status: PlayStatus::Paused, ..self },
                Effect::Pause,
            ),
            PlayStatus::Paused => (
                State { status: PlayStatus::Playing, ..self },
                Effect::Resume,
            ),
            PlayStatus::Stopped => (self, self.play_index(self.selected)),
        }
    }

    /// The track after the current one. `natural_end` says that the current
    /// track has come to its end, rather than being skipped.
    pub open spec fn next_index(self, natural_end: bool) -> (State, Option<usize>) {
        let len = self.tracks.len();
        if len == 0 {
            (self, None)
        } else if natural_end && self.repeat == RepeatMode::One {
            (
                self,
                match self.current {
                    Some(c) => Some(c),
                    None => Some(0usize),
                },
            )
        } else if self.shuffle && len > 1 {
            let draws = draws_needed(self.rng, len as usize, self.current);
            (
                State { rng: iterate(self.rng, draws), ..self },
                Some(draw(self.rng, len as usize, draws)),
            )
        } else {
            let next = match self.current {
                Some(c) => c + 1,
                None => 0,
            };
            if next < len {
                (self, Some(next as usize))
            } else if !natural_end || self.repeat == RepeatMode::All {
                (self, Some(0usize))
            } else {
                (self, None)
            }
        }
    }

    /// The next track can be told: where it is drawn, some draw differs from
    /// the current track, and where it is counted, the count does not overflow.
    pub open spec fn has_next_index(self, natural_end: bool) -> bool {
        ||| self.tracks.len() == 0
        ||| natural_end && self.repeat == RepeatMode::One
        ||| if self.shuffle && self.tracks.len() > 1 {
            can_draw_other(self.rng, self.current)
        } else {
            self.current != Some(usize::MAX)
        }
    }

    pub open spec fn skip_next(self) -> (State, Effect) {
        let (after, next) = self.next_index(false);
        match next {
            Some(index) => (after, after.play_index(index)),
            None => (after, Effect::Nothing),
        }
    }

    /// The track before the current one. The first one is before itself, or
    /// after the last one where everything repeats.
    pub open spec fn previous_index(self) -> usize {
        match self.current {
            Some(c) => if c > 0 {
                (c - 1) as usize
            } else if self.repeat == RepeatMode::All {
                (self.tracks.len() - 1) as usize
            } else {
                0
            },
            None => 0,
        }
    }

    /// Goes back to the start of a track that has played for more than three
    /// seconds, else to the previous track.
    pub open spec fn skip_previous(self, position: nat) -> Effect {
        if self.tracks.len() == 0 {
            Effect::Nothing
        } else if self.is_active() && position > 3 * second() {
            Effect::Restart
        } else {
            self.play_index(self.previous_index())
        }
    }

    pub open spec fn stop_playback(self, now: nat) -> State {
        State { status: PlayStatus::Stopped, current: None, ..self }.set_message("Stopped"@, now)
    }

    pub open spec fn change_volume(self, delta: int, now: nat) -> State {
        let volume = changed_volume(self.volume, delta);
        State { muted: false, volume, ..self }.set_message(volume_text(volume), now)
    }

    pub open spec fn toggle_mute(self, now: nat) -> State {
        let after = State { muted: !self.muted, ..self };
        after.set_message(
            if after.muted {
                "Muted"@
            } else {
                volume_text(self.volume)
            },
            now,
        )
    }

    pub open spec fn cycle_repeat(self, now: nat) -> State {
        let repeat = repeat_after(self.repeat);
        State { repeat, ..self }.set_message("Repeat: "@ + repeat_label(repeat), now)
    }

    pub open spec fn toggle_shuffle(self, now: nat) -> State {
        let shuffle = !self.shuffle;
        State { shuffle, ..self }.set_message("Shuffle: "@ + switch_label(shuffle), now)
    }

    /// Asks for a seek by `seconds` where a track is played or held.
    pub open spec fn seek(self, seconds: int, position: nat) -> Effect {
        if self.is_active() {
            Effect::Seek { target: seek_target(position, seconds, self.current_length()) }
        } else {
            Effect::Nothing
        }
    }

    /// There is nothing to seek in, or the seek lands within what a duration
    /// can hold.
    pub open spec fn can_seek(self, seconds: int, position: nat) -> bool {
        self.is_active() ==> {
            &&& self.current_in_range()
            &&& seek_is_defined(position, seconds, self.current_length())
        }
    }

    pub open spec fn finish_seek(self, done: bool, now: nat) -> State {
        if done {
            self
        } else {
            self.set_message("Seeking is not supported for this file"@, now)
        }
    }

    /// The current track has run out: it plays, has been playing for 400
    /// milliseconds at least, and nothing of it is left.
    pub open spec fn has_ended(self, sink_empty: bool, now: nat) -> bool {
        &&& self.status == PlayStatus::Playing
        &&& elapsed(self.started_at, now) >= 400 * millisecond()
        &&& sink_empty
    }

    pub open spec fn check_track_end(self, sink_empty: bool, now: nat) -> (State, Effect) {
        if self.has_ended(sink_empty, now) {
            let (after, next) = self.next_index(true);
            match next {
                Some(index) => (after, after.play_index(index)),
                None => (
                    State { status: PlayStatus::Stopped, current: None, ..after }.set_message(
                        "End of playlist"@,
                        now,
                    ),
                    Effect::Nothing,
                ),
            }
        } else {
            (self, Effect::Nothing)
        }
    }

    /// The seek or the next track that the key may ask for can be told.
    pub open spec fn accepts_key(self, key: KeyEvent, position: nat) -> bool {
        match key.code {
            KeyCode::Right => self.can_seek(5, position),
            KeyCode::Left => self.can_seek(-5, position),
            KeyCode::Char(c) => c == 'n' ==> self.has_next_index(false),
            _ => true,
        }
    }

    /// What a character key does.
    pub open spec fn handle_char(
        self,
        c: char,
        control: bool,
        position: nat,
        now: nat,
    ) -> (State, Effect) {
        if c == 'q' || (c == 'c' && control) {
            (State { quit: true, ..self }, Effect::Nothing)
        } else if c == 'j' {
            (self.move_selection(1), Effect::Nothing)
        } else if c == 'k' {
            (self.move_selection(-1), Effect::Nothing)
        } else if c == ' ' {
            self.toggle_pause()
        } else if c == 'n' {
            self.skip_next()
        } else if c == 'p' {
            (self, self.skip_previous(position))
        } else if c == '+' || c == '=' {
            let after = self.change_volume(VOLUME_STEP as int, now);
            (after, Effect::SetVolume { volume: after.volume })
        } else if c == '-' || c == '_' {
            let after = self.change_volume(-VOLUME_STEP, now);
            (after, Effect::SetVolume { volume: after.volume })
        } else if c == 'm' {
            let after = self.toggle_mute(now);
            (after, Effect::SetVolume { volume: after.output_volume() })
        } else if c == 'r' {
            (self.cycle_repeat(now), Effect::Nothing)
        } else if c == 's' {
            (self.toggle_shuffle(now), Effect::Nothing)
        } else if c == 'x' {
            (self.stop_playback(now), Effect::Clear)
        } else {
            (self, Effect::Nothing)
        }
    }

    /// What a key does.
    pub open spec fn handle_key(self, key: KeyEvent, position: nat, now: nat) -> (State, Effect) {
        match key.code {
            KeyCode::Char(c) => self.handle_char(c, key.control, position, now),
            KeyCode::Esc => (State { quit: true, ..self }, Effect::Nothing),
            KeyCode::Down => (self.move_selection(1), Effect::Nothing),
            KeyCode::Up => (self.move_selection(-1), Effect::Nothing),
            KeyCode::PageDown => (self.move_selection(10), Effect::Nothing),
            KeyCode::PageUp => (self.move_selection(-10), Effect::Nothing),
            KeyCode::Home => (State { selected: 0, ..self }, Effect::Nothing),
            KeyCode::End => (
                State {
                    selected: if self.tracks.len() == 0 {
                        0
                    } else {
                        (self.tracks.len() - 1) as usize
                    },
                    ..self
                },
                Effect::Nothing,
            ),
            KeyCode::Enter => (self, self.play_index(self.selected)),
            KeyCode::Right => (self, self.seek(5, position)),
            KeyCode::Left => (self, self.seek(-5, position)),
            KeyCode::Other => (self, Effect::Nothing),
        }
    }

    /// What a key event does: letting a key go does nothing.
    pub open spec fn handle_event(self, key: KeyEvent, position: nat, now: nat) -> (State, Effect) {
        if key.kind == KeyKind::Release {
            (self, Effect::Nothing)
        } else {
            self.handle_key(key, position, now)
        }
    }
}

} // verus!
