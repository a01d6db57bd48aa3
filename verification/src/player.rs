use vstd::prelude::*;

use crate::duration::Duration;
use crate::keys::{KeyCode, KeyEvent, KeyKind};
use crate::model::{
    repeat_label, seek_is_defined, seek_target, switch_label, volume_text, Effect, OutcomeModel,
    PlayStatus, RepeatMode, State,
};
use crate::shuffle::period::law_state_stays_nonzero;
use crate::shuffle::pick::{can_draw_other, draw, draws_needed, law_drawing_ends, settles};
use crate::shuffle::xorshift::{advance, iterate, step};
use crate::text::{append_decimal, join};
use crate::track::{optional_nanos, Track, TrackModel};
use crate::volume::{change, percent, INITIAL_VOLUME, VOLUME_STEP};

verus! {

/// A message that is shown for a while.
pub struct Message {
    pub text: String,
    pub at: Duration,
}

/// What the audio side is asked to do.
pub enum Action {
    Nothing,
    /// Open and decode the track, queue it in place of what is queued, and
    /// report with `finish_load`.
    Load { index: usize },
    Pause,
    Resume,
    /// Seek to the start, whether or not that works.
    Restart,
    /// Seek, and report with `finish_seek`.
    Seek { target: Duration },
    SetVolume { volume: u32 },
    /// Drop everything that is queued for playing.
    Clear,
}

/// How loading a track went.
pub enum LoadOutcome {
    /// The track is decoded, and queued in place of what was queued before.
    Ready,
    /// The file could not be opened.
    OpenFailed { reason: String },
    /// The file could not be decoded.
    Undecodable { reason: String },
}

impl View for Action {
    type V = Effect;

    open spec fn view(&self) -> Effect {
        match *self {
            Action::Nothing => Effect::Nothing,
            Action::Load { index } => Effect::Load { index },
            Action::Pause => Effect::Pause,
            Action::Resume => Effect::Resume,
            Action::Restart => Effect::Restart,
            Action::Seek { target } => Effect::Seek { target: target@ },
            Action::SetVolume { volume } => Effect::SetVolume { volume: volume as nat },
            Action::Clear => Effect::Clear,
        }
    }
}

impl View for LoadOutcome {
    type V = OutcomeModel;

    open spec fn view(&self) -> OutcomeModel {
        match *self {
            LoadOutcome::Ready => OutcomeModel::Ready,
            LoadOutcome::OpenFailed { reason } => OutcomeModel::OpenFailed { reason: reason@ },
            LoadOutcome::Undecodable { reason } => OutcomeModel::Undecodable { reason: reason@ },
        }
    }
}

/// The player: the playlist, what is selected and played, and the settings.
///
/// Times are spans since the program started. The volume is in parts of
/// full volume.
pub struct App {
    pub tracks: Vec<Track>,
    pub selected: usize,
    pub current: Option<usize>,
    pub status: PlayStatus,
    pub volume: u32,
    pub muted: bool,
    pub repeat: RepeatMode,
    pub shuffle: bool,
    pub quit: bool,
    pub message: Option<Message>,
    pub started_at: Duration,
    pub rng: u64,
}

/// The views of a list of tracks.
pub open spec fn track_models(tracks: Seq<Track>) -> Seq<TrackModel> {
    tracks.map_values(|t: Track| t@)
}

impl View for App {
    type V = State;

    open spec fn view(&self) -> State {
        State {
            tracks: track_models(self.tracks@),
            selected: self.selected,
            current: self.current,
            status: self.status,
            volume: self.volume as nat,
            muted: self.muted,
            repeat: self.repeat,
            shuffle: self.shuffle,
            quit: self.quit,
            message: match self.message {
                Some(m) => Some((m.text@, m.at@)),
                None => None,
            },
            started_at: self.started_at@,
            rng: self.rng,
        }
    }
}

/// The generator state that a clock reading gives: its low 64 bits, with the
/// lowest one set. A clock that cannot be read gives a fixed state.
pub open spec fn seed(clock_nanos: Option<u128>) -> u64 {
    match clock_nanos {
        Some(nanos) => (nanos as u64) | 1,
        None => 0xDEAD_BEEFu64 | 1,
    }
}

/// The message that tells the volume.
fn volume_message(volume: u32) -> (text: String)
    ensures
        text@ == volume_text(volume as nat),
{
    let mut text = "Volume: ".to_owned();
    append_decimal(&mut text, percent(volume) as u64);
    text.append("%");
    text
}

/// The name of a repeat mode.
pub fn repeat_name(repeat: RepeatMode) -> (name: &'static str)
    ensures
        name@ == repeat_label(repeat),
{
    match repeat {
        RepeatMode::Off => "off",
        RepeatMode::All => "all",
        RepeatMode::One => "one",
    }
}

/// The name of a switch position.
pub fn switch_name(on: bool) -> (name: &'static str)
    ensures
        name@ == switch_label(on),
{
    if on {
        "on"
    } else {
        "off"
    }
}

impl App {
    /// A player for these tracks. The clock reading seeds the shuffling.
    pub fn new(tracks: Vec<Track>, clock_nanos: Option<u128>, now: Duration) -> (app: App)
        ensures
            app@ == State::initial(track_models(tracks@), seed(clock_nanos), now@),
            app@.valid(),
    {
        let low: u64 = match clock_nanos {
            Some(nanos) => #[verifier::truncate] (nanos as u64),
            None => 0xDEAD_BEEF,
        };
        assert(low | 1 != 0) by (bit_vector);
        assert(tracks@.len() == tracks.len());
        App {
            tracks,
            selected: 0,
            current: None,
            status: PlayStatus::Stopped,
            volume: INITIAL_VOLUME,
            muted: false,
            repeat: RepeatMode::Off,
            shuffle: false,
            quit: false,
            message: None,
            started_at: now,
            rng: low | 1,
        }
    }

    /// Shows a message from `now` on.
    pub fn set_message(&mut self, text: String, now: Duration)
        ensures
            final(self)@ == old(self)@.set_message(text@, now@),
    {
        self.message = Some(Message { text, at: now });
    }

    /// Steps the generator and gives its new state.
    pub fn rand_u64(&mut self) -> (drawn: u64)
        ensures
            drawn == step(old(self).rng),
            final(self)@ == (State { rng: drawn, ..old(self)@ }),
    {
        self.rng = advance(self.rng);
        self.rng
    }

    /// Moves the selection by `delta` entries, within the playlist.
    pub fn move_selection(&mut self, delta: isize)
        ensures
            final(self)@ == old(self)@.move_selection(delta as int),
            old(self)@.valid() ==> final(self)@.valid(),
    {
        let len: usize = self.tracks.len();
        if len == 0 {
            return;
        }
        let target: usize = if delta >= 0 {
            self.selected.saturating_add(delta as usize)
        } else {
            let back: usize = (-(delta + 1)) as usize + 1;
            self.selected.saturating_sub(back)
        };
        self.selected = if target > len - 1 {
            len - 1
        } else {
            target
        };
    }

    /// The volume that is heard.
    pub fn output_volume(&self) -> (volume: u32)
        ensures
            volume as nat == self@.output_volume(),
    {
        if self.muted {
            0
        } else {
            self.volume
        }
    }

    /// Asks for the track `index`, where there is one.
    pub fn play_index(&self, index: usize) -> (action: Action)
        ensures
            action@ == self@.play_index(index),
    {
        if index >= self.tracks.len() {
            Action::Nothing
        } else {
            Action::Load { index }
        }
    }

    /// Takes in how loading the track `index` went.
    pub fn finish_load(&mut self, index: usize, outcome: LoadOutcome, now: Duration) -> (action:
        Action)
        requires
            index < old(self)@.tracks.len(),
        ensures
            (final(self)@, action@) == old(self)@.finish_load(index, outcome@, now@),
            old(self)@.valid() ==> final(self)@.valid(),
    {
        match outcome {
            LoadOutcome::Ready => {
                self.current = Some(index);
                self.selected = index;
                self.status = PlayStatus::Playing;
                self.started_at = now;
                Action::SetVolume { volume: self.output_volume() }
            },
            LoadOutcome::OpenFailed { reason } => {
                let mut text = join("Cannot open ", self.tracks[index].path.as_str());
                text.append(": ");
                text.append(reason.as_str());
                self.set_message(text, now);
                Action::Nothing
            },
            LoadOutcome::Undecodable { reason } => {
                let mut text = join("Unsupported format ", self.tracks[index].path.as_str());
                text.append(": ");
                text.append(reason.as_str());
                self.set_message(text, now);
                Action::Nothing
            },
        }
    }

    /// Pauses or resumes; when stopped, asks for the selected track.
    pub fn toggle_pause(&mut self) -> (action: Action)
        ensures
            (final(self)@, action@) == old(self)@.toggle_pause(),
            old(self)@.valid() ==> final(self)@.valid(),
    {
        match self.status {
            PlayStatus::Playing => {
                self.status = PlayStatus::Paused;
                Action::Pause
            },
            PlayStatus::Paused => {
                self.status = PlayStatus::Playing;
                Action::Resume
            },
            PlayStatus::Stopped => self.play_index(self.selected),
        }
    }

    /// Draws indices below `len` until one differs from the current track.
    fn draw_other(&mut self, len: usize) -> (index: usize)
        requires
            can_draw_other(old(self).rng, old(self).current),
            len >= 2,
        ensures
            index == draw(
                old(self).rng,
                len,
                draws_needed(old(self).rng, len, old(self).current),
            ),
            final(self)@ == (State {
                rng: iterate(
                    old(self).rng,
                    draws_needed(old(self).rng, len, old(self).current),
                ),
                ..old(self)@
            }),
            old(self).rng != 0 ==> final(self).rng != 0,
            index < len,
    {
        let ghost state = self.rng;
        let ghost start = self@;
        let ghost needed = draws_needed(self.rng, len, self.current);
        let ghost mut n: nat = 0;
        proof {
            law_drawing_ends(state, len, self.current);
        }
        loop
            invariant
                len >= 2,
                state == old(self).rng,
                start == old(self)@,
                can_draw_other(state, start.current),
                n < needed,
                settles(state, len, start.current, needed),
                self@ == (State { rng: iterate(state, n), ..start }),
            decreases needed - n,
        {
            let drawn: u64 = self.rand_u64();
            proof {
                n = n + 1;
                assert(drawn == step(iterate(state, (n - 1) as nat)));
            }
            let candidate: usize = (#[verifier::truncate] (drawn as usize)) % len;
            assert(candidate == draw(state, len, n));
            let same = match self.current {
                Some(c) => c == candidate,
                None => false,
            };
            if !same {
                proof {
                    law_drawing_ends(state, len, start.current);
                    if state != 0 {
                        law_state_stays_nonzero(state, n);
                    }
                }
                return candidate;
            }
        }
    }

    /// Decides on the track after the current one, by the repeat mode and
    /// whether tracks are shuffled.
    pub fn next_index(&mut self, natural_end: bool) -> (next: Option<usize>)
        requires
            old(self)@.has_next_index(natural_end),
        ensures
            (final(self)@, next) == old(self)@.next_index(natural_end),
            old(self)@.valid() ==> final(self)@.valid(),
            old(self)@.current_in_range() ==> (next matches Some(i) ==> i
                < old(self)@.tracks.len()),
    {
        let len: usize = self.tracks.len();
        if len == 0 {
            return None;
        }
        if natural_end && self.repeat == RepeatMode::One {
            return match self.current {
                Some(c) => Some(c),
                None => Some(0),
            };
        }
        if self.shuffle && len > 1 {
            return Some(self.draw_other(len));
        }
        let next: usize = match self.current {
            Some(c) => c + 1,
            None => 0,
        };
        if next < len {
            Some(next)
        } else if !natural_end || self.repeat == RepeatMode::All {
            Some(0)
        } else {
            None
        }
    }

    /// Whether the next track can be told.
    pub fn has_next_index(&self, natural_end: bool) -> (can: bool)
        ensures
            can == self@.has_next_index(natural_end),
    {
        let len: usize = self.tracks.len();
        if len == 0 || (natural_end && self.repeat == RepeatMode::One) {
            true
        } else if self.shuffle && len > 1 {
            self.rng != 0 || match self.current {
                Some(c) => c != 0,
                None => true,
            }
        } else {
            match self.current {
                Some(c) => c != usize::MAX,
                None => true,
            }
        }
    }

    /// Asks for the next track.
    pub fn skip_next(&mut self) -> (action: Action)
        requires
            old(self)@.has_next_index(false),
        ensures
            (final(self)@, action@) == old(self)@.skip_next(),
            old(self)@.valid() ==> final(self)@.valid(),
    {
        match self.next_index(false) {
            Some(index) => self.play_index(index),
            None => Action::Nothing,
        }
    }

    /// Asks for the start of the current track, or for the previous one.
    pub fn skip_previous(&self, position: Duration) -> (action: Action)
        ensures
            action@ == self@.skip_previous(position@),
    {
        let len: usize = self.tracks.len();
        if len == 0 {
            return Action::Nothing;
        }
        if self.is_active() && Duration::from_secs(3).is_less_than(position) {
            return Action::Restart;
        }
        let index: usize = match self.current {
            Some(c) => if c > 0 {
                c - 1
            } else if self.repeat == RepeatMode::All {
                len - 1
            } else {
                0
            },
            None => 0,
        };
        self.play_index(index)
    }

    /// Whether a track is being played or held.
    pub fn is_active(&self) -> (active: bool)
        ensures
            active == self@.is_active(),
    {
        self.status == PlayStatus::Playing || self.status == PlayStatus::Paused
    }

    /// The length of the current track, where there is one and it is known.
    pub fn current_length(&self) -> (length: Option<Duration>)
        requires
            self@.current_in_range(),
        ensures
            optional_nanos(length) == self@.current_length(),
    {
        match self.current {
            Some(c) => self.tracks[c].duration,
            None => None,
        }
    }

    /// Stops playing.
    pub fn stop_playback(&mut self, now: Duration) -> (action: Action)
        ensures
            final(self)@ == old(self)@.stop_playback(now@),
            action@ == Effect::Clear,
            old(self)@.valid() ==> final(self)@.valid(),
    {
        self.status = PlayStatus::Stopped;
        self.current = None;
        self.set_message("Stopped".to_owned(), now);
        Action::Clear
    }

    /// Changes the volume by `delta` parts, within zero and full volume, and
    /// unmutes.
    pub fn change_volume(&mut self, delta: i32, now: Duration) -> (action: Action)
        ensures
            final(self)@ == old(self)@.change_volume(delta as int, now@),
            action@ == (Effect::SetVolume { volume: final(self)@.volume }),
            old(self)@.valid() ==> final(self)@.valid(),
    {
        self.muted = false;
        self.volume = change(self.volume, delta);
        self.set_message(volume_message(self.volume), now);
        Action::SetVolume { volume: self.volume }
    }

    /// Mutes or unmutes.
    pub fn toggle_mute(&mut self, now: Duration) -> (action: Action)
        ensures
            final(self)@ == old(self)@.toggle_mute(now@),
            action@ == (Effect::SetVolume { volume: final(self)@.output_volume() }),
            old(self)@.valid() ==> final(self)@.valid(),
    {
        self.muted = !self.muted;
        if self.muted {
            self.set_message("Muted".to_owned(), now);
        } else {
            self.set_message(volume_message(self.volume), now);
        }
        Action::SetVolume { volume: self.output_volume() }
    }

    /// Goes to the next repeat mode.
    pub fn cycle_repeat(&mut self, now: Duration)
        ensures
            final(self)@ == old(self)@.cycle_repeat(now@),
            old(self)@.valid() ==> final(self)@.valid(),
    {
        self.repeat = match self.repeat {
            RepeatMode::Off => RepeatMode::All,
            RepeatMode::All => RepeatMode::One,
            RepeatMode::One => RepeatMode::Off,
        };
        self.set_message(join("Repeat: ", repeat_name(self.repeat)), now);
    }

    /// Turns shuffling on or off.
    pub fn toggle_shuffle(&mut self, now: Duration)
        ensures
            final(self)@ == old(self)@.toggle_shuffle(now@),
            old(self)@.valid() ==> final(self)@.valid(),
    {
        self.shuffle = !self.shuffle;
        self.set_message(join("Shuffle: ", switch_name(self.shuffle)), now);
    }

    /// Where a seek by `seconds` lands, unless it leaves what a duration can
    /// hold.
    fn seek_to(&self, seconds: i64, position: Duration) -> (target: Option<Duration>)
        requires
            self@.current_in_range(),
        ensures
            target is Some <==> seek_is_defined(
                position@,
                seconds as int,
                self@.current_length(),
            ),
            target matches Some(d) ==> d@ == seek_target(
                position@,
                seconds as int,
                self@.current_length(),
            ),
    {
        let target = if seconds >= 0 {
            position.checked_add(Duration::from_secs(seconds as u64))
        } else {
            let back: u64 = (-(seconds + 1)) as u64 + 1;
            Some(position.saturating_sub(Duration::from_secs(back)))
        };
        let total = match self.current_length() {
            Some(total) => total,
            None => return target,
        };
        let overshoots = Duration::zero().is_less_than(total) && match target {
            Some(target) => total.is_less_than(target),
            None => true,
        };
        if overshoots {
            Some(total.saturating_sub(Duration::from_millis(250)))
        } else {
            target
        }
    }

    /// Whether there is nothing to seek in, or a seek by `seconds` lands within
    /// what a duration can hold.
    pub fn can_seek(&self, seconds: i64, position: Duration) -> (can: bool)
        ensures
            can == self@.can_seek(seconds as int, position@),
    {
        if !self.is_active() {
            return true;
        }
        let in_range = match self.current {
            Some(c) => c < self.tracks.len(),
            None => true,
        };
        in_range && self.seek_to(seconds, position).is_some()
    }

    /// Asks for a seek by `seconds` from `position`, within the current track.
    pub fn seek(&self, seconds: i64, position: Duration) -> (action: Action)
        requires
            self@.can_seek(seconds as int, position@),
        ensures
            action@ == self@.seek(seconds as int, position@),
    {
        if !self.is_active() {
            return Action::Nothing;
        }
        match self.seek_to(seconds, position) {
            Some(target) => Action::Seek { target },
            None => Action::Nothing,
        }
    }

    /// Takes in whether a seek was done.
    pub fn finish_seek(&mut self, done: bool, now: Duration)
        ensures
            final(self)@ == old(self)@.finish_seek(done, now@),
            old(self)@.valid() ==> final(self)@.valid(),
    {
        if !done {
            self.set_message("Seeking is not supported for this file".to_owned(), now);
        }
    }

    /// Goes on to the next track where the current one has run out.
    pub fn check_track_end(&mut self, sink_empty: bool, now: Duration) -> (action: Action)
        requires
            old(self)@.has_ended(sink_empty, now@) ==> old(self)@.has_next_index(true),
        ensures
            (final(self)@, action@) == old(self)@.check_track_end(sink_empty, now@),
            old(self)@.valid() ==> final(self)@.valid(),
    {
        if self.status != PlayStatus::Playing {
            return Action::Nothing;
        }
        // A track that was just queued may not have reached the audio thread.
        if now.saturating_sub(self.started_at).is_less_than(Duration::from_millis(400)) {
            return Action::Nothing;
        }
        if !sink_empty {
            return Action::Nothing;
        }
        match self.next_index(true) {
            Some(index) => self.play_index(index),
            None => {
                self.status = PlayStatus::Stopped;
                self.current = None;
                self.set_message("End of playlist".to_owned(), now);
                Action::Nothing
            },
        }
    }

    /// Whether the key can be handled: the seek or the next track that it may
    /// ask for can be told.
    pub fn accepts_key(&self, key: KeyEvent, position: Duration) -> (accepts: bool)
        ensures
            accepts == self@.accepts_key(key, position@),
    {
        match key.code {
            KeyCode::Right => self.can_seek(5, position),
            KeyCode::Left => self.can_seek(-5, position),
            KeyCode::Char(c) => c != 'n' || self.has_next_index(false),
            _ => true,
        }
    }

    fn handle_char(&mut self, c: char, control: bool, position: Duration, now: Duration) -> (action:
        Action)
        requires
            c == 'n' ==> old(self)@.has_next_index(false),
        ensures
            (final(self)@, action@) == old(self)@.handle_char(c, control, position@, now@),
            old(self)@.valid() ==> final(self)@.valid(),
    {
        if c == 'q' || (c == 'c' && control) {
            self.quit = true;
            Action::Nothing
        } else if c == 'j' {
            self.move_selection(1);
            Action::Nothing
        } else if c == 'k' {
            self.move_selection(-1);
            Action::Nothing
        } else if c == ' ' {
            self.toggle_pause()
        } else if c == 'n' {
            self.skip_next()
        } else if c == 'p' {
            self.skip_previous(position)
        } else if c == '+' || c == '=' {
            self.change_volume(VOLUME_STEP, now)
        } else if c == '-' || c == '_' {
            self.change_volume(-VOLUME_STEP, now)
        } else if c == 'm' {
            self.toggle_mute(now)
        } else if c == 'r' {
            self.cycle_repeat(now);
            Action::Nothing
        } else if c == 's' {
            self.toggle_shuffle(now);
            Action::Nothing
        } else if c == 'x' {
            self.stop_playback(now)
        } else {
            Action::Nothing
        }
    }

    /// Does what a key stands for. `position` is how far the current track has
    /// played.
    pub fn handle_key(&mut self, key: KeyEvent, position: Duration, now: Duration) -> (action:
        Action)
        requires
            old(self)@.accepts_key(key, position@),
        ensures
            (final(self)@, action@) == old(self)@.handle_key(key, position@, now@),
            old(self)@.valid() ==> final(self)@.valid(),
    {
        match key.code {
            KeyCode::Char(c) => self.handle_char(c, key.control, position, now),
            KeyCode::Esc => {
                self.quit = true;
                Action::Nothing
            },
            KeyCode::Down => {
                self.move_selection(1);
                Action::Nothing
            },
            KeyCode::Up => {
                self.move_selection(-1);
                Action::Nothing
            },
            KeyCode::PageDown => {
                self.move_selection(10);
                Action::Nothing
            },
            KeyCode::PageUp => {
                self.move_selection(-10);
                Action::Nothing
            },
            KeyCode::Home => {
                self.selected = 0;
                Action::Nothing
            },
            KeyCode::End => {
                self.selected = self.tracks.len().saturating_sub(1);
                Action::Nothing
            },
            KeyCode::Enter => self.play_index(self.selected),
            KeyCode::Right => self.seek(5, position),
            KeyCode::Left => self.seek(-5, position),
            KeyCode::Other => Action::Nothing,
        }
    }

    /// Handles a key event; one that tells of a key let go does nothing.
    pub fn handle_event(&mut self, key: KeyEvent, position: Duration, now: Duration) -> (action:
        Action)
        requires
            key.kind == KeyKind::Release || old(self)@.accepts_key(key, position@),
        ensures
            (final(self)@, action@) == old(self)@.handle_event(key, position@, now@),
            old(self)@.valid() ==> final(self)@.valid(),
    {
        if key.kind == KeyKind::Release {
            return Action::Nothing;
        }
        self.handle_key(key, position, now)
    }
}

} // verus!
