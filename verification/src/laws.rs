use vstd::arithmetic::div_mod::{
    lemma_div_is_ordered, lemma_fundamental_div_mod, lemma_mod_bound, lemma_small_mod,
};
use vstd::prelude::*;

use crate::duration::{longest, millisecond, second};
use crate::keys::{KeyCode, KeyEvent, KeyKind};
use crate::model::{
    clamped, seek_overshoots, seek_target, Effect, OutcomeModel, PlayStatus,
    RepeatMode, State,
};
use crate::screen::{
    bar, bar_width, entry_base, entry_line, entry_padding, filled_columns, footer_model,
    info_span, label, lemma_columns, monus, nearest_columns, shown_position, Span, HELP_TEXT,
};
use crate::shuffle::period::law_state_stays_nonzero;
use crate::shuffle::pick::{draws_needed, law_drawing_ends};
use crate::text::{clock, decimal, decimal2, digit, lemma_repeated_len, repeated, truncated};
use crate::track::{
    audio_extensions, extension, is_audio_name, is_white_space, last_dot,
    lemma_last_dot, lower, spells, stem,
    text_or, trimmed, trimmed_end, trimmed_start, TrackModel,
};
use crate::volume::{
    changed_volume, is_reachable, law_steps_lead_to_levels, volume_percent, INITIAL_VOLUME,
    VOLUME_STEP,
};

pub mod display;
pub mod files;
pub mod keys;
pub mod playing;

verus! {

/// The next track is one of the playlist, and the rest of the player stays as
/// it was.
pub proof fn law_next_index_is_in_the_playlist(s: State, natural_end: bool)
    requires
        s.valid(),
    ensures
        s.next_index(natural_end).0.valid(),
        s.next_index(natural_end).0 == (State { rng: s.next_index(natural_end).0.rng, ..s }),
        s.next_index(natural_end).1 matches Some(i) ==> i < s.tracks.len(),
{
    let len = s.tracks.len() as usize;
    if s.shuffle && len > 1 {
        law_drawing_ends(s.rng, len, s.current);
        law_state_stays_nonzero(s.rng, draws_needed(s.rng, len, s.current));
    }
}

proof fn lemma_char_keeps_valid(s: State, c: char, control: bool, position: nat, now: nat)
    requires
        s.valid(),
    ensures
        s.handle_char(c, control, position, now).0.valid(),
{
    law_next_index_is_in_the_playlist(s, false);
    law_selection_moves(s, 1);
    law_selection_moves(s, -1);
    if c == 'n' {
        assert(s.skip_next().0 == s.next_index(false).0);
    }
}

/// Whatever key comes, the player stays valid: the selection and the current
/// track lie in the playlist, a track is current just where the player is not
/// stopped, and the volume is at most full volume.
pub proof fn law_keys_keep_the_player_valid(s: State, key: KeyEvent, position: nat, now: nat)
    requires
        s.valid(),
    ensures
        s.handle_event(key, position, now).0.valid(),
{
    match key.code {
        KeyCode::Char(c) => {
            lemma_char_keeps_valid(s, c, key.control, position, now);
        },
        _ => {
            law_selection_moves(s, 1);
            law_selection_moves(s, -1);
            law_selection_moves(s, 10);
            law_selection_moves(s, -10);
        },
    }
}

/// Whatever the audio side reports, the player stays valid.
pub proof fn law_reports_keep_the_player_valid(
    s: State,
    sink_empty: bool,
    index: usize,
    outcome: OutcomeModel,
    done: bool,
    now: nat,
)
    requires
        s.valid(),
        index < s.tracks.len(),
    ensures
        s.check_track_end(sink_empty, now).0.valid(),
        s.finish_load(index, outcome, now).0.valid(),
        s.finish_seek(done, now).valid(),
{
    law_next_index_is_in_the_playlist(s, true);
}

/// The playlist itself never changes.
pub proof fn law_playlist_is_kept(
    s: State,
    key: KeyEvent,
    position: nat,
    now: nat,
    sink_empty: bool,
    index: usize,
    outcome: OutcomeModel,
    done: bool,
)
    ensures
        s.handle_event(key, position, now).0.tracks == s.tracks,
        s.check_track_end(sink_empty, now).0.tracks == s.tracks,
        s.finish_load(index, outcome, now).0.tracks == s.tracks,
        s.finish_seek(done, now).tracks == s.tracks,
{
    match key.code {
        KeyCode::Char(c) => {
            lemma_char_keeps_tracks(s, c, key.control, position, now);
        },
        _ => {},
    }
    assert(s.next_index(true).0.tracks == s.tracks);
}

proof fn lemma_char_keeps_tracks(s: State, c: char, control: bool, position: nat, now: nat)
    ensures
        s.handle_char(c, control, position, now).0.tracks == s.tracks,
{
    assert(s.next_index(false).0.tracks == s.tracks);
    assert(s.skip_next().0.tracks == s.tracks);
    assert(s.toggle_pause().0.tracks == s.tracks);
}

/// A track is only ever asked for where the playlist has it.
pub proof fn law_loads_are_in_the_playlist(
    s: State,
    key: KeyEvent,
    position: nat,
    now: nat,
    sink_empty: bool,
)
    requires
        s.valid(),
    ensures
        s.handle_event(key, position, now).1 matches Effect::Load { index } ==> index
            < s.tracks.len(),
        s.check_track_end(sink_empty, now).1 matches Effect::Load { index } ==> index
            < s.tracks.len(),
{
    law_next_index_is_in_the_playlist(s, true);
    match key.code {
        KeyCode::Char(c) => {
            lemma_char_loads(s, c, key.control, position, now);
        },
        _ => {},
    }
}

proof fn lemma_char_loads(s: State, c: char, control: bool, position: nat, now: nat)
    requires
        s.valid(),
    ensures
        s.handle_char(c, control, position, now).1 matches Effect::Load { index } ==> index
            < s.tracks.len(),
{
    law_next_index_is_in_the_playlist(s, false);
    assert(s.skip_next().1 matches Effect::Load { index } ==> index < s.tracks.len());
    assert(s.skip_previous(position) matches Effect::Load { index } ==> index < s.tracks.len());
    assert(s.toggle_pause().1 matches Effect::Load { index } ==> index < s.tracks.len());
}

/// Shuffling never picks the track that is playing, unless it is to be
/// repeated or is the only one.
pub proof fn law_shuffle_picks_another_track(s: State, natural_end: bool)
    requires
        s.valid(),
        s.shuffle,
        s.tracks.len() > 1,
        !(natural_end && s.repeat == RepeatMode::One),
    ensures
        s.next_index(natural_end).1 is Some,
        s.next_index(natural_end).1 != s.current,
{
    law_drawing_ends(s.rng, s.tracks.len() as usize, s.current);
}

/// Skipping forward always finds a track, in every playlist that has one.
pub proof fn law_skip_always_finds_a_track(s: State)
    requires
        s.valid(),
        s.tracks.len() > 0,
    ensures
        s.skip_next().1 is Load,
{
    law_next_index_is_in_the_playlist(s, false);
}

/// The player after skipping forward `n` times, with every track loading.
pub open spec fn after_skips(s: State, n: nat, now: nat) -> State
    decreases n,
{
    if n == 0 {
        s
    } else {
        let before = after_skips(s, (n - 1) as nat, now);
        match before.skip_next() {
            (after, Effect::Load { index }) => after.finish_load(
                index,
                OutcomeModel::Ready,
                now,
            ).0,
            (after, _) => after,
        }
    }
}

/// Without shuffling, skipping forward goes through the playlist in order and
/// round.
pub proof fn law_skipping_goes_round(s: State, n: nat, now: nat)
    requires
        s.valid(),
        !s.shuffle,
        s.current is Some,
    ensures
        after_skips(s, n, now).valid(),
        after_skips(s, n, now).current == Some(((s.current->0 + n) % s.tracks.len() as int) as usize),
        !after_skips(s, n, now).shuffle,
        after_skips(s, n, now).tracks == s.tracks,
    decreases n,
{
    let len = s.tracks.len() as int;
    let c = s.current->0 as int;
    if n == 0 {
        vstd::arithmetic::div_mod::lemma_small_mod(c as nat, len as nat);
    } else {
        law_skipping_goes_round(s, (n - 1) as nat, now);
        let at = (c + n - 1) % len;
        vstd::arithmetic::div_mod::lemma_mod_bound(c + n - 1, len);
        vstd::arithmetic::div_mod::lemma_add_mod_noop(c + n - 1, 1, len);
        vstd::arithmetic::div_mod::lemma_add_mod_noop(at, 1, len);
        vstd::arithmetic::div_mod::lemma_mod_twice(c + n - 1, len);
        if at + 1 < len {
            vstd::arithmetic::div_mod::lemma_small_mod((at + 1) as nat, len as nat);
        } else {
            vstd::arithmetic::div_mod::lemma_mod_self_0(len);
        }
        assert((c + n) % len == (at + 1) % len);
    }
}

/// As many skips as there are tracks lead back to the same track.
pub proof fn law_full_round_comes_back(s: State, now: nat)
    requires
        s.valid(),
        !s.shuffle,
        s.current is Some,
    ensures
        after_skips(s, s.tracks.len(), now).current == s.current,
{
    let len = s.tracks.len();
    law_skipping_goes_round(s, len, now);
    vstd::arithmetic::div_mod::lemma_mod_add_multiples_vanish(s.current->0 as int, len as int);
    vstd::arithmetic::div_mod::lemma_small_mod(s.current->0 as nat, len);
    assert(s.current->0 + len == len as int + s.current->0 as int);
}

/// Going to the previous track soon after skipping forward undoes the skip,
/// except from the last track to the first where not everything repeats.
pub proof fn law_previous_undoes_next(s: State, now: nat, position: nat)
    requires
        s.valid(),
        !s.shuffle,
        s.current is Some,
        s.current->0 + 1 < s.tracks.len() || s.repeat == RepeatMode::All,
        position <= 3 * second(),
    ensures
        after_skips(s, 1, now).skip_previous(position) == (Effect::Load { index: s.current->0 }),
{
    law_skipping_goes_round(s, 0, now);
    assert(after_skips(s, 0, now) == s);
}

/// The last track ends the playlist where nothing repeats.
pub proof fn law_playlist_ends(s: State, now: nat)
    requires
        s.valid(),
        s.has_ended(true, now),
        s.repeat == RepeatMode::Off,
        !s.shuffle,
        s.current->0 + 1 == s.tracks.len(),
    ensures
        s.check_track_end(true, now).0.status == PlayStatus::Stopped,
        s.check_track_end(true, now).0.current is None,
        s.check_track_end(true, now).0.message == Some(("End of playlist"@, now)),
        s.check_track_end(true, now).1 == Effect::Nothing,
{
}

/// A playlist that repeats never ends.
pub proof fn law_repeating_never_ends(s: State, now: nat)
    requires
        s.valid(),
        s.has_ended(true, now),
        s.repeat == RepeatMode::All || s.repeat == RepeatMode::One,
    ensures
        s.check_track_end(true, now).1 is Load,
{
    law_next_index_is_in_the_playlist(s, true);
}

/// A track that repeats is asked for again when it ends, whether or not
/// tracks are shuffled; skipping leaves it all the same.
pub proof fn law_one_track_repeats(s: State, now: nat)
    requires
        s.valid(),
        s.repeat == RepeatMode::One,
        s.current is Some,
    ensures
        s.has_ended(true, now) ==> s.check_track_end(true, now).1 == (Effect::Load {
            index: s.current->0,
        }),
        s.tracks.len() > 1 ==> s.skip_next().1 != (Effect::Load { index: s.current->0 }),
{
    if s.shuffle && s.tracks.len() > 1 {
        law_shuffle_picks_another_track(s, false);
    }
    law_next_index_is_in_the_playlist(s, false);
}

/// A track that was just started is not taken for one that has ended.
pub proof fn law_fresh_track_has_not_ended(
    s: State,
    index: usize,
    started: nat,
    now: nat,
    sink_empty: bool,
)
    requires
        s.valid(),
        index < s.tracks.len(),
        now < started + 400 * millisecond(),
    ensures
        ({
            let playing = s.finish_load(index, OutcomeModel::Ready, started).0;
            playing.check_track_end(sink_empty, now) == (playing, Effect::Nothing)
        }),
{
}

/// A track that cannot be loaded leaves what is played alone: only a message
/// appears.
pub proof fn law_failed_load_changes_nothing_else(
    s: State,
    index: usize,
    outcome: OutcomeModel,
    now: nat,
)
    requires
        !(outcome is Ready),
    ensures
        s.finish_load(index, outcome, now).1 == Effect::Nothing,
        s.finish_load(index, outcome, now).0 == (State {
            message: s.finish_load(index, outcome, now).0.message,
            ..s
        }),
{
}

/// A track that starts is selected, playing, and at the volume that was set.
pub proof fn law_started_track_is_selected(s: State, index: usize, now: nat)
    ensures
        ({
            let (playing, effect) = s.finish_load(index, OutcomeModel::Ready, now);
            &&& playing.current == Some(index)
            &&& playing.selected == index
            &&& playing.status == PlayStatus::Playing
            &&& effect == (Effect::SetVolume { volume: s.output_volume() })
            &&& playing.output_volume() == s.output_volume()
        }),
{
}

/// Pausing and resuming leads back to the same player.
pub proof fn law_pausing_twice_is_nothing(s: State)
    requires
        s.is_active(),
    ensures
        s.toggle_pause().0.toggle_pause().0 == s,
{
}

/// Muting and unmuting leads back to the same player, but for the message.
pub proof fn law_muting_twice_is_nothing(s: State, now: nat, later: nat)
    ensures
        ({
            let back = s.toggle_mute(now).toggle_mute(later);
            &&& back == (State { message: back.message, ..s })
            &&& back.output_volume() == s.output_volume()
        }),
        s.toggle_mute(now).muted ==> s.toggle_mute(now).output_volume() == 0,
{
}

/// Shuffling on and off leads back to the same player, but for the message.
pub proof fn law_shuffling_twice_is_nothing(s: State, now: nat, later: nat)
    ensures
        s.toggle_shuffle(now).toggle_shuffle(later) == (State {
            message: s.toggle_shuffle(now).toggle_shuffle(later).message,
            ..s
        }),
{
}

/// Three steps go through all repeat modes and back, but for the message.
pub proof fn law_repeat_has_three_modes(s: State, a: nat, b: nat, c: nat)
    ensures
        s.cycle_repeat(a).cycle_repeat(b).cycle_repeat(c) == (State {
            message: s.cycle_repeat(a).cycle_repeat(b).cycle_repeat(c).message,
            ..s
        }),
        s.cycle_repeat(a).repeat != s.repeat,
        s.cycle_repeat(a).cycle_repeat(b).repeat != s.repeat,
{
}

/// A step changes the volume that is shown by five percent, unless an end of
/// the range is in the way, and unmutes.
pub proof fn law_volume_moves_in_steps(s: State, now: nat)
    requires
        is_reachable(s.volume),
    ensures
        ({
            let up = s.change_volume(VOLUME_STEP as int, now);
            let down = s.change_volume(-VOLUME_STEP, now);
            let shown = volume_percent(s.volume);
            &&& volume_percent(up.volume) == clamped(shown as int + 5, 0, 100)
            &&& volume_percent(down.volume) == clamped(shown as int - 5, 0, 100)
            &&& is_reachable(up.volume) && is_reachable(down.volume)
            &&& !up.muted && !down.muted
        }),
{
    let shown = volume_percent(s.volume);
    law_steps_lead_to_levels(s.volume, shown);
    let up = changed_volume(s.volume, VOLUME_STEP as int);
    let down = changed_volume(s.volume, -VOLUME_STEP);
    law_steps_lead_to_levels(up, clamped(shown as int + 5, 0, 100) as nat);
    law_steps_lead_to_levels(down, clamped(shown as int - 5, 0, 100) as nat);
}

/// A step up and a step down lead back to the volume that was shown, unless an
/// end of the range was in the way.
pub proof fn law_volume_steps_cancel(s: State, now: nat, later: nat)
    requires
        is_reachable(s.volume),
    ensures
        ({
            let up = s.change_volume(VOLUME_STEP as int, now);
            let down = s.change_volume(-VOLUME_STEP, now);
            let shown = volume_percent(s.volume);
            &&& shown < 100 ==> volume_percent(up.change_volume(-VOLUME_STEP, later).volume)
                == shown
            &&& shown > 0 ==> volume_percent(
                down.change_volume(VOLUME_STEP as int, later).volume,
            ) == shown
        }),
{
    law_steps_lead_to_levels(s.volume, volume_percent(s.volume));
    law_volume_moves_in_steps(s, now);
    law_volume_moves_in_steps(s.change_volume(VOLUME_STEP as int, now), later);
    law_volume_moves_in_steps(s.change_volume(-VOLUME_STEP, now), later);
}

/// A player starts at 80 percent, and whatever is pressed, the volume shown is
/// a multiple of five percent, up to a hundred.
pub proof fn law_volume_keeps_to_steps(s: State, key: KeyEvent, position: nat, now: nat)
    ensures
        is_reachable(INITIAL_VOLUME as nat) && volume_percent(INITIAL_VOLUME as nat) == 80,
        is_reachable(s.volume) ==> ({
            let after = s.handle_event(key, position, now).0;
            &&& is_reachable(after.volume)
            &&& volume_percent(after.volume) % 5 == 0
            &&& volume_percent(after.volume) <= 100
        }),
{
    law_steps_lead_to_levels(INITIAL_VOLUME as nat, 80);
    if is_reachable(s.volume) {
        law_volume_moves_in_steps(s, now);
        let after = s.handle_event(key, position, now).0;
        match key.code {
            KeyCode::Char(c) => {
                assert(s.next_index(false).0.volume == s.volume);
                assert(s.skip_next().0.volume == s.volume);
                assert(s.toggle_pause().0.volume == s.volume);
            },
            _ => {},
        }
        law_steps_lead_to_levels(after.volume, volume_percent(after.volume));
    }
}

/// A seek ends within a track of known length, from wherever and however far
/// it goes.
pub proof fn law_seek_stays_in_the_track(position: nat, seconds: int, total: nat)
    requires
        total > 0,
    ensures
        seek_target(position, seconds, Some(total)) <= total,
{
}

/// In a track of known length a seek can always be made, and asks for one
/// position within the track.
pub proof fn law_known_lengths_can_be_sought(s: State, seconds: int, position: nat)
    requires
        s.valid(),
        s.is_active(),
        s.current_length() is Some,
        0 < s.current_length()->0 <= longest(),
    ensures
        s.can_seek(seconds, position),
        s.seek(seconds, position) is Seek,
        s.seek(seconds, position)->target <= s.current_length()->0,
{
    law_seek_stays_in_the_track(position, seconds, s.current_length()->0);
}

/// The next track of a valid player can always be told.
pub proof fn law_next_index_can_be_told(s: State, natural_end: bool)
    requires
        s.valid(),
    ensures
        s.has_next_index(natural_end),
{
}

/// Seeking forward and back by the same time leads back to the same position,
/// unless the end of the track was in the way.
pub proof fn law_seeking_back_undoes_seeking_forward(
    position: nat,
    seconds: int,
    total: Option<nat>,
)
    requires
        seconds >= 0,
        !seek_overshoots(position, seconds, total),
    ensures
        seek_target(seek_target(position, seconds, total), -seconds, total) == position,
{
    assert(seconds * second() >= 0) by (nonlinear_arith)
        requires
            seconds >= 0,
            second() == 1_000_000_000,
    ;
    assert((-seconds) * second() == -(seconds * second())) by (nonlinear_arith);
}

/// Nothing but q, Escape and Control-C ends the program, and nothing takes
/// that back.
pub proof fn law_quitting(s: State, key: KeyEvent, position: nat, now: nat, sink_empty: bool)
    ensures
        s.quit ==> s.handle_event(key, position, now).0.quit,
        !s.quit ==> (s.handle_event(key, position, now).0.quit <==> {
            &&& key.kind != KeyKind::Release
            &&& {
                ||| key.code == KeyCode::Esc
                ||| key.code == KeyCode::Char('q')
                ||| key.code == KeyCode::Char('c') && key.control
            }
        }),
        s.check_track_end(sink_empty, now).0.quit == s.quit,
{
    match key.code {
        KeyCode::Char(c) => {
            lemma_char_quits(s, c, key.control, position, now);
        },
        _ => {},
    }
}

proof fn lemma_char_quits(s: State, c: char, control: bool, position: nat, now: nat)
    ensures
        s.handle_char(c, control, position, now).0.quit == (s.quit || c == 'q' || (c == 'c'
            && control)),
{
    assert(s.next_index(false).0.quit == s.quit);
    assert(s.skip_next().0.quit == s.quit);
    assert(s.toggle_pause().0.quit == s.quit);
}

/// Letting a key go does nothing.
pub proof fn law_key_release_does_nothing(s: State, key: KeyEvent, position: nat, now: nat)
    requires
        key.kind == KeyKind::Release,
    ensures
        s.handle_event(key, position, now) == (s, Effect::Nothing),
{
}

/// Home and End lead to the ends of the playlist and change nothing else.
pub proof fn law_home_and_end(s: State, key: KeyEvent, position: nat, now: nat)
    requires
        s.valid(),
    ensures
        key.code == KeyCode::Home ==> s.handle_key(key, position, now) == (
            State { selected: 0, ..s },
            Effect::Nothing,
        ),
        key.code == KeyCode::End && s.tracks.len() > 0 ==> s.handle_key(key, position, now) == (
            State { selected: (s.tracks.len() - 1) as usize, ..s },
            Effect::Nothing,
        ),
        key.code == KeyCode::End && s.tracks.len() == 0 ==> s.handle_key(key, position, now) == (
            s,
            Effect::Nothing,
        ),
{
}

/// The selection stays in the playlist, and moving it by the same number of
/// entries there and back changes nothing unless an end was in the way.
pub proof fn law_selection_moves(s: State, delta: int)
    requires
        s.valid(),
    ensures
        s.move_selection(delta).valid(),
        s.move_selection(delta) == (State { selected: s.move_selection(delta).selected, ..s }),
        0 <= s.selected + delta < s.tracks.len() ==> s.move_selection(delta).move_selection(-delta)
            == s,
        s.selected + delta < 0 ==> s.move_selection(delta).selected == 0,
        s.selected + delta >= s.tracks.len() && s.tracks.len() > 0 ==> s.move_selection(
            delta,
        ).selected == s.tracks.len() - 1,
{
}

/// After a stop nothing is current, nothing ends, and the pause key asks for
/// the selected track.
pub proof fn law_stopping(s: State, now: nat, later: nat, sink_empty: bool)
    requires
        s.valid(),
    ensures
        ({
            let stopped = s.stop_playback(now);
            &&& stopped.valid()
            &&& stopped.current is None
            &&& stopped.check_track_end(sink_empty, later) == (stopped, Effect::Nothing)
            &&& stopped.toggle_pause() == (stopped, s.play_index(s.selected))
        }),
{
}

/// A cut text has at most the characters allowed, and is the start of the text
/// with an ellipsis where it had to be cut.
pub proof fn law_truncated_text_fits(text: Seq<char>, max_chars: nat)
    ensures
        truncated(text, max_chars).len() <= max_chars,
        text.len() <= max_chars ==> truncated(text, max_chars) == text,
        text.len() > max_chars > 0 ==> truncated(text, max_chars).len() == max_chars && truncated(
            text,
            max_chars,
        ).last() == '…' && truncated(text, max_chars).drop_last() == text.take(max_chars - 1),
{
    reveal_strlit("…");
    if text.len() > max_chars > 0 {
        assert(truncated(text, max_chars).drop_last() =~= text.take(max_chars - 1));
    }
}

/// The characters of a line.
pub open spec fn line_len(line: Seq<Span>) -> nat
    decreases line.len(),
{
    if line.len() == 0 {
        0
    } else {
        line_len(line.drop_last()) + line.last().text.len()
    }
}

/// A playlist line is as wide as the panel, so that the lengths line up at the
/// right end; where there is no room for what surrounds the label, the line
/// has that and one column between.
pub proof fn law_playlist_lines_fill_the_panel(
    index: nat,
    track: TrackModel,
    is_current: bool,
    inner_width: nat,
)
    ensures
        line_len(entry_line(index, track, is_current, inner_width)) == if inner_width
            > entry_base(index, track, is_current) {
            inner_width
        } else {
            entry_base(index, track, is_current) + 1
        },
{
    let line = entry_line(index, track, is_current, inner_width);
    let padding = entry_padding(index, track, is_current, inner_width);
    law_truncated_text_fits(
        label(track),
        monus(inner_width, entry_base(index, track, is_current) + 2),
    );
    reveal_strlit(" ");
    lemma_repeated_len(" "@, padding);
    reveal_with_fuel(line_len, 5);
    assert(line.drop_last().drop_last().drop_last().drop_last().len() == 0);
}

/// The progress bar is as wide as it was made, 5 to 40 columns, and is filled
/// from the left.
pub proof fn law_progress_bar_has_its_width(
    s: State,
    position: nat,
    width: u16,
    played: nat,
    total: Option<nat>,
    scaled: nat,
)
    ensures
        5 <= bar_width(s, position, width) <= 40,
        ({
            let columns = bar_width(s, position, width);
            let filled = filled_columns(played, total, columns, scaled);
            let drawn = bar(filled, columns);
            &&& filled <= columns
            &&& drawn.len() == columns
            &&& forall|i: int| 0 <= i < filled ==> #[trigger] drawn[i] == '█'
            &&& forall|i: int| filled <= i < columns ==> #[trigger] drawn[i] == '░'
        }),
{
    let columns = bar_width(s, position, width);
    let filled = filled_columns(played, total, columns, scaled);
    if total is Some && played < total->0 {
        lemma_columns(played, total->0, columns, scaled);
    }
    reveal_strlit("█");
    reveal_strlit("░");
    lemma_repeated_char("█"@, filled);
    lemma_repeated_char("░"@, (columns - filled) as nat);
}

/// The bar is empty where nothing is played or the length is unknown or zero,
/// and full where the track has played to its end.
pub proof fn law_progress_bar_at_its_ends(s: State, position: nat, width: nat, scaled: nat)
    ensures
        ({
            let played = shown_position(s, position);
            let total = s.current_length();
            let filled = filled_columns(played, total, width, scaled);
            &&& !s.is_active() || total is None || total->0 == 0 ==> filled == 0
            &&& s.is_active() && total is Some && position >= total->0 > 0 ==> filled == width
        }),
{
    let total = s.current_length();
    if !s.is_active() && total is Some && total->0 > 0 {
        lemma_small_mod(0, total->0);
        assert(0nat / total->0 == 0) by (nonlinear_arith)
            requires
                total->0 > 0,
        ;
        assert(0 * width == 0);
    }
}

/// The filled part of the bar is the played part of the track: the one differs
/// from the other by no more than half a column and a thousandth.
pub proof fn law_progress_bar_is_in_proportion(played: nat, total: nat, width: nat, scaled: nat)
    requires
        played <= total,
        total > 0,
    ensures
        ({
            let filled = filled_columns(played, Some(total), width, scaled);
            &&& 1024 * (filled * total - played * width) <= 513 * total
            &&& 1024 * (played * width - filled * total) <= 513 * total
        }),
{
    let filled = filled_columns(played, Some(total), width, scaled);
    let product = played * width;
    if played < total {
        let full = product / total;
        lemma_fundamental_div_mod(product as int, total as int);
        lemma_mod_bound(product as int, total as int);
        assert(full * total == total * full) by (nonlinear_arith);
        assert((full + 1) * total == total * full + total) by (nonlinear_arith);
    } else {
        assert(width * total == total * width) by (nonlinear_arith);
    }
}

proof fn lemma_nearest_columns_never_fall(
    product: nat,
    scaled: nat,
    later_product: nat,
    later_scaled: nat,
    total: nat,
)
    requires
        total > 0,
        product <= later_product,
        scaled <= later_scaled || 512 * (later_product - product) > total,
    ensures
        nearest_columns(product, total, scaled) <= nearest_columns(
            later_product,
            total,
            later_scaled,
        ),
{
    lemma_fundamental_div_mod(product as int, total as int);
    lemma_fundamental_div_mod(later_product as int, total as int);
    lemma_div_is_ordered(product as int, later_product as int, total as int);
}

/// The filled part of the footer's bar never falls as the track plays on, for
/// one width of the bar. What decides in the middle of a column may be
/// anything, once the track has played on by more than a 512th of a column;
/// before that it must not fall itself.
pub proof fn law_progress_bar_never_falls(
    s: State,
    width: u16,
    position: nat,
    scaled: nat,
    now: nat,
    later_position: nat,
    later_scaled: nat,
    later: nat,
)
    requires
        position <= later_position,
        bar_width(s, position, width) == bar_width(s, later_position, width),
        scaled <= later_scaled || (s.current_length() matches Some(total) ==> 512 * (
        later_position - position) * bar_width(s, position, width) > total),
    ensures
        ({
            let columns = bar_width(s, position, width);
            let total = s.current_length();
            let before = filled_columns(shown_position(s, position), total, columns, scaled);
            let after = filled_columns(
                shown_position(s, later_position),
                total,
                columns,
                later_scaled,
            );
            &&& before <= after <= columns
            &&& footer_model(s, width, position, scaled, now).lines[0][1].text == bar(
                before,
                columns,
            )
            &&& footer_model(s, width, later_position, later_scaled, later).lines[0][1].text == bar(
                after,
                columns,
            )
        }),
{
    let columns = bar_width(s, position, width);
    let played = shown_position(s, position);
    let later_played = shown_position(s, later_position);
    if let Some(total) = s.current_length() {
        if 0 < total && played < total {
            lemma_columns(played, total, columns, scaled);
        }
        if 0 < total && later_played < total {
            lemma_columns(later_played, total, columns, later_scaled);
            if s.is_active() {
                let product = played * columns;
                let later_product = later_played * columns;
                assert(product <= later_product) by (nonlinear_arith)
                    requires
                        product == played * columns,
                        later_product == later_played * columns,
                        played <= later_played,
                ;
                assert(512 * (later_played - played) * columns == 512 * (later_product - product))
                    by (nonlinear_arith)
                    requires
                        product == played * columns,
                        later_product == later_played * columns,
                ;
                lemma_nearest_columns_never_fall(
                    product,
                    scaled,
                    later_product,
                    later_scaled,
                    total,
                );
            } else {
                lemma_small_mod(0, total);
                assert(0nat / total == 0) by (nonlinear_arith)
                    requires
                        total > 0,
                ;
                assert(0 * columns == 0);
            }
        }
    }
}

proof fn lemma_repeated_char(unit: Seq<char>, n: nat)
    requires
        unit.len() == 1,
    ensures
        repeated(unit, n).len() == n,
        forall|i: int| 0 <= i < n ==> #[trigger] repeated(unit, n)[i] == unit[0],
    decreases n,
{
    if n > 0 {
        lemma_repeated_char(unit, (n - 1) as nat);
    }
}

/// A message is shown for three seconds, and the list of keys after that.
pub proof fn law_messages_time_out(s: State, text: Seq<char>, at: nat, now: nat)
    requires
        at <= now,
    ensures
        now < at + 3 * second() ==> info_span(s.set_message(text, at), now).text == " "@ + text,
        now >= at + 3 * second() ==> info_span(s.set_message(text, at), now).text == " "@
            + HELP_TEXT@,
{
}

proof fn lemma_digit(d: nat, e: nat)
    requires
        d < 10,
        e < 10,
        digit(d) == digit(e),
    ensures
        d == e,
{
}

proof fn lemma_decimal_injective(m: nat, n: nat)
    requires
        decimal(m) == decimal(n),
    ensures
        m == n,
    decreases m,
{
    lemma_decimal_last(m);
    lemma_decimal_last(n);
    lemma_digit(m % 10, n % 10);
    if m >= 10 {
        lemma_decimal_injective(m / 10, n / 10);
    }
}

proof fn lemma_decimal_last(n: nat)
    ensures
        decimal(n).last() == digit(n % 10),
        n < 10 <==> decimal(n).len() == 1,
        n >= 10 ==> decimal(n).drop_last() == decimal(n / 10),
{
    if n >= 10 {
        lemma_decimal_not_empty(n / 10);
        assert(decimal(n).drop_last() =~= decimal(n / 10));
    } else {
        assert(decimal(n) == seq![digit(n)]);
    }
}

proof fn lemma_decimal_not_empty(n: nat)
    ensures
        decimal(n).len() > 0,
{
}

proof fn lemma_two_places(n: nat)
    requires
        n < 100,
    ensures
        decimal2(n) =~= seq![digit(n / 10), digit(n % 10)],
{
    if n >= 10 {
        assert(decimal(n / 10) =~= seq![digit(n / 10)]);
    }
}

/// The places of a clock, from the right.
proof fn lemma_clock_places(t: nat)
    ensures
        ({
            let n = clock(t).len() as int;
            &&& n >= 5
            &&& n == 5 <==> t / 3600 == 0
            &&& clock(t)[n - 1] == digit((t % 60) % 10)
            &&& clock(t)[n - 2] == digit((t % 60) / 10)
            &&& clock(t)[n - 4] == digit(((t % 3600) / 60) % 10)
            &&& clock(t)[n - 5] == digit(((t % 3600) / 60) / 10)
            &&& n > 5 ==> clock(t).take(n - 6) == decimal(t / 3600)
        }),
{
    reveal_strlit(":");
    lemma_two_places((t % 3600) / 60);
    lemma_two_places(t % 60);
    lemma_decimal_not_empty(t / 3600);
    let n = clock(t).len() as int;
    if n > 5 {
        assert(clock(t).take(n - 6) =~= decimal(t / 3600));
    }
}

/// Numbers below a hundred with the same two digits are the same.
proof fn lemma_two_digits(m: nat, n: nat)
    requires
        m < 100,
        n < 100,
        digit(m % 10) == digit(n % 10),
        digit(m / 10) == digit(n / 10),
    ensures
        m == n,
{
    lemma_digit(m % 10, n % 10);
    lemma_digit(m / 10, n / 10);
}

/// The clock tells every second apart.
pub proof fn law_clock_tells_the_second(a: nat, b: nat)
    requires
        clock(a) == clock(b),
    ensures
        a == b,
{
    lemma_clock_places(a);
    lemma_clock_places(b);
    lemma_two_digits(a % 60, b % 60);
    lemma_two_digits((a % 3600) / 60, (b % 3600) / 60);
    if clock(a).len() > 5 {
        lemma_decimal_injective(a / 3600, b / 3600);
    }
}

proof fn lemma_last_dot_of_alike(a: Seq<u8>, b: Seq<u8>)
    requires
        a.len() == b.len(),
        forall|i: int| 0 <= i < a.len() ==> lower(#[trigger] a[i]) == lower(b[i]),
    ensures
        last_dot(a) == last_dot(b),
    decreases a.len(),
{
    if a.len() > 0 {
        let end = a.len() - 1;
        assert(lower(a[end]) == lower(b[end]));
        assert forall|i: int| 0 <= i < a.drop_last().len() implies lower(
            #[trigger] a.drop_last()[i],
        ) == lower(b.drop_last()[i]) by {
            assert(lower(a[i]) == lower(b[i]));
        }
        lemma_last_dot_of_alike(a.drop_last(), b.drop_last());
    }
}

proof fn lemma_alike_names_are_audio_alike(a: Seq<u8>, b: Seq<u8>)
    requires
        a.len() == b.len(),
        forall|i: int| 0 <= i < a.len() ==> lower(#[trigger] a[i]) == lower(b[i]),
        is_audio_name(Some(a)),
    ensures
        is_audio_name(Some(b)),
{
    lemma_last_dot_of_alike(a, b);
    lemma_last_dot(a);
    let x = extension(a)->0;
    let y = extension(b)->0;
    let k = choose|k: int|
        0 <= k < audio_extensions().len() && spells(x, #[trigger] audio_extensions()[k]);
    let text = audio_extensions()[k];
    assert forall|i: int| 0 <= i < text.len() implies lower(#[trigger] y[i]) as u32
        == text[i] as u32 by {
        assert(lower(x[i]) as u32 == text[i] as u32);
        let j = last_dot(a) + 1 + i;
        assert(lower(a[j]) == lower(b[j]));
    }
    assert(spells(y, audio_extensions()[k]));
}

/// The case of the letters in a file name does not matter to whether it names
/// an audio file.
pub proof fn law_audio_files_in_either_case(a: Seq<u8>, b: Seq<u8>)
    requires
        a.len() == b.len(),
        forall|i: int| 0 <= i < a.len() ==> lower(#[trigger] a[i]) == lower(b[i]),
    ensures
        is_audio_name(Some(a)) == is_audio_name(Some(b)),
{
    assert forall|i: int| 0 <= i < b.len() implies lower(#[trigger] b[i]) == lower(a[i]) by {
        assert(lower(a[i]) == lower(b[i]));
    }
    if is_audio_name(Some(a)) {
        lemma_alike_names_are_audio_alike(a, b);
    }
    if is_audio_name(Some(b)) {
        lemma_alike_names_are_audio_alike(b, a);
    }
}

/// A file name with an extension is its stem, a dot, and the extension, in
/// which there is no dot; the stem is not empty.
pub proof fn law_file_names_split_at_the_last_dot(name: Seq<u8>)
    ensures
        match extension(name) {
            Some(ext) => {
                &&& name == stem(name) + seq![46u8] + ext
                &&& stem(name).len() > 0
                &&& !ext.contains(46)
            },
            None => stem(name) == name,
        },
{
    lemma_last_dot(name);
    if let Some(ext) = extension(name) {
        assert(name =~= stem(name) + seq![46u8] + ext);
        assert forall|i: int| 0 <= i < ext.len() implies ext[i] != 46 by {
            assert(name[last_dot(name) + 1 + i] != 46);
        }
    }
}

proof fn lemma_trimmed_start(s: Seq<char>)
    ensures
        trimmed_start(s).len() > 0 ==> !is_white_space(trimmed_start(s).first()),
    decreases s.len(),
{
    if s.len() > 0 && is_white_space(s.first()) {
        lemma_trimmed_start(s.drop_first());
    }
}

proof fn lemma_trimmed_end(s: Seq<char>)
    ensures
        trimmed_end(s).len() <= s.len(),
        trimmed_end(s).len() > 0 ==> !is_white_space(trimmed_end(s).last()) && trimmed_end(
            s,
        ).first() == s.first(),
    decreases s.len(),
{
    if s.len() > 0 && is_white_space(s.last()) {
        lemma_trimmed_end(s.drop_last());
    }
}

/// A title or artist taken from a tag has no white space around it, and
/// trimming it again changes nothing.
pub proof fn law_tag_texts_are_trimmed(s: Seq<char>)
    ensures
        trimmed(s).len() > 0 ==> !is_white_space(trimmed(s).first()) && !is_white_space(
            trimmed(s).last(),
        ),
        trimmed(trimmed(s)) == trimmed(s),
{
    lemma_trimmed_start(s);
    lemma_trimmed_end(trimmed_start(s));
}

/// A tag without a usable text leaves the text that was there.
pub proof fn law_blank_tags_are_ignored(text: Option<Seq<char>>, otherwise: Seq<char>)
    ensures
        otherwise.len() > 0 ==> text_or(text, otherwise).len() > 0,
        text is None ==> text_or(text, otherwise) == otherwise,
        (text matches Some(t) && forall|i: int| 0 <= i < t.len() ==> is_white_space(#[trigger] t[i]))
            ==> text_or(text, otherwise) == otherwise,
{
    if let Some(t) = text {
        if forall|i: int| 0 <= i < t.len() ==> is_white_space(#[trigger] t[i]) {
            lemma_blank(t);
        }
    }
}

proof fn lemma_blank(t: Seq<char>)
    requires
        forall|i: int| 0 <= i < t.len() ==> is_white_space(#[trigger] t[i]),
    ensures
        trimmed_start(t).len() == 0,
    decreases t.len(),
{
    if t.len() > 0 {
        assert(is_white_space(t[0]));
        assert forall|i: int| 0 <= i < t.drop_first().len() implies is_white_space(
            #[trigger] t.drop_first()[i],
        ) by {
            assert(is_white_space(t[i + 1]));
        }
        lemma_blank(t.drop_first());
    }
}

} // verus!
