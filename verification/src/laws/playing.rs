use vstd::arithmetic::div_mod::{
    lemma_fundamental_div_mod, lemma_mod_bound, lemma_mod_multiples_basic, lemma_mod_self_0,
    lemma_small_mod,
};
use vstd::prelude::*;

use crate::keys::{KeyCode, KeyEvent, KeyKind};
use crate::model::{Effect, OutcomeModel, PlayStatus, RepeatMode, State};
use crate::player::{seed, Action, App};
use crate::shuffle::period::{law_every_state_is_reached, law_state_stays_nonzero};
use crate::shuffle::pick::{draw, draws_needed, law_drawing_ends, settles};
use crate::shuffle::xorshift::{iterate, lemma_iterate_add, lemma_step_linear, step};
use crate::text::decimal;
use crate::track::TrackModel;
use crate::volume::{
    law_steps_lead_to_levels, lemma_spacing, rounded, spacing, volume_percent, FULL_VOLUME, INITIAL_VOLUME,
    VOLUME_STEP,
};

verus! {

/// Where nothing is drawn, the next track is the one after the current one.
/// After the last one comes the first one, except where the last one has come
/// to its end and the playlist does not repeat. Where none is current, the
/// first one is next. The player stays as it was.
pub proof fn law_next_track_in_order(s: State, natural_end: bool)
    requires
        0 < s.tracks.len() <= usize::MAX,
        !s.shuffle || s.tracks.len() == 1,
        !(natural_end && s.repeat == RepeatMode::One),
        s.current matches Some(c) ==> c < s.tracks.len(),
    ensures
        ({
            let (after, next) = s.next_index(natural_end);
            let len = s.tracks.len();
            &&& after == s
            &&& s.current is None ==> next == Some(0usize)
            &&& s.current is Some && s.current->0 + 1 < len ==> next is Some && next->0 == s.current->0 + 1
            &&& s.current is Some && s.current->0 + 1 == len && (!natural_end || s.repeat
                == RepeatMode::All) ==> next == Some(0usize)
            &&& s.current is Some && s.current->0 + 1 == len && natural_end && s.repeat
                == RepeatMode::Off ==> next is None
        }),
{
}

/// The next track is the same one where it has come to its end and is to be
/// repeated, and there is none in an empty playlist.
pub proof fn law_next_track_without_choice(s: State, natural_end: bool)
    ensures
        s.tracks.len() == 0 ==> s.next_index(natural_end) == (s, None::<usize>),
        s.tracks.len() > 0 && s.repeat == RepeatMode::One && s.current is Some ==> s.next_index(true)
            == (s, s.current),
        s.tracks.len() > 0 && s.repeat == RepeatMode::One && s.current is None ==> s.next_index(true)
            == (s, Some(0usize)),
{
}

/// The state of the generator stands for another track than the current one
/// after `n` steps, and for the current one until then.
pub open spec fn is_first_other(rng: u64, len: nat, current: Option<usize>, n: nat) -> bool {
    &&& n >= 1
    &&& current is None || current->0 as nat != (iterate(rng, n) as usize) as nat % len
    &&& n > 1 ==> current is Some
    &&& forall|m: nat|
        1 <= m < n ==> current->0 as nat == ((#[trigger] iterate(rng, m)) as usize) as nat % len
}

/// Shuffling picks from the whole playlist: the track is the state of the
/// generator modulo the number of tracks. The generator is stepped until that
/// is another track than the current one, and no further.
pub proof fn law_shuffle_draws_from_the_whole_playlist(s: State, natural_end: bool)
    requires
        s.shuffle,
        2 <= s.tracks.len() <= usize::MAX,
        s.rng != 0,
        !(natural_end && s.repeat == RepeatMode::One),
    ensures
        ({
            let (after, next) = s.next_index(natural_end);
            let len = s.tracks.len();
            &&& after == (State { rng: after.rng, ..s })
            &&& after.rng != 0
            &&& next is Some
            &&& next != s.current
            &&& next->0 as nat == (after.rng as usize) as nat % len
            &&& exists|n: nat|
                #[trigger] is_first_other(s.rng, len, s.current, n) && after.rng == iterate(
                    s.rng,
                    n,
                )
        }),
{
    let len = s.tracks.len() as usize;
    let n = draws_needed(s.rng, len, s.current);
    law_drawing_ends(s.rng, len, s.current);
    law_state_stays_nonzero(s.rng, n);
    assert(settles(s.rng, len, s.current, n));
    assert forall|m: nat| 1 <= m < n implies s.current->0 as nat == ((#[trigger] iterate(
        s.rng,
        m,
    )) as usize) as nat % s.tracks.len() by {
        assert(Some(draw(s.rng, len, m)) == s.current);
    }
    if n > 1 {
        assert(Some(draw(s.rng, len, 1)) == s.current);
    }
    assert(draw(s.rng, len, n) as nat == (iterate(s.rng, n) as usize) as nat % s.tracks.len());
    assert(is_first_other(s.rng, s.tracks.len(), s.current, n));
}

/// A number that stands for the track `i` in a playlist of `len` tracks.
proof fn lemma_number_of_a_track(i: usize, len: usize) -> (y: u64)
    requires
        i < len,
    ensures
        y != 0,
        (y as usize) as nat % len as nat == i,
{
    if i > 0 {
        lemma_small_mod(i as nat, len as nat);
        assert((i as u64) as usize == i);
        i as u64
    } else {
        lemma_mod_self_0(len as int);
        assert((len as u64) as usize == len);
        len as u64
    }
}

/// Shuffling can lead to every track but the current one, however long the
/// playlist is.
pub proof fn law_shuffle_reaches_every_other_track(s: State, natural_end: bool, i: usize)
    requires
        s.shuffle,
        2 <= s.tracks.len() <= usize::MAX,
        !(natural_end && s.repeat == RepeatMode::One),
        i < s.tracks.len(),
        s.current != Some(i),
    ensures
        exists|rng: u64|
            rng != 0 && (#[trigger] (State { rng, ..s }).next_index(natural_end)).1 == Some(i),
{
    let len = s.tracks.len() as usize;
    let y = lemma_number_of_a_track(i, len);
    law_every_state_is_reached(y, y);
    let n = choose|n: nat| n >= 1 && #[trigger] iterate(y, n) == y;
    let x = iterate(y, (n - 1) as nat);
    law_state_stays_nonzero(y, (n - 1) as nat);
    reveal_with_fuel(iterate, 2);
    assert(iterate(x, 1) == step(iterate(x, 0)));
    assert(iterate(x, 1) == y);
    assert(settles(x, len, s.current, 1));
    law_drawing_ends(x, len, s.current);
    assert((State { rng: x, ..s }).next_index(natural_end).1 == Some(i));
}

/// One draw is enough where it stands for another track than the current one.
pub proof fn law_first_draw_counts(s: State, natural_end: bool)
    requires
        s.shuffle,
        2 <= s.tracks.len() <= usize::MAX,
        !(natural_end && s.repeat == RepeatMode::One),
        s.current is None || s.current->0 as nat != (step(s.rng) as usize) as nat
            % s.tracks.len(),
    ensures
        s.next_index(natural_end).0.rng == step(s.rng),
        s.next_index(natural_end).1 is Some,
        s.next_index(natural_end).1->0 as nat == (step(s.rng) as usize) as nat % s.tracks.len(),
{
    let len = s.tracks.len() as usize;
    reveal_with_fuel(iterate, 2);
    assert(iterate(s.rng, 1) == step(iterate(s.rng, 0)));
    assert(settles(s.rng, len, s.current, 1));
    if s.rng == 0 {
        lemma_step_linear(0, 0);
        lemma_small_mod(0, len as nat);
        assert(0u64 as usize == 0usize);
    }
    law_drawing_ends(s.rng, len, s.current);
}

/// A draw that stands for the current track is passed over: the player goes on
/// as if the generator had been stepped before.
pub proof fn law_draws_of_the_current_track_are_passed_over(s: State, natural_end: bool)
    requires
        s.shuffle,
        2 <= s.tracks.len() <= usize::MAX,
        s.rng != 0,
        !(natural_end && s.repeat == RepeatMode::One),
        s.current is Some,
        s.current->0 as nat == (step(s.rng) as usize) as nat % s.tracks.len(),
    ensures
        s.next_index(natural_end) == (State { rng: step(s.rng), ..s }).next_index(natural_end),
{
    let len = s.tracks.len() as usize;
    let stepped = step(s.rng);
    reveal_with_fuel(iterate, 2);
    assert(iterate(s.rng, 1) == stepped);
    law_state_stays_nonzero(s.rng, 1);
    law_drawing_ends(s.rng, len, s.current);
    law_drawing_ends(stepped, len, s.current);
    let n = draws_needed(stepped, len, s.current);
    assert forall|m: nat| #[trigger] iterate(stepped, m) == iterate(s.rng, m + 1) by {
        lemma_iterate_add(s.rng, 1, m);
        assert(1 + m == m + 1);
    }
    assert(iterate(stepped, n) == iterate(s.rng, n + 1));
    assert(draw(stepped, len, n) == draw(s.rng, len, n + 1));
    assert forall|m: nat| 1 <= m < n + 1 implies Some(#[trigger] draw(s.rng, len, m))
        == s.current by {
        if m == 1 {
            assert(draw(s.rng, len, 1) as nat == (stepped as usize) as nat % s.tracks.len());
        } else {
            assert(iterate(stepped, (m - 1) as nat) == iterate(s.rng, m));
            assert(Some(draw(stepped, len, (m - 1) as nat)) == s.current);
        }
    }
    assert(settles(s.rng, len, s.current, n + 1));
}

/// The generator mixes its state in three rounds: by 13 places up, by 7 places
/// down, and by 17 places up.
pub proof fn law_generator_mixes_in_three_rounds(x: u64, a: u64, b: u64)
    requires
        a ^ x == x << 13,
        b ^ a == a >> 7,
    ensures
        step(x) ^ b == b << 17,
{
    assert(step(x) ^ b == b << 17) by (bit_vector)
        requires
            a ^ x == x << 13,
            b ^ a == a >> 7,
    ;
}

/// Asking for a track asks for that one, where the playlist has it.
pub proof fn law_asking_for_a_track(s: State, index: usize)
    ensures
        index < s.tracks.len() ==> s.play_index(index) == (Effect::Load { index }),
        index >= s.tracks.len() ==> s.play_index(index) == Effect::Nothing,
{
}

/// Skipping asks for the next track, and going on by itself asks for the same
/// one.
pub proof fn law_skipping_asks_for_the_next_track(s: State)
    requires
        s.tracks.len() <= usize::MAX,
    ensures
        s.skip_next().0 == s.next_index(false).0,
        s.next_index(false).1 is Some && s.next_index(false).1->0 < s.tracks.len()
            ==> s.skip_next().1 == (Effect::Load { index: s.next_index(false).1->0 }),
        s.next_index(false).1 is None ==> s.skip_next().1 == Effect::Nothing,
{
}

/// A player that does not play, a track that was started less than 400
/// milliseconds ago, and one of which something is left are left alone.
pub proof fn law_unfinished_tracks_play_on(s: State, sink_empty: bool, now: nat)
    requires
        s.status != PlayStatus::Playing || now < s.started_at + 400_000_000 || !sink_empty,
    ensures
        s.check_track_end(sink_empty, now) == (s, Effect::Nothing),
{
}

/// A track that has come to its end is followed by the one after it, without
/// shuffling and unless it is to be repeated. The last one is followed by the
/// first one where everything repeats; else the player stops and tells so.
pub proof fn law_ended_tracks_are_followed_in_order(s: State, now: nat)
    requires
        s.status == PlayStatus::Playing,
        s.started_at + 400_000_000 <= now,
        s.tracks.len() <= usize::MAX,
        s.current is Some,
        s.current->0 < s.tracks.len(),
        !s.shuffle || s.tracks.len() == 1,
        s.repeat != RepeatMode::One,
    ensures
        ({
            let (after, effect) = s.check_track_end(true, now);
            let c = s.current->0;
            let len = s.tracks.len();
            &&& c + 1 < len ==> after == s && effect is Load && effect->index == c + 1
            &&& c + 1 == len && s.repeat == RepeatMode::All ==> after == s && effect is Load
                && effect->index == 0
            &&& c + 1 == len && s.repeat == RepeatMode::Off ==> effect == Effect::Nothing && after
                == (State {
                status: PlayStatus::Stopped,
                current: None,
                message: Some(("End of playlist"@, now)),
                ..s
            })
        }),
{
    law_next_track_in_order(s, true);
}

/// A track that has come to its end and is to be repeated is asked for again.
pub proof fn law_ended_tracks_are_repeated(s: State, now: nat)
    requires
        s.status == PlayStatus::Playing,
        s.started_at + 400_000_000 <= now,
        s.current is Some,
        s.current->0 < s.tracks.len(),
        s.repeat == RepeatMode::One,
    ensures
        s.check_track_end(true, now) == (s, Effect::Load { index: s.current->0 }),
{
}

/// With shuffling, a track that has come to its end is followed by the one that
/// is drawn.
pub proof fn law_ended_tracks_are_followed_by_a_draw(s: State, now: nat)
    requires
        s.status == PlayStatus::Playing,
        s.started_at + 400_000_000 <= now,
        s.shuffle,
        2 <= s.tracks.len() <= usize::MAX,
        s.rng != 0,
        s.repeat != RepeatMode::One,
    ensures
        ({
            let (after, effect) = s.check_track_end(true, now);
            &&& after == (State { rng: after.rng, ..s })
            &&& effect is Load
            &&& effect->index as nat == (after.rng as usize) as nat % s.tracks.len()
            &&& s.current != Some(effect->index)
        }),
{
    law_shuffle_draws_from_the_whole_playlist(s, true);
    let drawn = s.next_index(true).1->0;
    assert(drawn < s.tracks.len());
}

/// With shuffling, the key for the next track asks for the one that is drawn.
pub proof fn law_next_key_draws(s: State, key: KeyEvent, position: nat, now: nat)
    requires
        key.kind != KeyKind::Release,
        key.code == KeyCode::Char('n'),
        s.shuffle,
        2 <= s.tracks.len() <= usize::MAX,
        s.rng != 0,
    ensures
        ({
            let (after, effect) = s.handle_event(key, position, now);
            &&& after == (State { rng: after.rng, ..s })
            &&& effect is Load
            &&& effect->index as nat == (after.rng as usize) as nat % s.tracks.len()
            &&& s.current != Some(effect->index)
        }),
{
    law_shuffle_draws_from_the_whole_playlist(s, false);
    let drawn = s.next_index(false).1->0;
    assert(drawn < s.tracks.len());
}

/// The player after `n` tracks have come to their ends, one after the other,
/// with every track that is asked for loading.
pub open spec fn after_ends(s: State, n: nat, started: nat) -> State
    decreases n,
{
    if n == 0 {
        s
    } else {
        let before = after_ends(s, (n - 1) as nat, started);
        match before.check_track_end(true, started + 400_000_000) {
            (after, Effect::Load { index }) => after.finish_load(
                index,
                OutcomeModel::Ready,
                started,
            ).0,
            (after, _) => after,
        }
    }
}

/// Without shuffling and repeating, the playlist is played through track by
/// track, and then the player stops.
pub proof fn law_playlist_is_played_through(s: State, n: nat, started: nat)
    requires
        s.status == PlayStatus::Playing,
        s.started_at == started,
        s.tracks.len() <= usize::MAX,
        s.current is Some,
        s.current->0 + n <= s.tracks.len(),
        s.current->0 < s.tracks.len(),
        !s.shuffle,
        s.repeat == RepeatMode::Off,
    ensures
        ({
            let after = after_ends(s, n, started);
            let at = s.current->0 + n;
            &&& at < s.tracks.len() ==> after.status == PlayStatus::Playing && after.current is Some
                && after.current->0 == at
            &&& at == s.tracks.len() ==> after.status == PlayStatus::Stopped && after.current is None
            &&& at < s.tracks.len() ==> after == (State {
                current: after.current,
                selected: after.selected,
                ..s
            })
        }),
    decreases n,
{
    if n > 0 {
        law_playlist_is_played_through(s, (n - 1) as nat, started);
        let before = after_ends(s, (n - 1) as nat, started);
        law_ended_tracks_are_followed_in_order(before, started + 400_000_000);
    }
}

/// A track that loads is current and selected, plays from now on, at the volume
/// that is set or silently when muted. The rest of the player stays.
pub proof fn law_loaded_track_plays(s: State, index: usize, now: nat)
    ensures
        ({
            let (after, effect) = s.finish_load(index, OutcomeModel::Ready, now);
            &&& after == (State {
                current: Some(index),
                selected: index,
                status: PlayStatus::Playing,
                started_at: now,
                ..s
            })
            &&& effect is SetVolume
            &&& s.muted ==> effect->volume == 0
            &&& !s.muted ==> effect->volume == s.volume
        }),
{
}

/// A track that does not load leaves a message with its path and the reason,
/// and nothing else.
pub proof fn law_failed_loads_are_told(s: State, index: usize, reason: Seq<char>, now: nat)
    ensures
        s.finish_load(index, OutcomeModel::OpenFailed { reason }, now) == (
            State {
                message: Some(
                    ("Cannot open "@ + s.tracks[index as int].path + ": "@ + reason, now),
                ),
                ..s
            },
            Effect::Nothing,
        ),
        s.finish_load(index, OutcomeModel::Undecodable { reason }, now) == (
            State {
                message: Some(
                    ("Unsupported format "@ + s.tracks[index as int].path + ": "@ + reason, now),
                ),
                ..s
            },
            Effect::Nothing,
        ),
{
}

/// A seek that was done goes without saying; one that could not be done leaves
/// a message.
pub proof fn law_failed_seeks_are_told(s: State, now: nat)
    ensures
        s.finish_seek(true, now) == s,
        s.finish_seek(false, now) == (State {
            message: Some(("Seeking is not supported for this file"@, now)),
            ..s
        }),
{
}

/// A seek by some seconds goes that far from where the track is: not before its
/// start, and, where its length is known, not past its end but to a quarter of
/// a second before it, or to the start of a track that is shorter.
pub proof fn law_seeking_moves_by_the_seconds(s: State, seconds: int, position: nat)
    requires
        s.status != PlayStatus::Stopped,
        s.current matches Some(c) ==> c < s.tracks.len(),
    ensures
        ({
            let effect = s.seek(seconds, position);
            let sum = position + seconds * 1_000_000_000;
            let length = match s.current {
                Some(c) => s.tracks[c as int].duration,
                None => None,
            };
            let known = length is Some && length->0 > 0;
            &&& effect is Seek
            &&& sum < 0 ==> effect->target == 0
            &&& sum >= 0 && (known ==> sum <= length->0) ==> effect->target == sum
            &&& known && sum > length->0 && length->0 >= 250_000_000 ==> effect->target
                + 250_000_000 == length->0
            &&& known && sum > length->0 && length->0 < 250_000_000 ==> effect->target == 0
        }),
{
}

/// Nothing is sought when stopped.
pub proof fn law_nothing_to_seek(s: State, seconds: int, position: nat)
    requires
        s.status == PlayStatus::Stopped,
    ensures
        s.seek(seconds, position) == Effect::Nothing,
        s.can_seek(seconds, position),
{
}

/// A seek can be made just where it ends within what a duration can hold.
pub proof fn law_seeks_that_can_be_made(s: State, seconds: int, position: nat)
    requires
        s.status != PlayStatus::Stopped,
        s.current matches Some(c) ==> c < s.tracks.len(),
    ensures
        ({
            let length = match s.current {
                Some(c) => s.tracks[c as int].duration,
                None => None,
            };
            let most = 18_446_744_073_709_551_615_999_999_999nat;
            let sum = position + seconds * 1_000_000_000;
            &&& length is Some && 0 < length->0 <= most ==> s.can_seek(seconds, position)
            &&& length is None || length->0 == 0 ==> (s.can_seek(seconds, position) <==> sum
                <= most)
        }),
{
}

/// The previous track is one back, and the start of the track comes first where
/// it has played for more than three seconds.
pub proof fn law_previous_track(s: State, position: nat)
    requires
        0 < s.tracks.len() <= usize::MAX,
        s.current matches Some(c) ==> c < s.tracks.len(),
    ensures
        ({
            let effect = s.skip_previous(position);
            let far = s.status != PlayStatus::Stopped && position > 3_000_000_000;
            &&& far <==> effect == Effect::Restart
            &&& !far ==> effect is Load
            &&& !far && s.current is Some && s.current->0 > 0 ==> effect->index + 1 == s.current->0
            &&& !far && s.current == Some(0usize) && s.repeat == RepeatMode::All ==> effect->index
                + 1 == s.tracks.len()
            &&& !far && s.current == Some(0usize) && s.repeat != RepeatMode::All ==> effect->index
                == 0
            &&& !far && s.current is None ==> effect->index == 0
        }),
{
}

/// The selection moves by as many entries as asked for. Where the playlist does
/// not go that far, it moves to the end that is nearer. Nothing else changes.
pub proof fn law_selection_moves_by_the_entries(s: State, delta: int)
    requires
        0 < s.tracks.len() <= usize::MAX,
    ensures
        ({
            let after = s.move_selection(delta);
            let sum = s.selected + delta;
            &&& after == (State { selected: after.selected, ..s })
            &&& 0 <= sum < s.tracks.len() ==> after.selected == sum
            &&& sum < 0 ==> after.selected == 0
            &&& sum >= s.tracks.len() ==> after.selected + 1 == s.tracks.len()
        }),
{
}

/// A new player has the tracks it was given, the first one selected, plays
/// nothing, is at 80 percent, and neither repeats nor shuffles.
pub proof fn law_new_player(tracks: Seq<TrackModel>, clock_nanos: Option<u128>, now: nat)
    ensures
        ({
            let s = State::initial(tracks, seed(clock_nanos), now);
            &&& s.tracks == tracks
            &&& s.selected == 0
            &&& s.current is None
            &&& s.status == PlayStatus::Stopped
            &&& volume_percent(s.volume) == 80
            &&& s.volume == INITIAL_VOLUME
            &&& !s.muted
            &&& s.repeat == RepeatMode::Off
            &&& !s.shuffle
            &&& !s.quit
            &&& s.message is None
            &&& s.started_at == now
            &&& s.rng == seed(clock_nanos)
        }),
{
    law_steps_lead_to_levels(INITIAL_VOLUME as nat, 80);
}

/// A message is shown with the time it was set, and nothing else changes.
pub proof fn law_messages_are_set(s: State, text: Seq<char>, now: nat)
    ensures
        s.set_message(text, now) == (State { message: Some((text, now)), ..s }),
{
}

/// Nothing is heard of a muted player, and what is set of any other.
pub proof fn law_what_is_heard(s: State)
    ensures
        s.muted ==> s.output_volume() == 0,
        !s.muted ==> s.output_volume() == s.volume,
{
}

/// The length of the current track is the one of the track in the playlist.
pub proof fn law_length_of_the_current_track(s: State)
    ensures
        s.current matches Some(c) ==> s.current_length() == s.tracks[c as int].duration,
        s.current is None ==> s.current_length() is None,
        s.is_active() <==> s.status != PlayStatus::Stopped,
{
}

/// A clock reading is taken over into the generator but for its lowest bit and
/// what is above 64 bits, so that players do not shuffle alike. The lowest bit
/// is set, which keeps the state from being zero.
pub proof fn law_seed_is_the_clock(nanos: u128)
    ensures
        seed(Some(nanos)) % 2 == 1,
        seed(Some(nanos)) / 2 == (nanos % 0x1_0000_0000_0000_0000) / 2,
        seed(None) == 0xDEAD_BEEF,
{
    let low = nanos as u64;
    assert(low as u128 == nanos % 0x1_0000_0000_0000_0000) by (bit_vector)
        requires
            low == nanos as u64,
    ;
    assert((low | 1) % 2 == 1 && (low | 1) / 2 == low / 2) by (bit_vector);
    assert(0xDEAD_BEEFu64 | 1 == 0xDEAD_BEEFu64) by (bit_vector);
}

/// `r` is a number of 24 binary digits next to `n`, where such numbers are
/// `unit` apart, and the one with the even last digit where two are as near.
pub open spec fn is_nearest(n: nat, unit: nat, r: nat) -> bool {
    &&& r % unit == 0
    &&& 2 * r <= 2 * n + unit
    &&& 2 * n <= 2 * r + unit
    &&& 2 * r == 2 * n + unit || 2 * n == 2 * r + unit ==> r % (2 * unit) == 0
}

proof fn lemma_rounded_is_nearest(n: nat, unit: nat)
    requires
        spacing(n) == unit,
        unit > 0,
    ensures
        is_nearest(n, unit, rounded(n)),
{
    let q = n as int / unit as int;
    lemma_fundamental_div_mod(n as int, unit as int);
    lemma_mod_bound(n as int, unit as int);
    let r = rounded(n) as int;
    let k = if n % unit == n - r {
        q
    } else {
        q + 1
    };
    assert(unit * (q + 1) == unit * q + unit) by (nonlinear_arith);
    assert(r == unit * k);
    lemma_mod_multiples_basic(k, unit as int);
    assert(k * unit == unit * k) by (nonlinear_arith);
    if k % 2 == 0 {
        assert(r == (k / 2) * (2 * unit)) by (nonlinear_arith)
            requires
                r == unit * k,
                k % 2 == 0,
        ;
        lemma_mod_multiples_basic(k / 2, 2 * unit as int);
    }
}

/// A change of the volume is a sum in single precision, kept between silence
/// and full volume. It unmutes and tells the volume in percent, and nothing
/// else changes.
pub proof fn law_volume_changes_are_sums(s: State, delta: int, now: nat)
    ensures
        ({
            let after = s.change_volume(delta, now);
            let sum = s.volume + delta;
            &&& sum <= 0 ==> after.volume == 0
            &&& 0 < sum < 16_777_216 ==> after.volume == sum
            &&& 16_777_216 <= sum < 33_554_432 ==> is_nearest(sum as nat, 2, after.volume)
            &&& 33_554_432 <= sum < 67_108_864 ==> is_nearest(sum as nat, 4, after.volume)
            &&& 67_108_864 <= sum < 134_217_728 ==> is_nearest(sum as nat, 8, after.volume)
            &&& 134_217_728 <= sum < 268_435_456 ==> is_nearest(sum as nat, 16, after.volume)
            &&& 268_435_456 <= sum < 8_589_934_592 ==> after.volume == 268_435_456
            &&& !after.muted
            &&& after == (State {
                volume: after.volume,
                muted: false,
                message: Some(
                    ("Volume: "@ + decimal(volume_percent(after.volume)) + "%"@, now),
                ),
                ..s
            })
        }),
{
    let sum = s.volume + delta;
    if sum > 0 {
        let n = sum as nat;
        lemma_spacing(n);
        if 16_777_216 <= n < 33_554_432 {
            lemma_rounded_is_nearest(n, 2);
            assert(rounded(n) <= 33_554_432);
        } else if 33_554_432 <= n < 67_108_864 {
            lemma_rounded_is_nearest(n, 4);
            assert(rounded(n) <= 67_108_864);
        } else if 67_108_864 <= n < 134_217_728 {
            lemma_rounded_is_nearest(n, 8);
            assert(rounded(n) <= 134_217_728);
        } else if 134_217_728 <= n < 268_435_456 {
            lemma_rounded_is_nearest(n, 16);
            assert(rounded(n) <= 268_435_456);
        } else if 268_435_456 <= n < 8_589_934_592 {
            assert(rounded(n) >= 268_435_456);
        }
    }
}

/// The volume is shown as the nearest whole percentage of full volume, but for
/// the last of 24 binary digits.
pub proof fn law_percentages_are_nearest(volume: nat)
    requires
        volume <= 268_435_456,
    ensures
        2 * (100 * volume - volume_percent(volume) * 268_435_456) <= 268_435_456 + 2048,
        2 * (volume_percent(volume) * 268_435_456 - 100 * volume) <= 268_435_456 + 2048,
        100 * volume < 16_777_216 ==> volume_percent(volume) == 0,
{
    lemma_spacing(volume * 100);
}

/// Full volume has two to the power of 28 parts. A new player has four fifths
/// of it and a step is a twentieth of it, each as near as 24 binary digits
/// come.
pub proof fn law_volume_constants()
    ensures
        FULL_VOLUME == 268_435_456,
        INITIAL_VOLUME % 16 == 0,
        -40 <= 5 * INITIAL_VOLUME - 4 * FULL_VOLUME <= 40,
        -10 <= 20 * VOLUME_STEP - FULL_VOLUME <= 10,
{
}

/// The view of a player shows its fields as they are.
pub proof fn law_view_of_a_player(app: App, i: int)
    requires
        0 <= i < app.tracks@.len(),
    ensures
        app@.tracks.len() == app.tracks@.len(),
        app@.tracks[i].path == app.tracks@[i].path@,
        app@.tracks[i].title == app.tracks@[i].title@,
        app@.tracks[i].artist == app.tracks@[i].artist@,
        app@.tracks[i].duration is Some <==> app.tracks@[i].duration is Some,
        app.tracks@[i].duration is Some ==> app@.tracks[i].duration->0
            == app.tracks@[i].duration->0@,
        app@.selected == app.selected,
        app@.current == app.current,
        app@.status == app.status,
        app@.volume == app.volume,
        app@.muted == app.muted,
        app@.repeat == app.repeat,
        app@.shuffle == app.shuffle,
        app@.quit == app.quit,
        app@.message is Some <==> app.message is Some,
        app.message matches Some(m) ==> app@.message == Some((m.text@, m.at@)),
        app@.started_at == app.started_at@,
        app@.rng == app.rng,
{
}

/// The view of an action is the action itself.
pub proof fn law_view_of_an_action(action: Action)
    ensures
        action is Nothing <==> action@ is Nothing,
        action is Pause <==> action@ is Pause,
        action is Resume <==> action@ is Resume,
        action is Restart <==> action@ is Restart,
        action is Clear <==> action@ is Clear,
        action matches Action::Load { index } ==> action@ == (Effect::Load { index }),
        action matches Action::Seek { target } ==> action@ == (Effect::Seek { target: target@ }),
        action matches Action::SetVolume { volume } ==> action@ is SetVolume && action@->volume
            == volume,
{
}

} // verus!
