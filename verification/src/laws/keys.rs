use vstd::prelude::*;

use super::playing::{law_next_track_in_order, law_seeking_moves_by_the_seconds};
use crate::keys::{KeyCode, KeyEvent, KeyKind};
use crate::model::{Effect, PlayStatus, RepeatMode, State};
use crate::text::decimal;
use crate::volume::volume_percent;

verus! {

/// The arrow keys and the letters for them move the selection by one entry, and
/// the page keys by ten, as far as the playlist goes. They do nothing else.
pub proof fn law_keys_move_the_selection(s: State, key: KeyEvent, position: nat, now: nat)
    requires
        key.kind != KeyKind::Release,
        s.selected < s.tracks.len() <= usize::MAX,
    ensures
        ({
            let (after, effect) = s.handle_event(key, position, now);
            let len = s.tracks.len();
            let down = key.code == KeyCode::Down || key.code == KeyCode::Char('j');
            let up = key.code == KeyCode::Up || key.code == KeyCode::Char('k');
            let page_down = key.code == KeyCode::PageDown;
            let page_up = key.code == KeyCode::PageUp;
            &&& down && s.selected + 1 < len ==> after.selected == s.selected + 1
            &&& down && s.selected + 1 == len ==> after.selected == s.selected
            &&& up && s.selected > 0 ==> after.selected == s.selected - 1
            &&& up && s.selected == 0 ==> after.selected == 0
            &&& page_down && s.selected + 10 < len ==> after.selected == s.selected + 10
            &&& page_down && s.selected + 10 >= len ==> after.selected == len - 1
            &&& page_up && s.selected >= 10 ==> after.selected == s.selected - 10
            &&& page_up && s.selected < 10 ==> after.selected == 0
            &&& down || up || page_down || page_up ==> effect == Effect::Nothing && after == (State {
                selected: after.selected,
                ..s
            })
        }),
{
}

/// In an empty playlist the keys that move the selection do nothing.
pub proof fn law_nothing_to_select(s: State, key: KeyEvent, position: nat, now: nat)
    requires
        key.kind != KeyKind::Release,
        s.tracks.len() == 0,
        s.selected == 0,
        key.code == KeyCode::Down || key.code == KeyCode::Char('j') || key.code == KeyCode::Up
            || key.code == KeyCode::Char('k') || key.code == KeyCode::PageDown || key.code
            == KeyCode::PageUp || key.code == KeyCode::Home || key.code == KeyCode::End || key.code
            == KeyCode::Enter,
    ensures
        s.handle_event(key, position, now) == (s, Effect::Nothing),
{
}

/// Home selects the first entry and End the last one, and nothing else happens.
pub proof fn law_home_and_end_select_the_ends(s: State, key: KeyEvent, position: nat, now: nat)
    requires
        key.kind != KeyKind::Release,
        0 < s.tracks.len() <= usize::MAX,
        key.code == KeyCode::Home || key.code == KeyCode::End,
    ensures
        ({
            let (after, effect) = s.handle_event(key, position, now);
            &&& key.code == KeyCode::Home ==> after.selected == 0
            &&& key.code == KeyCode::End ==> after.selected + 1 == s.tracks.len()
            &&& after == (State { selected: after.selected, ..s })
            &&& effect == Effect::Nothing
        }),
{
}

/// Enter asks for the selected track, whatever is played, and changes nothing
/// until that track is loaded.
pub proof fn law_enter_plays_the_selected_track(s: State, key: KeyEvent, position: nat, now: nat)
    requires
        key.kind != KeyKind::Release,
        key.code == KeyCode::Enter,
    ensures
        s.handle_event(key, position, now).0 == s,
        s.selected < s.tracks.len() ==> s.handle_event(key, position, now).1 == (Effect::Load {
            index: s.selected,
        }),
        s.selected >= s.tracks.len() ==> s.handle_event(key, position, now).1 == Effect::Nothing,
{
}

/// The space bar holds a track that plays, and lets one that is held play on.
/// When stopped, it asks for the selected track. Nothing but the status
/// changes.
pub proof fn law_space_pauses_and_resumes(s: State, key: KeyEvent, position: nat, now: nat)
    requires
        key.kind != KeyKind::Release,
        key.code == KeyCode::Char(' '),
    ensures
        ({
            let (after, effect) = s.handle_event(key, position, now);
            &&& after == (State { status: after.status, ..s })
            &&& s.status == PlayStatus::Playing ==> after.status == PlayStatus::Paused && effect
                == Effect::Pause
            &&& s.status == PlayStatus::Paused ==> after.status == PlayStatus::Playing && effect
                == Effect::Resume
            &&& s.status == PlayStatus::Stopped ==> after == s
            &&& s.status == PlayStatus::Stopped && s.selected < s.tracks.len() ==> effect == (
            Effect::Load { index: s.selected })
            &&& s.status == PlayStatus::Stopped && s.selected >= s.tracks.len() ==> effect
                == Effect::Nothing
        }),
{
}

/// Without shuffling, the key for the next track asks for the one after the
/// current one, for the first one after the last, and for the first one where
/// none is current.
pub proof fn law_next_key_goes_one_on(s: State, key: KeyEvent, position: nat, now: nat)
    requires
        key.kind != KeyKind::Release,
        key.code == KeyCode::Char('n'),
        !s.shuffle,
        s.tracks.len() <= usize::MAX,
        s.current matches Some(c) ==> c < s.tracks.len(),
    ensures
        ({
            let (after, effect) = s.handle_event(key, position, now);
            let len = s.tracks.len();
            &&& after == s
            &&& len == 0 ==> effect == Effect::Nothing
            &&& len > 0 ==> effect is Load
            &&& len > 0 && s.current is None ==> effect->index == 0
            &&& s.current is Some && s.current->0 + 1 < len ==> effect->index == s.current->0 + 1
            &&& s.current is Some && s.current->0 + 1 == len ==> effect->index == 0
        }),
{
    if s.tracks.len() > 0 {
        law_next_track_in_order(s, false);
    }
}

/// Soon after its start the key for the previous track asks for the track
/// before the current one. Before the first one stands the last one where
/// everything repeats, else the first one itself. Later than three seconds it
/// goes back to the start of the track.
pub proof fn law_previous_key_goes_one_back(s: State, key: KeyEvent, position: nat, now: nat)
    requires
        key.kind != KeyKind::Release,
        key.code == KeyCode::Char('p'),
        s.tracks.len() <= usize::MAX,
        s.current matches Some(c) ==> c < s.tracks.len(),
    ensures
        ({
            let (after, effect) = s.handle_event(key, position, now);
            let len = s.tracks.len();
            let far = s.status != PlayStatus::Stopped && position > 3_000_000_000;
            &&& after == s
            &&& len == 0 ==> effect == Effect::Nothing
            &&& len > 0 && far ==> effect == Effect::Restart
            &&& len > 0 && !far ==> effect is Load
            &&& len > 0 && !far && s.current is None ==> effect->index == 0
            &&& !far && s.current is Some && s.current->0 > 0 ==> effect->index == s.current->0 - 1
            &&& !far && s.current == Some(0usize) && s.repeat == RepeatMode::All ==> effect->index
                + 1 == len
            &&& !far && s.current == Some(0usize) && s.repeat != RepeatMode::All ==> effect->index
                == 0
        }),
{
}

/// The right arrow seeks five seconds forward and the left arrow five seconds
/// back, within a track of known length. Nothing is sought when stopped.
pub proof fn law_arrows_seek_five_seconds(s: State, key: KeyEvent, position: nat, now: nat)
    requires
        key.kind != KeyKind::Release,
        key.code == KeyCode::Right || key.code == KeyCode::Left,
        s.current matches Some(c) ==> c < s.tracks.len(),
    ensures
        ({
            let (after, effect) = s.handle_event(key, position, now);
            let sum = if key.code == KeyCode::Right {
                position as int + 5_000_000_000
            } else {
                position as int - 5_000_000_000
            };
            let length = match s.current {
                Some(c) => s.tracks[c as int].duration,
                None => None,
            };
            let known = length is Some && length->0 > 0;
            &&& after == s
            &&& s.status == PlayStatus::Stopped ==> effect == Effect::Nothing
            &&& s.status != PlayStatus::Stopped ==> effect is Seek
            &&& s.status != PlayStatus::Stopped && sum < 0 ==> effect->target == 0
            &&& s.status != PlayStatus::Stopped && sum >= 0 && (known ==> sum <= length->0)
                ==> effect->target == sum
            &&& s.status != PlayStatus::Stopped && known && sum > length->0 && length->0
                >= 250_000_000 ==> effect->target + 250_000_000 == length->0
            &&& s.status != PlayStatus::Stopped && known && sum > length->0 && length->0
                < 250_000_000 ==> effect->target == 0
        }),
{
    if s.status != PlayStatus::Stopped {
        law_seeking_moves_by_the_seconds(s, 5, position);
        law_seeking_moves_by_the_seconds(s, -5, position);
    }
}

/// The keys for the volume unmute, tell the audio side the new volume, and
/// tell it in percent. Nothing else changes.
pub proof fn law_volume_keys_tell_the_volume(s: State, key: KeyEvent, position: nat, now: nat)
    requires
        key.kind != KeyKind::Release,
        key.code == KeyCode::Char('+') || key.code == KeyCode::Char('=') || key.code
            == KeyCode::Char('-') || key.code == KeyCode::Char('_'),
    ensures
        ({
            let (after, effect) = s.handle_event(key, position, now);
            let up = key.code == KeyCode::Char('+') || key.code == KeyCode::Char('=');
            let step = if up {
                13_421_773int
            } else {
                -13_421_773int
            };
            &&& after == (State {
                volume: s.change_volume(step, now).volume,
                muted: false,
                message: Some(
                    ("Volume: "@ + decimal(volume_percent(after.volume)) + "%"@, now),
                ),
                ..s
            })
            &&& effect == (Effect::SetVolume { volume: after.volume })
        }),
{
}

/// The mute key silences a player that is heard, and brings back the volume of
/// one that is muted. The volume that is set stays, and so does the rest.
pub proof fn law_mute_key_silences(s: State, key: KeyEvent, position: nat, now: nat)
    requires
        key.kind != KeyKind::Release,
        key.code == KeyCode::Char('m'),
    ensures
        ({
            let (after, effect) = s.handle_event(key, position, now);
            &&& after == (State { muted: !s.muted, message: after.message, ..s })
            &&& !s.muted ==> effect == (Effect::SetVolume { volume: 0 }) && after.message == Some(
                ("Muted"@, now),
            )
            &&& s.muted ==> effect == (Effect::SetVolume { volume: s.volume }) && after.message
                == Some(("Volume: "@ + decimal(volume_percent(s.volume)) + "%"@, now))
        }),
{
}

/// The repeat key goes from off to all, from all to one and from one to off,
/// and tells which.
pub proof fn law_repeat_key_cycles(s: State, key: KeyEvent, position: nat, now: nat)
    requires
        key.kind != KeyKind::Release,
        key.code == KeyCode::Char('r'),
    ensures
        ({
            let (after, effect) = s.handle_event(key, position, now);
            &&& effect == Effect::Nothing
            &&& after == (State { repeat: after.repeat, message: after.message, ..s })
            &&& s.repeat == RepeatMode::Off ==> after.repeat == RepeatMode::All && after.message
                == Some(("Repeat: all"@, now))
            &&& s.repeat == RepeatMode::All ==> after.repeat == RepeatMode::One && after.message
                == Some(("Repeat: one"@, now))
            &&& s.repeat == RepeatMode::One ==> after.repeat == RepeatMode::Off && after.message
                == Some(("Repeat: off"@, now))
        }),
{
    reveal_strlit("Repeat: ");
    reveal_strlit("all");
    reveal_strlit("one");
    reveal_strlit("off");
    reveal_strlit("Repeat: all");
    reveal_strlit("Repeat: one");
    reveal_strlit("Repeat: off");
    assert("Repeat: "@ + "all"@ =~= "Repeat: all"@);
    assert("Repeat: "@ + "one"@ =~= "Repeat: one"@);
    assert("Repeat: "@ + "off"@ =~= "Repeat: off"@);
}

/// The shuffle key turns shuffling on and off, and tells which.
pub proof fn law_shuffle_key_switches(s: State, key: KeyEvent, position: nat, now: nat)
    requires
        key.kind != KeyKind::Release,
        key.code == KeyCode::Char('s'),
    ensures
        ({
            let (after, effect) = s.handle_event(key, position, now);
            &&& effect == Effect::Nothing
            &&& after == (State { shuffle: !s.shuffle, message: after.message, ..s })
            &&& !s.shuffle ==> after.message == Some(("Shuffle: on"@, now))
            &&& s.shuffle ==> after.message == Some(("Shuffle: off"@, now))
        }),
{
    reveal_strlit("Shuffle: ");
    reveal_strlit("on");
    reveal_strlit("off");
    reveal_strlit("Shuffle: on");
    reveal_strlit("Shuffle: off");
    assert("Shuffle: "@ + "on"@ =~= "Shuffle: on"@);
    assert("Shuffle: "@ + "off"@ =~= "Shuffle: off"@);
}

/// The stop key drops what is queued, and leaves nothing current. The selection
/// and the settings stay.
pub proof fn law_stop_key_stops(s: State, key: KeyEvent, position: nat, now: nat)
    requires
        key.kind != KeyKind::Release,
        key.code == KeyCode::Char('x'),
    ensures
        ({
            let (after, effect) = s.handle_event(key, position, now);
            &&& effect == Effect::Clear
            &&& after == (State {
                status: PlayStatus::Stopped,
                current: None,
                message: Some(("Stopped"@, now)),
                ..s
            })
        }),
{
}

/// The keys that end the program do nothing else.
pub proof fn law_quit_keys_only_quit(s: State, key: KeyEvent, position: nat, now: nat)
    requires
        key.kind != KeyKind::Release,
        key.code == KeyCode::Esc || key.code == KeyCode::Char('q') || (key.code == KeyCode::Char(
            'c',
        ) && key.control),
    ensures
        s.handle_event(key, position, now) == (State { quit: true, ..s }, Effect::Nothing),
{
}

/// A key that stands for nothing does nothing.
pub proof fn law_other_keys_do_nothing(s: State, key: KeyEvent, position: nat, now: nat)
    requires
        match key.code {
            KeyCode::Other => true,
            KeyCode::Char(c) => {
                &&& c != 'q' && c != 'j' && c != 'k' && c != ' ' && c != 'n' && c != 'p'
                &&& c != '+' && c != '=' && c != '-' && c != '_'
                &&& c != 'm' && c != 'r' && c != 's' && c != 'x'
                &&& c != 'c' || !key.control
            },
            _ => false,
        },
    ensures
        s.handle_event(key, position, now) == (s, Effect::Nothing),
{
}

/// A key that is held does what a key does that is pressed, and Control changes
/// nothing but what `c` stands for.
pub proof fn law_held_keys_repeat(
    s: State,
    key: KeyEvent,
    control: bool,
    position: nat,
    now: nat,
)
    ensures
        s.handle_event(KeyEvent { kind: KeyKind::Repeat, ..key }, position, now) == s.handle_event(
            KeyEvent { kind: KeyKind::Press, ..key },
            position,
            now,
        ),
        s.handle_key(key, position, now) == s.handle_event(
            KeyEvent { kind: KeyKind::Press, ..key },
            position,
            now,
        ),
        key.code != KeyCode::Char('c') ==> s.handle_event(key, position, now) == s.handle_event(
            KeyEvent { control, ..key },
            position,
            now,
        ),
{
}

/// The keys and the operations that they stand for do the same.
pub proof fn law_keys_stand_for_operations(s: State, key: KeyEvent, position: nat, now: nat)
    requires
        key.kind != KeyKind::Release,
    ensures
        ({
            let result = s.handle_event(key, position, now);
            let (after, effect) = result;
            &&& key.code == KeyCode::Down ==> after == s.move_selection(1)
            &&& key.code == KeyCode::Up ==> after == s.move_selection(-1)
            &&& key.code == KeyCode::PageDown ==> after == s.move_selection(10)
            &&& key.code == KeyCode::PageUp ==> after == s.move_selection(-10)
            &&& key.code == KeyCode::Enter ==> effect == s.play_index(s.selected)
            &&& key.code == KeyCode::Char(' ') ==> result == s.toggle_pause()
            &&& key.code == KeyCode::Char('n') ==> result == s.skip_next()
            &&& key.code == KeyCode::Char('p') ==> effect == s.skip_previous(position)
            &&& key.code == KeyCode::Right ==> effect == s.seek(5, position)
            &&& key.code == KeyCode::Left ==> effect == s.seek(-5, position)
            &&& key.code == KeyCode::Char('+') ==> after == s.change_volume(13_421_773, now)
            &&& key.code == KeyCode::Char('-') ==> after == s.change_volume(-13_421_773, now)
            &&& key.code == KeyCode::Char('m') ==> after == s.toggle_mute(now)
            &&& key.code == KeyCode::Char('r') ==> after == s.cycle_repeat(now)
            &&& key.code == KeyCode::Char('s') ==> after == s.toggle_shuffle(now)
            &&& key.code == KeyCode::Char('x') ==> after == s.stop_playback(now)
        }),
{
}

/// Every key can be handled in a valid player, as long as the position leaves
/// five seconds to the longest time there is. Only the next track and a seek
/// ask for anything.
pub proof fn law_keys_are_accepted(s: State, key: KeyEvent, position: nat)
    requires
        s.rng != 0,
        s.current matches Some(c) ==> c < s.tracks.len() && c < usize::MAX,
        position + 5_000_000_000 <= 18_446_744_073_709_551_615_999_999_999,
    ensures
        s.accepts_key(key, position),
{
}

/// A key other than those for the next track and for a seek can always be
/// handled.
pub proof fn law_most_keys_are_always_accepted(s: State, key: KeyEvent, position: nat)
    requires
        key.code != KeyCode::Right,
        key.code != KeyCode::Left,
        key.code != KeyCode::Char('n'),
    ensures
        s.accepts_key(key, position),
{
}

} // verus!
