//! The decisions the host takes each tick: autoplay advancement, the
//! play/pause key, and removal of the selected track.
//!
//! Each function turns the current records into their next state and a
//! command for the real output queue; performing the command, and any file
//! deletion, is the host's part.

use crate::audio_player::{
    spec_pause, spec_play, spec_resumes, spec_stop, AudioPlayer, QueueCommand,
};
use crate::audio_resource::{track_eq, AudioResource};
use crate::options::{contains_track, spec_index_of, Options};
use vstd::prelude::*;

verus! {

/// The track the play/pause key acts on: the loaded one, else the
/// selected one, else the first of the playlist, else none.
pub open spec fn spec_pick_track(st: AudioPlayer, options: Options) -> Option<AudioResource> {
    if st.current is Some {
        st.current
    } else if options.selected is Some {
        options.selected
    } else if options.playlist@.len() > 0 {
        Some(options.playlist@[0])
    } else {
        None
    }
}

/// Advance the playlist once the current track has run out: when autoplay
/// is on and the session reports just finished, the selection moves to
/// the track after the selected one — wrapping from the last to the
/// first — and that track starts playing. The selection must then name a
/// track of the playlist.
pub fn handle_autoplay(options: &mut Options, player: &mut AudioPlayer, now: u64) -> (cmd: Option<
    QueueCommand,
>)
    requires
        old(options).wf(),
        old(player).wf(),
        now >= old(player).last_time,
        (old(options).autoplay && old(player).spec_just_finished()) ==> (old(options).selected
            is Some && contains_track(old(options).playlist@, old(options).selected->0)),
    ensures
        final(options).wf(),
        final(player).wf(),
        final(options).playlist@ == old(options).playlist@,
        final(options).autoplay == old(options).autoplay,
        final(options).volume == old(options).volume,
        final(options).ui_size == old(options).ui_size,
        final(options).show_debug == old(options).show_debug,
        final(options).always_on_top == old(options).always_on_top,
        (old(options).autoplay && old(player).spec_just_finished()) ==> ({
            let s = old(options).playlist@;
            let i = spec_index_of(s, old(options).selected->0);
            let next = s[(i + 1) % (s.len() as int)];
            &&& final(options).selected == Some(next)
            &&& *final(player) == spec_play(*old(player), next, now)
            &&& cmd == Some(
                if spec_resumes(*old(player), next) {
                    QueueCommand::Resume
                } else {
                    QueueCommand::Load
                },
            )
        }),
        !(old(options).autoplay && old(player).spec_just_finished()) ==> (*final(options) == *old(
            options,
        ) && *final(player) == *old(player) && cmd is None),
{
    if options.autoplay && player.just_finished() {
        let sel = match &options.selected {
            Some(t) => t.clone(),
            None => {
                proof {
                    assert(false);
                }
                unreached()
            },
        };
        let i = crate::options::vec_index_of(&options.playlist, &sel);
        let n = options.playlist.len();
        let j = (i + 1) % n;
        let next = options.playlist[j].clone();
        options.selected = Some(next.clone());
        let cmd = player.play(next, now);
        Some(cmd)
    } else {
        None
    }
}

/// What a press of the play/pause key does: with nothing to act on it
/// does nothing; while playing it pauses; otherwise it plays the picked
/// track.
pub fn play_pause(options: &Options, player: &mut AudioPlayer, now: u64) -> (cmd: Option<
    QueueCommand,
>)
    requires
        old(player).wf(),
        now >= old(player).last_time,
    ensures
        final(player).wf(),
        ({
            let pick = spec_pick_track(*old(player), *options);
            if pick is None {
                *final(player) == *old(player) && cmd is None
            } else if old(player).spec_is_playing() {
                *final(player) == spec_pause(*old(player), now) && cmd == Some(QueueCommand::Pause)
            } else {
                &&& *final(player) == spec_play(*old(player), pick->0, now)
                &&& cmd == Some(
                    if spec_resumes(*old(player), pick->0) {
                        QueueCommand::Resume
                    } else {
                        QueueCommand::Load
                    },
                )
            }
        }),
{
    let to_play: Option<AudioResource> = if player.current.is_some() {
        match &player.current {
            Some(c) => Some(c.clone()),
            None => None,
        }
    } else if options.selected.is_some() {
        match &options.selected {
            Some(s) => Some(s.clone()),
            None => None,
        }
    } else if options.playlist.len() > 0 {
        Some(options.playlist[0].clone())
    } else {
        None
    };
    match to_play {
        None => None,
        Some(t) => {
            if player.is_playing() {
                player.pause(now);
                Some(QueueCommand::Pause)
            } else {
                Some(player.play(t, now))
            }
        },
    }
}

/// What the "remove selected" action does: every track equal to the
/// selection leaves the playlist; when the selection was the loaded
/// track, playback stops; afterwards the selection follows whatever track
/// is still loaded. The returned flag tells the host whether playback
/// stopped, so it can flush the real queue.
pub fn remove_selected(options: &mut Options, player: &mut AudioPlayer) -> (stopped: bool)
    requires
        old(options).wf(),
        old(player).wf(),
        old(options).selected is Some,
    ensures
        final(options).wf(),
        final(player).wf(),
        final(options).playlist@ == old(options).playlist@.filter(
            |x: AudioResource| !track_eq(x, old(options).selected->0),
        ),
        final(options).autoplay == old(options).autoplay,
        final(options).volume == old(options).volume,
        final(options).ui_size == old(options).ui_size,
        final(options).show_debug == old(options).show_debug,
        final(options).always_on_top == old(options).always_on_top,
        ({
            let sel = old(options).selected->0;
            if old(player).current matches Some(c) && track_eq(sel, c) {
                &&& *final(player) == spec_stop(*old(player))
                &&& final(options).selected is None
                &&& stopped
            } else {
                &&& *final(player) == *old(player)
                &&& final(options).selected == old(player).current
                &&& !stopped
            }
        }),
{
    let sel = match &options.selected {
        Some(t) => t.clone(),
        None => {
            proof {
                assert(false);
            }
            unreached()
        },
    };
    options.remove_resource(&sel);
    let was_current = match &player.current {
        Some(c) => sel == *c,
        None => false,
    };
    if was_current {
        player.stop();
    }
    options.selected = match &player.current {
        Some(c) => Some(c.clone()),
        None => None,
    };
    was_current
}

} // verus!

