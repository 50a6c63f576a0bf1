//! The playback session: a transport state machine with exact wall-clock
//! timing arithmetic under repeated pause and resume.
//!
//! The session owns a model of the output queue: whether it holds audio,
//! whether it is paused, and its volume. The host mirrors every returned
//! [`QueueCommand`] onto the real audio backend, polls that backend, and
//! reports the queue running empty through [`AudioPlayer::notify_queue_empty`].
//! All clock readings are handed in by the caller in milliseconds and may
//! never decrease from one call to the next.

use crate::audio_resource::{track_eq, AudioResource};
use vstd::prelude::*;

verus! {

/// The last transport command the caller issued. It is distinct from the
/// derived playing state and serves to detect a natural end of track.
#[derive(Debug, Clone, Copy, PartialEq, Eq, Structural)]
pub enum PlayerAction {
    Play,
    Pause,
    Stop,
    Next,
    Previous,
    Idle,
}

impl Default for PlayerAction {
    fn default() -> (r: Self)
        ensures
            r is Idle,
    {
        PlayerAction::Idle
    }
}

/// What the host must do with the real output queue after a transport call:
/// resume the paused queue, or flush it, load the current track and start it,
/// or pause it.
#[derive(Debug, Clone, Copy, PartialEq, Eq, Structural)]
pub enum QueueCommand {
    Load,
    Resume,
    Pause,
}

/// Failure reported when elapsed time is queried while no session runs.
#[derive(Debug, Clone, Copy, PartialEq, Eq, Structural)]
pub enum PlayerError {
    NoActiveSession,
}

/// The playback session state.
#[derive(Debug)]
pub struct AudioPlayer {
    /// The track currently loaded into the output queue, if any.
    pub current: Option<AudioResource>,
    /// The last transport command issued by the caller.
    pub last_action: PlayerAction,
    /// Clock reading at which the current run began.
    pub start_time: Option<u64>,
    /// Clock reading at which the most recent pause began; absent while
    /// playing.
    pub pause_time: Option<u64>,
    /// Total paused time accrued over all pause/resume cycles of the
    /// current run, in milliseconds.
    pub paused_duration: u64,
    /// Model of the output queue: whether it holds no audio.
    pub queue_empty: bool,
    /// Model of the output queue: whether it is paused.
    pub queue_paused: bool,
    /// Output volume as a percentage, at most 100.
    pub volume_percent: u8,
    /// The latest clock reading the session has observed.
    pub last_time: u64,
}

impl AudioPlayer {
    /// The session's timing fields are consistent: timestamps never run
    /// ahead of the latest observed clock reading, and the accumulated
    /// pause always fits inside the current run.
    pub open spec fn wf(self) -> bool {
        &&& (self.current is Some) <==> (self.start_time is Some)
        &&& (self.pause_time is Some) ==> (self.start_time is Some)
        &&& (self.current is None) ==> self.queue_empty
        &&& self.volume_percent <= 100
        &&& (self.start_time matches Some(s) ==> s <= self.last_time)
        &&& (self.pause_time matches Some(p) ==> p <= self.last_time)
        &&& (self.start_time matches Some(s) ==> (self.pause_time matches Some(p) ==> s <= p
            && self.paused_duration <= p - s))
        &&& (self.start_time matches Some(s) ==> (self.pause_time is None
            ==> self.paused_duration <= self.last_time - s))
    }

    /// The session plays right now: the queue holds audio, is not paused,
    /// and a track is loaded.
    pub open spec fn spec_is_playing(self) -> bool {
        !self.queue_empty && !self.queue_paused && self.current is Some
    }

    /// The current track ran to its natural end: the last command was a
    /// play, yet nothing plays. This is a level, not an event: it stays
    /// true until the next transport command changes the last action.
    pub open spec fn spec_just_finished(self) -> bool {
        self.last_action is Play && !self.spec_is_playing()
    }

    /// Elapsed play time at clock reading `now`: the span since the run
    /// began, less all accumulated pause, less the still-open pause span.
    pub open spec fn spec_elapsed(self, now: u64) -> int
        recommends
            self.start_time is Some,
    {
        let run = now - self.start_time->0;
        let open_pause: int = if self.pause_time is Some {
            now - self.pause_time->0
        } else {
            0
        };
        run - self.paused_duration - open_pause
    }

    /// The state a fresh session starts in.
    pub open spec fn spec_default() -> AudioPlayer {
        AudioPlayer {
            current: None,
            last_action: PlayerAction::Idle,
            start_time: None,
            pause_time: None,
            paused_duration: 0,
            queue_empty: true,
            queue_paused: false,
            volume_percent: 100,
            last_time: 0,
        }
    }
}

/// A play of `resource` resumes rather than reloads: a track is current
/// and it is the same song.
pub open spec fn spec_resumes(st: AudioPlayer, resource: AudioResource) -> bool {
    st.current matches Some(c) && track_eq(c, resource)
}

/// What a play call does to the session. Resuming the current track folds
/// the open pause span into the accumulated pause and leaves the last
/// action and the run start untouched; any other play starts a fresh run.
pub open spec fn spec_play(st: AudioPlayer, resource: AudioResource, now: u64) -> AudioPlayer {
    if spec_resumes(st, resource) {
        AudioPlayer {
            paused_duration: if st.pause_time is Some {
                (st.paused_duration + (now - st.pause_time->0)) as u64
            } else {
                st.paused_duration
            },
            pause_time: None,
            queue_paused: false,
            last_time: now,
            ..st
        }
    } else {
        AudioPlayer {
            current: Some(resource),
            last_action: PlayerAction::Play,
            start_time: Some(now),
            pause_time: None,
            paused_duration: 0,
            queue_empty: false,
            queue_paused: false,
            volume_percent: st.volume_percent,
            last_time: now,
        }
    }
}

/// What a pause call does to the session. The pause instant is recorded
/// only when a run is active and no pause is already open; the queue
/// command and the last action are recorded in any case.
pub open spec fn spec_pause(st: AudioPlayer, now: u64) -> AudioPlayer {
    if st.start_time is Some && st.pause_time is None {
        AudioPlayer {
            last_action: PlayerAction::Pause,
            queue_paused: true,
            pause_time: Some(now),
            last_time: now,
            ..st
        }
    } else {
        AudioPlayer { last_action: PlayerAction::Pause, queue_paused: true, last_time: now, ..st }
    }
}

/// What a stop call does to the session: the run and the loaded track are
/// cleared and the queue is flushed. The accumulated pause is left behind;
/// it is dead until the next fresh play resets it.
pub open spec fn spec_stop(st: AudioPlayer) -> AudioPlayer {
    AudioPlayer {
        current: None,
        last_action: PlayerAction::Stop,
        start_time: None,
        pause_time: None,
        queue_empty: true,
        queue_paused: true,
        ..st
    }
}

/// What the host's report that the queue ran empty does to the session.
pub open spec fn spec_queue_emptied(st: AudioPlayer) -> AudioPlayer {
    AudioPlayer { queue_empty: true, ..st }
}

/// What a volume change does to the session: the value is clamped to 100.
pub open spec fn spec_set_volume(st: AudioPlayer, volume: u8) -> AudioPlayer {
    AudioPlayer {
        volume_percent: if volume > 100 {
            100u8
        } else {
            volume
        },
        ..st
    }
}

impl AudioPlayer {
    /// Start or resume playback of `resource` at clock reading `now`.
    /// The returned command tells the host whether to resume the real
    /// queue or to flush it, load the track and start it.
    pub fn play(&mut self, resource: AudioResource, now: u64) -> (cmd: QueueCommand)
        requires
            old(self).wf(),
            now >= old(self).last_time,
        ensures
            final(self).wf(),
            *final(self) == spec_play(*old(self), resource, now),
            cmd == (if spec_resumes(*old(self), resource) {
                QueueCommand::Resume
            } else {
                QueueCommand::Load
            }),
    {
        let is_resume = match &self.current {
            Some(c) => *c == resource,
            None => false,
        };
        if is_resume {
            if let Some(p) = self.pause_time {
                self.paused_duration = self.paused_duration + (now - p);
            }
            self.pause_time = None;
            self.queue_paused = false;
            self.last_time = now;
            QueueCommand::Resume
        } else {
            self.current = Some(resource);
            self.last_action = PlayerAction::Play;
            self.start_time = Some(now);
            self.pause_time = None;
            self.paused_duration = 0;
            self.queue_empty = false;
            self.queue_paused = false;
            self.last_time = now;
            QueueCommand::Load
        }
    }

    /// Pause playback at clock reading `now`. Meaningful while playing;
    /// issued in any other state it records the command but opens no pause
    /// span, so the timing arithmetic stays intact.
    pub fn pause(&mut self, now: u64)
        requires
            old(self).wf(),
            now >= old(self).last_time,
        ensures
            final(self).wf(),
            *final(self) == spec_pause(*old(self), now),
    {
        self.queue_paused = true;
        self.last_action = PlayerAction::Pause;
        if self.start_time.is_some() && self.pause_time.is_none() {
            self.pause_time = Some(now);
        }
        self.last_time = now;
    }

    /// Stop playback: clear the run, unload the track, flush the queue.
    pub fn stop(&mut self)
        requires
            old(self).wf(),
        ensures
            final(self).wf(),
            *final(self) == spec_stop(*old(self)),
    {
        self.pause_time = None;
        self.start_time = None;
        self.last_action = PlayerAction::Stop;
        self.current = None;
        self.queue_paused = true;
        self.queue_empty = true;
    }

    /// Record the host's observation that the real output queue has run
    /// empty: the loaded track played to its natural end.
    pub fn notify_queue_empty(&mut self)
        requires
            old(self).wf(),
        ensures
            final(self).wf(),
            *final(self) == spec_queue_emptied(*old(self)),
    {
        self.queue_empty = true;
    }

    /// Whether the session plays right now.
    pub fn is_playing(&self) -> (r: bool)
        ensures
            r == self.spec_is_playing(),
    {
        !self.queue_empty && !self.queue_paused && self.current.is_some()
    }

    /// Whether the current track ran to its natural end. The sole signal
    /// for autoplay and for hiding the time display; it stays true until
    /// the next transport command.
    pub fn just_finished(&self) -> (r: bool)
        ensures
            r == self.spec_just_finished(),
    {
        self.last_action == PlayerAction::Play && !self.is_playing()
    }

    /// Elapsed play time in milliseconds at clock reading `now`, excluding
    /// every paused span. Fails when no run is active.
    pub fn elapsed(&self, now: u64) -> (r: Result<u64, PlayerError>)
        requires
            self.wf(),
            now >= self.last_time,
        ensures
            self.start_time is Some ==> (r matches Ok(e) && e == self.spec_elapsed(now)),
            self.start_time is None ==> (r matches Err(e) && e is NoActiveSession),
    {
        match self.start_time {
            Some(s) => {
                let mut e = now - s;
                e = e - self.paused_duration;
                if let Some(p) = self.pause_time {
                    e = e - (now - p);
                }
                Ok(e)
            },
            None => Err(PlayerError::NoActiveSession),
        }
    }

    /// Set the output volume from a 0 to 100 scale; larger values clamp.
    pub fn set_volume_100(&mut self, volume: u8)
        requires
            old(self).wf(),
        ensures
            final(self).wf(),
            *final(self) == spec_set_volume(*old(self), volume),
    {
        if volume > 100 {
            self.volume_percent = 100;
        } else {
            self.volume_percent = volume;
        }
    }

    /// The current output volume on the 0 to 100 scale.
    pub fn volume(&self) -> (r: u8)
        ensures
            r == self.volume_percent,
    {
        self.volume_percent
    }
}

impl Default for AudioPlayer {
    fn default() -> (r: Self)
        ensures
            r == AudioPlayer::spec_default(),
            r.wf(),
    {
        AudioPlayer {
            current: None,
            last_action: PlayerAction::Idle,
            start_time: None,
            pause_time: None,
            paused_duration: 0,
            queue_empty: true,
            queue_paused: false,
            volume_percent: 100,
            last_time: 0,
        }
    }
}

/// A fresh play — one that does not resume the current track — zeroes
/// both the elapsed time and the accumulated pause.
pub proof fn lemma_fresh_play_resets_elapsed(st: AudioPlayer, resource: AudioResource, now: u64)
    requires
        st.wf(),
        now >= st.last_time,
        !spec_resumes(st, resource),
    ensures
        spec_play(st, resource, now).spec_elapsed(now) == 0,
        spec_play(st, resource, now).paused_duration == 0,
{
}

/// While a session plays on without a pause, elapsed time never decreases.
pub proof fn lemma_elapsed_monotonic(st: AudioPlayer, t1: u64, t2: u64)
    requires
        st.wf(),
        st.start_time is Some,
        st.pause_time is None,
        st.last_time <= t1 <= t2,
    ensures
        st.spec_elapsed(t1) <= st.spec_elapsed(t2),
{
}

/// While a session stands paused, elapsed time stands still.
pub proof fn lemma_elapsed_frozen_while_paused(st: AudioPlayer, t1: u64, t2: u64)
    requires
        st.wf(),
        st.start_time is Some,
        st.pause_time is Some,
        st.last_time <= t1 <= t2,
    ensures
        st.spec_elapsed(t1) == st.spec_elapsed(t2),
{
}

/// Pausing and later resuming the same track reports, right after the
/// resume, exactly the elapsed time reported right before the pause:
/// paused spans are excluded from elapsed time. The resumed session is
/// again well-formed and unpaused, so the claim carries over any number
/// of pause/resume cycles.
pub proof fn lemma_pause_resume_preserves_elapsed(
    st: AudioPlayer,
    resource: AudioResource,
    t_pause: u64,
    t_resume: u64,
)
    requires
        st.wf(),
        st.start_time is Some,
        st.pause_time is None,
        spec_resumes(st, resource),
        st.last_time <= t_pause <= t_resume,
    ensures
        spec_play(spec_pause(st, t_pause), resource, t_resume).spec_elapsed(t_resume)
            == st.spec_elapsed(t_pause),
        spec_play(spec_pause(st, t_pause), resource, t_resume).wf(),
        spec_play(spec_pause(st, t_pause), resource, t_resume).pause_time is None,
{
}

/// Right after a pause the session never reports just finished.
pub proof fn lemma_not_just_finished_after_pause(st: AudioPlayer, now: u64)
    ensures
        !spec_pause(st, now).spec_just_finished(),
{
}

/// Right after a stop the session never reports just finished.
pub proof fn lemma_not_just_finished_after_stop(st: AudioPlayer)
    ensures
        !spec_stop(st).spec_just_finished(),
{
}

/// Right after a play the session does not report just finished — except
/// when a track that already ran to its end is resumed, which touches
/// neither the last action nor the empty queue and so leaves the report
/// standing.
pub proof fn lemma_not_just_finished_after_play(st: AudioPlayer, resource: AudioResource, now: u64)
    requires
        !(spec_resumes(st, resource) && st.last_action is Play && st.queue_empty),
    ensures
        !spec_play(st, resource, now).spec_just_finished(),
{
}

/// The just-finished report turns true through the queue running empty
/// exactly when the last command was a play.
pub proof fn lemma_just_finished_on_queue_empty(st: AudioPlayer)
    ensures
        spec_queue_emptied(st).spec_just_finished() <==> st.last_action is Play,
{
}

} // verus!
