use sours::audio_player::{AudioPlayer, QueueCommand};
use sours::audio_resource::AudioResource;
use sours::controller::{handle_autoplay, play_pause, remove_selected};
use sours::options::Options;

fn track(path: &str, duration: u64) -> AudioResource {
    AudioResource { path: path.to_string(), duration, created_playable: true }
}

fn abc_playlist() -> Options {
    let mut o = Options::default();
    o.add_track(track("a.mp3", 1_000));
    o.add_track(track("b.mp3", 2_000));
    o.add_track(track("c.mp3", 3_000));
    o
}

#[test]
fn autoplay_advances_to_the_next_track() {
    let mut o = abc_playlist();
    o.autoplay = true;
    o.selected = Some(track("b.mp3", 2_000));
    let mut p = AudioPlayer::default();
    p.play(track("b.mp3", 2_000), 0);
    p.notify_queue_empty();
    let cmd = handle_autoplay(&mut o, &mut p, 2_500);
    assert_eq!(cmd, Some(QueueCommand::Load));
    assert_eq!(o.selected, Some(track("c.mp3", 3_000)));
    assert_eq!(p.current, Some(track("c.mp3", 3_000)));
    assert!(p.is_playing());
    assert!(!p.just_finished());
}

#[test]
fn autoplay_wraps_from_the_last_track_to_the_first() {
    let mut o = abc_playlist();
    o.autoplay = true;
    o.selected = Some(track("c.mp3", 3_000));
    let mut p = AudioPlayer::default();
    p.play(track("c.mp3", 3_000), 0);
    p.notify_queue_empty();
    handle_autoplay(&mut o, &mut p, 3_500);
    assert_eq!(o.selected, Some(track("a.mp3", 1_000)));
    assert_eq!(p.current, Some(track("a.mp3", 1_000)));
}

#[test]
fn autoplay_off_changes_nothing() {
    let mut o = abc_playlist();
    o.autoplay = false;
    o.selected = Some(track("b.mp3", 2_000));
    let mut p = AudioPlayer::default();
    p.play(track("b.mp3", 2_000), 0);
    p.notify_queue_empty();
    let cmd = handle_autoplay(&mut o, &mut p, 2_500);
    assert_eq!(cmd, None);
    assert_eq!(o.selected, Some(track("b.mp3", 2_000)));
    assert_eq!(p.current, Some(track("b.mp3", 2_000)));
}

#[test]
fn autoplay_waits_while_the_track_still_plays() {
    let mut o = abc_playlist();
    o.autoplay = true;
    o.selected = Some(track("b.mp3", 2_000));
    let mut p = AudioPlayer::default();
    p.play(track("b.mp3", 2_000), 0);
    let cmd = handle_autoplay(&mut o, &mut p, 500);
    assert_eq!(cmd, None);
    assert_eq!(o.selected, Some(track("b.mp3", 2_000)));
}

#[test]
fn play_pause_starts_the_selected_track() {
    let o = {
        let mut o = abc_playlist();
        o.selected = Some(track("b.mp3", 2_000));
        o
    };
    let mut p = AudioPlayer::default();
    let cmd = play_pause(&o, &mut p, 10);
    assert_eq!(cmd, Some(QueueCommand::Load));
    assert_eq!(p.current, Some(track("b.mp3", 2_000)));
}

#[test]
fn play_pause_falls_back_to_the_first_track() {
    let o = abc_playlist();
    let mut p = AudioPlayer::default();
    let cmd = play_pause(&o, &mut p, 10);
    assert_eq!(cmd, Some(QueueCommand::Load));
    assert_eq!(p.current, Some(track("a.mp3", 1_000)));
}

#[test]
fn play_pause_with_nothing_to_act_on_does_nothing() {
    let o = Options::default();
    let mut p = AudioPlayer::default();
    let cmd = play_pause(&o, &mut p, 10);
    assert_eq!(cmd, None);
    assert!(p.current.is_none());
}

#[test]
fn play_pause_toggles_between_pause_and_resume() {
    let o = abc_playlist();
    let mut p = AudioPlayer::default();
    play_pause(&o, &mut p, 0);
    assert!(p.is_playing());
    let cmd = play_pause(&o, &mut p, 1_000);
    assert_eq!(cmd, Some(QueueCommand::Pause));
    assert!(!p.is_playing());
    let cmd2 = play_pause(&o, &mut p, 3_000);
    assert_eq!(cmd2, Some(QueueCommand::Resume));
    assert!(p.is_playing());
    assert_eq!(p.elapsed(3_000), Ok(1_000));
}

#[test]
fn remove_selected_stops_the_playing_track() {
    let mut o = abc_playlist();
    o.selected = Some(track("b.mp3", 2_000));
    let mut p = AudioPlayer::default();
    p.play(track("b.mp3", 2_000), 0);
    let stopped = remove_selected(&mut o, &mut p);
    assert!(stopped);
    assert_eq!(o.playlist.len(), 2);
    assert!(!o.playlist.contains(&track("b.mp3", 2_000)));
    assert!(o.selected.is_none());
    assert!(p.current.is_none());
}

#[test]
fn remove_selected_keeps_an_unrelated_playing_track() {
    let mut o = abc_playlist();
    o.selected = Some(track("b.mp3", 2_000));
    let mut p = AudioPlayer::default();
    p.play(track("a.mp3", 1_000), 0);
    let stopped = remove_selected(&mut o, &mut p);
    assert!(!stopped);
    assert_eq!(o.playlist.len(), 2);
    assert_eq!(o.selected, Some(track("a.mp3", 1_000)));
    assert_eq!(p.current, Some(track("a.mp3", 1_000)));
}
