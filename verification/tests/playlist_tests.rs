use sours::audio_resource::AudioResource;
use sours::options::Options;

fn track(path: &str, duration: u64) -> AudioResource {
    AudioResource { path: path.to_string(), duration, created_playable: true }
}

fn playlist_of(names: &[&str]) -> Options {
    let mut o = Options::default();
    for (i, n) in names.iter().enumerate() {
        o.add_track(track(n, 1_000 + i as u64));
    }
    o
}

#[test]
fn default_options() {
    let o = Options::default();
    assert_eq!(o.playlist.len(), 0);
    assert!(!o.autoplay);
    assert!(o.selected.is_none());
    assert_eq!(o.volume, 50);
    assert_eq!(o.ui_size, [360, 300]);
    assert!(!o.show_debug);
    assert!(!o.always_on_top);
}

#[test]
fn adding_the_same_song_twice_keeps_one_copy() {
    let mut o = Options::default();
    o.add_track(track("dir/a.mp3", 5_000));
    assert_eq!(o.playlist.len(), 1);
    o.add_track(track("elsewhere/a.mp3", 5_000));
    assert_eq!(o.playlist.len(), 1);
    o.add_track(track("dir/b.mp3", 5_000));
    assert_eq!(o.playlist.len(), 2);
}

#[test]
fn adding_the_same_location_twice_keeps_one_copy() {
    let mut o = Options::default();
    o.add_resource("no_such_dir/a.mp3".to_string());
    o.add_resource("no_such_dir/a.mp3".to_string());
    assert_eq!(o.playlist.len(), 1);
}

#[test]
fn add_rejects_unrecognized_extensions() {
    let mut o = Options::default();
    o.add_resource("no_such_dir/song.ogg".to_string());
    o.add_resource("no_such_dir/song".to_string());
    o.add_resource("no_such_dir/songmp3".to_string());
    o.add_resource(".mp3".to_string());
    assert_eq!(o.playlist.len(), 0);
}

#[test]
fn add_accepts_mp3_and_wav() {
    let mut o = Options::default();
    o.add_resource("no_such_dir/a.mp3".to_string());
    o.add_resource("no_such_dir/b.wav".to_string());
    assert_eq!(o.playlist.len(), 2);
}

#[test]
fn remove_deletes_every_equal_track() {
    let mut o = playlist_of(&["a.mp3", "b.mp3", "c.mp3"]);
    o.remove_resource(&track("somewhere/b.mp3", 1_001));
    assert_eq!(o.playlist.len(), 2);
    assert_eq!(o.playlist[0], track("a.mp3", 1_000));
    assert_eq!(o.playlist[1], track("c.mp3", 1_002));
}

#[test]
fn remove_of_an_absent_track_changes_nothing() {
    let mut o = playlist_of(&["a.mp3", "b.mp3"]);
    o.remove_resource(&track("z.mp3", 77));
    assert_eq!(o.playlist.len(), 2);
}

#[test]
fn clear_empties_the_playlist() {
    let mut o = playlist_of(&["a.mp3", "b.mp3", "c.mp3"]);
    o.playlist_clear();
    assert_eq!(o.playlist.len(), 0);
}

#[test]
fn move_up_from_the_top_wraps_to_the_bottom() {
    let mut o = playlist_of(&["a.mp3", "b.mp3", "c.mp3"]);
    o.selected = Some(track("a.mp3", 1_000));
    o.move_up();
    assert_eq!(o.playlist[0], track("c.mp3", 1_002));
    assert_eq!(o.playlist[1], track("b.mp3", 1_001));
    assert_eq!(o.playlist[2], track("a.mp3", 1_000));
}

#[test]
fn move_down_from_the_bottom_wraps_to_the_top() {
    let mut o = playlist_of(&["a.mp3", "b.mp3", "c.mp3"]);
    o.selected = Some(track("c.mp3", 1_002));
    o.move_down();
    assert_eq!(o.playlist[0], track("c.mp3", 1_002));
    assert_eq!(o.playlist[1], track("b.mp3", 1_001));
    assert_eq!(o.playlist[2], track("a.mp3", 1_000));
}

#[test]
fn move_up_in_the_middle_swaps_neighbours() {
    let mut o = playlist_of(&["a.mp3", "b.mp3", "c.mp3"]);
    o.selected = Some(track("b.mp3", 1_001));
    o.move_up();
    assert_eq!(o.playlist[0], track("b.mp3", 1_001));
    assert_eq!(o.playlist[1], track("a.mp3", 1_000));
    assert_eq!(o.playlist[2], track("c.mp3", 1_002));
}

#[test]
fn move_down_in_the_middle_swaps_neighbours() {
    let mut o = playlist_of(&["a.mp3", "b.mp3", "c.mp3"]);
    o.selected = Some(track("b.mp3", 1_001));
    o.move_down();
    assert_eq!(o.playlist[0], track("a.mp3", 1_000));
    assert_eq!(o.playlist[1], track("c.mp3", 1_002));
    assert_eq!(o.playlist[2], track("b.mp3", 1_001));
}

#[test]
fn shuffle_keeps_exactly_the_same_tracks() {
    let mut o = playlist_of(&["a.mp3", "b.mp3", "c.mp3", "d.mp3", "e.mp3"]);
    o.selected = Some(track("c.mp3", 1_002));
    o.shuffle();
    assert_eq!(o.playlist.len(), 5);
    for n in ["a.mp3", "b.mp3", "c.mp3", "d.mp3", "e.mp3"].iter().enumerate() {
        let t = track(n.1, 1_000 + n.0 as u64);
        assert!(o.playlist.contains(&t));
    }
    // the selection is held by value, so it stays valid
    assert!(o.playlist.contains(o.selected.as_ref().unwrap()));
}
