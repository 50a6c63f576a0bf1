use sours::audio_resource::AudioResource;

fn track(path: &str, duration: u64) -> AudioResource {
    AudioResource { path: path.to_string(), duration, created_playable: true }
}

#[test]
fn equal_when_basename_and_duration_match() {
    let a = AudioResource::new("music/dir1/song.mp3".to_string(), 5000);
    let b = AudioResource::new("other\\place\\song.mp3".to_string(), 5000);
    assert_eq!(a, b);
}

#[test]
fn unequal_when_duration_differs() {
    let a = track("dir/song.mp3", 5000);
    let b = track("dir/song.mp3", 5001);
    assert_ne!(a, b);
}

#[test]
fn unequal_when_basename_differs() {
    let a = track("dir/song.mp3", 5000);
    let b = track("dir/tune.mp3", 5000);
    assert_ne!(a, b);
}

#[test]
fn equality_ignores_playability() {
    let a = AudioResource { path: "x/a.mp3".to_string(), duration: 7, created_playable: true };
    let b = AudioResource { path: "y/a.mp3".to_string(), duration: 7, created_playable: false };
    assert_eq!(a, b);
}

#[test]
fn bare_filename_equals_pathed_filename() {
    let a = track("song.mp3", 100);
    let b = track("deep/nested/dir/song.mp3", 100);
    assert_eq!(a, b);
}

#[test]
fn formatted_duration_renders_minutes_and_seconds() {
    let t = track("a.mp3", 205_000);
    assert_eq!(t.formatted_duration(), "03:25");
}

#[test]
fn formatted_duration_zero() {
    let t = track("a.mp3", 0);
    assert_eq!(t.formatted_duration(), "00:00");
}

#[test]
fn formatted_duration_over_an_hour_keeps_minutes() {
    let t = track("a.mp3", 3_661_000);
    assert_eq!(t.formatted_duration(), "61:01");
}

#[test]
fn formatted_duration_rounds_down_to_seconds() {
    let t = track("a.mp3", 59_999);
    assert_eq!(t.formatted_duration(), "00:59");
}

#[test]
fn missing_file_is_unplayable_with_zero_duration() {
    let t = AudioResource::from_path("no_such_dir/missing.mp3".to_string());
    assert_eq!(t.duration, 0);
    assert!(!t.created_playable);
    assert!(!t.playable());
    assert_eq!(t.path, "no_such_dir/missing.mp3");
}

#[test]
fn unplayable_at_creation_stays_unplayable() {
    let t = AudioResource { path: "no_such_dir/gone.mp3".to_string(), duration: 9, created_playable: false };
    assert!(!t.playable());
}

#[test]
fn location_round_trip_rebuilds_an_equal_track() {
    let original = AudioResource::from_path("no_such_dir/tune.mp3".to_string());
    let reloaded = AudioResource::from_path(original.path.clone());
    assert_eq!(reloaded, original);
    assert!(!reloaded.playable());
}
