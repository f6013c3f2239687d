use rvp::state::{scale_speed, scale_volume, PlayerState, SharedPlaybackState};

fn tenths(milli: i64) -> i64 {
    (milli + 50).div_euclid(100)
}

#[test]
fn volume() {
    let mut state = SharedPlaybackState::new();
    state.set_volume(800);
    assert_eq!(state.volume(), 800);
    state.incr_volume(100);
    assert_eq!(tenths(state.volume()), 9);
    state.decr_volume(100);
    assert_eq!(tenths(state.volume()), 8);
    state.set_volume(11800);
    assert_eq!(state.volume(), 1000);
    state.set_volume(-11800);
    assert_eq!(state.volume(), 0);
}

#[test]
fn speed() {
    let mut state = SharedPlaybackState::new();
    state.set_speed(1000);
    assert_eq!(state.speed(), 1000);
    state.incr_speed(100);
    assert_eq!(tenths(state.speed()), 11);
    state.incr_speed(100);
    assert_eq!(tenths(state.speed()), 12);
    state.decr_speed(100);
    assert_eq!(tenths(state.speed()), 11);
    state.set_speed(99000);
    assert_eq!(tenths(state.speed()), 100);
}

#[test]
fn volume_round_trip_within_tolerance() {
    let mut state = SharedPlaybackState::new();
    for v in [-5i64, 0, 1, 3, 4, 250, 333, 500, 777, 999, 1000, 1001, i64::MAX, i64::MIN] {
        state.set_volume(v);
        let c = v.clamp(0, 1000);
        let back = state.volume();
        assert!((back - c).abs() * 255 <= 1000, "volume {} read back as {}", v, back);
        assert!((0..=1000).contains(&back));
    }
    state.set_volume(7);
    assert_eq!(state.volume(), 8);
    state.set_volume(500);
    assert_eq!(state.volume_steps(), 128);
    assert_eq!(state.volume(), 502);
}

#[test]
fn speed_round_trip_within_tolerance() {
    let mut state = SharedPlaybackState::new();
    for s in [-1i64, 0, 10, 49, 50, 1000, 1234, 9999, 10000, 10001, i64::MAX] {
        state.set_speed(s);
        let c = s.clamp(10, 10000);
        let back = state.speed();
        assert!((back - c).abs() < 50, "speed {} read back as {}", s, back);
        assert!((10..=10000).contains(&back));
    }
    state.set_speed(10);
    assert_eq!(state.speed(), 50);
    state.decr_speed(1000);
    assert_eq!(state.speed(), 50);
}

#[test]
fn scale_functions_exact() {
    assert_eq!(scale_volume(1000), 255);
    assert_eq!(scale_volume(900), 230);
    assert_eq!(scale_volume(2), 1);
    assert_eq!(scale_speed(10), 1);
    assert_eq!(scale_speed(1100), 22);
    assert_eq!(scale_speed(20000), 200);
}

#[test]
fn new_state_defaults() {
    let s = SharedPlaybackState::new();
    assert_eq!(s.state(), PlayerState::Stopped);
    assert_eq!(s.volume(), 1000);
    assert_eq!(s.speed(), 1000);
    assert!(!s.muted());
    assert!(!s.looping());
    assert_eq!(s.sample_rate(), 48_000);
    assert_eq!(s.channels(), 2);
    assert_eq!(s.selected_video(), -1);
    assert_eq!(s.selected_audio(), -1);
    assert_eq!(s.selected_subtitle(), -1);
    assert_eq!(s.audio_pts(), 0);
}

#[test]
fn fields_update_independently() {
    let mut s = SharedPlaybackState::new();
    s.set_state(PlayerState::Playing);
    s.set_muted(true);
    s.set_looping(true);
    s.set_duration(90_000);
    s.set_video_pts(1234);
    s.set_audio_pts(1200);
    s.incr_audio_pts(34);
    s.set_subtitle_pts(5000);
    s.set_audio_format(44_100, 6);
    s.set_selected_video(3);
    assert_eq!(s.state(), PlayerState::Playing);
    assert!(s.muted());
    assert!(s.looping());
    assert_eq!(s.duration(), 90_000);
    assert_eq!(s.video_pts(), 1234);
    assert_eq!(s.audio_pts(), 1234);
    assert_eq!(s.subtitle_pts(), 5000);
    assert_eq!(s.sample_rate(), 44_100);
    assert_eq!(s.channels(), 6);
    assert_eq!(s.selected_video(), 3);
    assert_eq!(s.volume(), 1000);
}

#[test]
fn audio_pts_saturates() {
    let mut s = SharedPlaybackState::new();
    s.set_audio_pts(i64::MAX - 1);
    s.incr_audio_pts(10);
    assert_eq!(s.audio_pts(), i64::MAX);
}

#[test]
fn player_state_codes() {
    assert_eq!(PlayerState::from(0u8), PlayerState::Stopped);
    assert_eq!(PlayerState::from(1u8), PlayerState::Seeking);
    assert_eq!(PlayerState::from(2u8), PlayerState::Paused);
    assert_eq!(PlayerState::from(3u8), PlayerState::Playing);
    assert_eq!(PlayerState::from(200u8), PlayerState::Stopped);
    assert_eq!(PlayerState::Paused.code(), 2);
    assert_eq!(PlayerState::from_code(PlayerState::Playing.code()), PlayerState::Playing);
}

#[test]
fn player_state_names() {
    assert_eq!(PlayerState::Stopped.name(), "Stopped");
    assert_eq!(PlayerState::Seeking.name(), "Seeking");
    assert_eq!(PlayerState::Paused.name(), "Paused");
    assert_eq!(PlayerState::Playing.name(), "Playing");
}
