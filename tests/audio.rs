use rvp::audio::AudioEngine;
use rvp::state::{PlayerState, SharedPlaybackState};
use rvp::stream::AudioSamples;
use std::sync::mpsc::{sync_channel, Receiver, SyncSender};

fn chunk(data: Vec<Vec<i32>>) -> AudioSamples {
    let samples = data.first().map(|c| c.len()).unwrap_or(0);
    AudioSamples { data, stream_index: 1, pts_ms: 0, duration_ms: 0, samples }
}

fn setup() -> (AudioEngine, SharedPlaybackState, SyncSender<AudioSamples>, Receiver<AudioSamples>) {
    let engine = AudioEngine::new(2, 48_000).unwrap();
    let mut state = SharedPlaybackState::new();
    state.set_state(PlayerState::Playing);
    let (tx, rx) = sync_channel(100);
    (engine, state, tx, rx)
}

#[test]
fn engine_needs_channels_and_rate() {
    assert!(AudioEngine::new(0, 48_000).is_none());
    assert!(AudioEngine::new(2, 0).is_none());
    assert!(AudioEngine::new(1, 8_000).is_some());
}

#[test]
fn callback_interleaves_and_writes_every_sample() {
    let (mut engine, mut state, tx, rx) = setup();
    tx.send(chunk(vec![vec![1, 2, 3, 4], vec![5, 6, 7, 8]])).unwrap();
    let mut dst = vec![99; 6];
    engine.render(&mut state, &rx, &mut dst, 0);
    assert_eq!(dst, vec![1, 5, 2, 6, 3, 7]);
    assert_eq!(engine.pending_frames(), 1);
}

#[test]
fn callback_fills_silence_when_starved() {
    let (mut engine, mut state, tx, rx) = setup();
    tx.send(chunk(vec![vec![10, 20], vec![30, 40]])).unwrap();
    let mut dst = vec![99; 9];
    engine.render(&mut state, &rx, &mut dst, 0);
    assert_eq!(dst, vec![10, 30, 20, 40, 0, 0, 0, 0, 0]);
    assert_eq!(engine.underruns(), 1);
    let mut empty = vec![7; 8];
    engine.render(&mut state, &rx, &mut empty, 0);
    assert_eq!(empty, vec![0; 8]);
    assert_eq!(engine.underruns(), 2);
}

#[test]
fn missing_channels_are_silent() {
    let (mut engine, mut state, tx, rx) = setup();
    tx.send(chunk(vec![vec![1, 2]])).unwrap();
    let mut dst = vec![5; 4];
    engine.render(&mut state, &rx, &mut dst, 0);
    assert_eq!(dst, vec![1, 0, 2, 0]);
}

#[test]
fn volume_scales_samples() {
    let (mut engine, mut state, tx, rx) = setup();
    state.set_volume(500);
    tx.send(chunk(vec![vec![1000, -1000], vec![255, i32::MIN]])).unwrap();
    let mut dst = vec![0; 4];
    engine.render(&mut state, &rx, &mut dst, 0);
    assert_eq!(dst, vec![501, 128, -501, (i32::MIN as i64 * 128 / 255) as i32]);
}

#[test]
fn audio_time_advances_monotonically() {
    let (mut engine, mut state, tx, rx) = setup();
    for _ in 0..3 {
        tx.send(chunk(vec![vec![1; 480], vec![1; 480]])).unwrap();
    }
    let mut last = state.audio_pts();
    for expected in [10, 20, 30, 40] {
        let mut dst = vec![0; 960];
        engine.render(&mut state, &rx, &mut dst, 0);
        assert!(state.audio_pts() >= last);
        last = state.audio_pts();
        assert_eq!(last, expected);
    }
}

#[test]
fn audio_time_carries_fractions() {
    let (mut engine, mut state, tx, rx) = setup();
    tx.send(chunk(vec![vec![0; 1024], vec![0; 1024]])).unwrap();
    let mut dst = vec![0; 1024];
    engine.render(&mut state, &rx, &mut dst, 0);
    assert_eq!(state.audio_pts(), 10);
    engine.render(&mut state, &rx, &mut dst, 0);
    assert_eq!(state.audio_pts(), 21);
}

#[test]
fn latency_is_added_once_per_start() {
    let (mut engine, mut state, tx, rx) = setup();
    tx.send(chunk(vec![vec![0; 480], vec![0; 480]])).unwrap();
    tx.send(chunk(vec![vec![0; 480], vec![0; 480]])).unwrap();
    let mut dst = vec![0; 960];
    engine.render(&mut state, &rx, &mut dst, 25);
    assert_eq!(state.audio_pts(), 35);
    engine.render(&mut state, &rx, &mut dst, 25);
    assert_eq!(state.audio_pts(), 45);
}

#[test]
fn pause_silences_and_stops_the_clock() {
    let (mut engine, mut state, tx, rx) = setup();
    for _ in 0..4 {
        tx.send(chunk(vec![vec![3; 480], vec![4; 480]])).unwrap();
    }
    let mut dst = vec![0; 960];
    engine.render(&mut state, &rx, &mut dst, 0);
    assert_eq!(state.audio_pts(), 10);
    state.set_state(PlayerState::Paused);
    for _ in 0..3 {
        let mut paused = vec![9; 960];
        engine.render(&mut state, &rx, &mut paused, 0);
        assert_eq!(paused, vec![0; 960]);
        assert_eq!(state.audio_pts(), 10);
    }
    assert_eq!(engine.pending_frames(), 0);
    state.set_state(PlayerState::Playing);
    let mut resumed = vec![0; 960];
    engine.render(&mut state, &rx, &mut resumed, 0);
    assert_eq!(state.audio_pts(), 20);
    assert_eq!(resumed[0], 3);
    assert_eq!(resumed[1], 4);
}

#[test]
fn stopped_is_silent() {
    let (mut engine, mut state, tx, rx) = setup();
    state.set_state(PlayerState::Stopped);
    tx.send(chunk(vec![vec![3; 4], vec![4; 4]])).unwrap();
    let mut dst = vec![1; 8];
    engine.render(&mut state, &rx, &mut dst, 0);
    assert_eq!(dst, vec![0; 8]);
    assert_eq!(state.audio_pts(), 0);
}

#[test]
fn muted_drains_but_stays_silent() {
    let (mut engine, mut state, tx, rx) = setup();
    state.set_muted(true);
    tx.send(chunk(vec![vec![3; 480], vec![4; 480]])).unwrap();
    let mut dst = vec![1; 960];
    engine.render(&mut state, &rx, &mut dst, 0);
    assert_eq!(dst, vec![0; 960]);
    assert_eq!(state.audio_pts(), 10);
    assert_eq!(engine.pending_frames(), 0);
}

#[test]
fn double_speed_consumes_twice_the_frames() {
    let (mut engine, mut state, tx, rx) = setup();
    state.set_speed(2000);
    let left: Vec<i32> = (0..960).collect();
    let right: Vec<i32> = (0..960).map(|x| -x).collect();
    tx.send(chunk(vec![left, right])).unwrap();
    let mut dst = vec![0; 960];
    engine.render(&mut state, &rx, &mut dst, 0);
    assert_eq!(dst[0], 0);
    assert_eq!(dst[2], 1);
    assert_eq!(dst[3], -1);
    assert_eq!(dst[958], 479);
    assert_eq!(engine.pending_frames(), 0);
    assert_eq!(state.audio_pts(), 10);
}

#[test]
fn half_speed_replays_material() {
    let (mut engine, mut state, tx, rx) = setup();
    state.set_speed(500);
    let left: Vec<i32> = (0..480).collect();
    tx.send(chunk(vec![left.clone(), left])).unwrap();
    let mut dst = vec![0; 960];
    engine.render(&mut state, &rx, &mut dst, 0);
    assert_eq!(engine.pending_frames(), 240);
    assert_eq!(state.audio_pts(), 10);
    let mut next = vec![0; 960];
    engine.render(&mut state, &rx, &mut next, 0);
    assert_eq!(next[0], 240);
    assert_eq!(next[479 * 2], 0);
}

#[test]
fn pause_keeps_buffered_audio_and_queue() {
    let (mut engine, mut state, tx, rx) = setup();
    let left: Vec<i32> = (0..960).collect();
    tx.send(chunk(vec![left.clone(), left])).unwrap();
    let mut dst = vec![0; 960];
    engine.render(&mut state, &rx, &mut dst, 5);
    assert_eq!(engine.pending_frames(), 480);
    assert_eq!(state.audio_pts(), 15);
    tx.send(chunk(vec![vec![1; 480], vec![1; 480]])).unwrap();
    state.set_state(PlayerState::Paused);
    let mut paused = vec![9; 960];
    engine.render(&mut state, &rx, &mut paused, 5);
    assert_eq!(paused, vec![0; 960]);
    assert_eq!(engine.pending_frames(), 480);
    assert_eq!(state.audio_pts(), 15);
    assert!(rx.try_recv().is_ok());
    state.set_state(PlayerState::Playing);
    let mut resumed = vec![0; 960];
    engine.render(&mut state, &rx, &mut resumed, 5);
    assert_eq!(resumed[0], 480);
    assert_eq!(resumed[958], 959);
    assert_eq!(state.audio_pts(), 25);
}
