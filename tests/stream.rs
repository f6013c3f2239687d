use rvp::state::SharedPlaybackState;
use rvp::stream::{
    auto_select, frame_to_rgba, media_queues, streams_to_open, to_millis, DecodeProducer, DecoderInfo,
    FrameError, PacketAction, PixelFormat, ProducerPhase, StreamInfo, StreamType, NO_TIMESTAMP,
    VIDEO_QUEUE_CAPACITY, VideoFrame,
};
use std::sync::mpsc::TrySendError;

fn stream(kind: StreamType, index: i32, width: u32, height: u32, bitrate: u64) -> StreamInfo {
    StreamInfo {
        kind,
        index,
        codec: String::new(),
        format: String::new(),
        channels: 0,
        sample_rate: 0,
        width,
        height,
        fps_milli: 0,
        bitrate,
        language: None,
    }
}

#[test]
fn auto_selection_is_deterministic() {
    let streams = vec![
        stream(StreamType::Video, 0, 640, 480, 0),
        stream(StreamType::Video, 1, 1920, 1080, 0),
        stream(StreamType::Audio, 0, 0, 0, 64_000),
        stream(StreamType::Audio, 1, 0, 0, 128_000),
    ];
    let sel = auto_select(&streams);
    assert_eq!(sel.video, 1);
    assert_eq!(sel.audio, 1);
    assert_eq!(sel.subtitle, -1);
    assert_eq!(auto_select(&streams), sel);
}

#[test]
fn selection_ties_pick_first() {
    let streams = vec![
        stream(StreamType::Audio, 4, 0, 0, 128_000),
        stream(StreamType::Video, 7, 1280, 720, 0),
        stream(StreamType::Subtitle, 9, 0, 0, 0),
        stream(StreamType::Video, 8, 720, 1280, 0),
        stream(StreamType::Audio, 5, 0, 0, 128_000),
        stream(StreamType::Subtitle, 10, 0, 0, 0),
    ];
    let sel = auto_select(&streams);
    assert_eq!(sel.video, 7);
    assert_eq!(sel.audio, 4);
    assert_eq!(sel.subtitle, 9);
}

#[test]
fn producer_picks_1080p_and_192k() {
    let info = DecoderInfo {
        bitrate: 5_000_000,
        duration_ms: 60_000,
        streams: vec![
            stream(StreamType::Video, 0, 1280, 720, 0),
            stream(StreamType::Video, 1, 1920, 1080, 0),
            stream(StreamType::Audio, 2, 0, 0, 96_000),
            stream(StreamType::Audio, 3, 0, 0, 192_000),
        ],
    };
    let mut state = SharedPlaybackState::new();
    let mut producer = DecodeProducer::new();
    assert_eq!(producer.phase(), ProducerPhase::Uninitialized);
    assert!(producer.begin_probe());
    assert!(!producer.begin_probe());
    let sel = producer.finish_probe(&info, &mut state);
    assert_eq!(producer.phase(), ProducerPhase::Streaming);
    assert_eq!((sel.video, sel.audio, sel.subtitle), (1, 3, -1));
    assert_eq!(state.selected_video(), 1);
    assert_eq!(state.selected_audio(), 3);
    assert_eq!(state.selected_subtitle(), -1);
    assert_eq!(streams_to_open(&info.streams, sel), vec![1, 3]);
    assert_eq!(info.stream_by_index(3).unwrap().bitrate, 192_000);
    assert!(info.stream_by_index(-1).is_none());
}

#[test]
fn producer_filters_packets_by_selection() {
    let info = DecoderInfo {
        bitrate: 0,
        duration_ms: 0,
        streams: vec![stream(StreamType::Video, 0, 2, 2, 0), stream(StreamType::Audio, 1, 0, 0, 1)],
    };
    let mut state = SharedPlaybackState::new();
    let mut producer = DecodeProducer::new();
    assert_eq!(producer.on_packet(&state, Some(0)), PacketAction::Skip);
    producer.begin_probe();
    producer.finish_probe(&info, &mut state);
    assert_eq!(producer.on_packet(&state, Some(0)), PacketAction::Decode);
    assert_eq!(producer.on_packet(&state, Some(1)), PacketAction::Decode);
    assert_eq!(producer.on_packet(&state, Some(2)), PacketAction::Skip);
    assert_eq!(producer.on_packet(&state, Some(-1)), PacketAction::Skip);
    state.set_selected_audio(-1);
    assert_eq!(producer.on_packet(&state, Some(1)), PacketAction::Skip);
    assert_eq!(producer.on_packet(&state, None), PacketAction::Finish);
    assert_eq!(producer.phase(), ProducerPhase::Ended);
    assert!(producer.is_done());
    producer.fail();
    assert_eq!(producer.phase(), ProducerPhase::Ended);
    let mut other = DecodeProducer::new();
    other.fail();
    assert_eq!(other.phase(), ProducerPhase::Failed);
}

#[test]
fn timestamps_in_milliseconds() {
    assert_eq!(to_millis(90_000, 1, 90_000), 1000);
    assert_eq!(to_millis(3, 1, 25), 120);
    assert_eq!(to_millis(-3, 1, 2), -1500);
    assert_eq!(to_millis(7, 1, 3), 2333);
    assert_eq!(to_millis(-7, 1, 3), -2333);
    assert_eq!(to_millis(NO_TIMESTAMP, 1, 1000), 0);
    assert_eq!(to_millis(5, 1, 0), 0);
    assert_eq!(to_millis(i64::MAX, 1000, 1), i64::MAX);
}

#[test]
fn rgb24_rows_with_padding() {
    let data = vec![1, 2, 3, 4, 5, 6, 99, 99, 7, 8, 9, 10, 11, 12, 99, 99];
    let out = frame_to_rgba(&data, 8, 2, 2, PixelFormat::Rgb24).unwrap();
    assert_eq!(out, vec![1, 2, 3, 255, 4, 5, 6, 255, 7, 8, 9, 255, 10, 11, 12, 255]);
}

#[test]
fn bgr_and_bgra_are_swapped() {
    let bgr = frame_to_rgba(&vec![1, 2, 3], 3, 1, 1, PixelFormat::Bgr24).unwrap();
    assert_eq!(bgr, vec![3, 2, 1, 255]);
    let bgra = frame_to_rgba(&vec![1, 2, 3, 4], 4, 1, 1, PixelFormat::Bgra).unwrap();
    assert_eq!(bgra, vec![3, 2, 1, 4]);
    let rgba = frame_to_rgba(&vec![1, 2, 3, 4], 4, 1, 1, PixelFormat::Rgba).unwrap();
    assert_eq!(rgba, vec![1, 2, 3, 4]);
}

#[test]
fn frame_conversion_errors() {
    assert_eq!(frame_to_rgba(&vec![0; 16], 4, 1, 1, PixelFormat::Other), Err(FrameError::UnsupportedPixelFormat));
    assert_eq!(frame_to_rgba(&vec![0; 16], 5, 2, 1, PixelFormat::Rgb24), Err(FrameError::BadLayout));
    assert_eq!(frame_to_rgba(&vec![0; 7], 4, 1, 2, PixelFormat::Rgba), Err(FrameError::BadLayout));
    assert_eq!(frame_to_rgba(&vec![], 0, 0, 0, PixelFormat::Rgba), Ok(vec![]));
}

#[test]
fn video_queue_is_bounded() {
    let (tx, rx) = media_queues();
    let frame = || VideoFrame {
        pixels: vec![],
        width: 0,
        height: 0,
        stream_index: 0,
        pts_ms: 0,
        duration_ms: 0,
    };
    for _ in 0..VIDEO_QUEUE_CAPACITY {
        assert!(tx.video.try_send(frame()).is_ok());
    }
    assert!(matches!(tx.video.try_send(frame()), Err(TrySendError::Full(_))));
    assert!(rx.video.try_recv().is_ok());
    assert!(tx.video.try_send(frame()).is_ok());
    assert!(matches!(tx.video.try_send(frame()), Err(TrySendError::Full(_))));
    let mut n = 0;
    while rx.video.try_recv().is_ok() {
        n += 1;
    }
    assert_eq!(n, VIDEO_QUEUE_CAPACITY);
}
