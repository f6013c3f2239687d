use crate::state::{clamp, SharedPlaybackState, PlaybackModel};
use vstd::arithmetic::div_mod::lemma_fundamental_div_mod_converse;
use std::sync::mpsc::{Receiver, SyncSender};
use vstd::prelude::*;

verus! {

/// Capacity of the metadata queue: only the latest snapshot matters.
pub const METADATA_QUEUE_CAPACITY: usize = 1;

/// Capacity of the decoded-video queue; a full queue holds the producer back.
pub const VIDEO_QUEUE_CAPACITY: usize = 10;

/// Capacity of the audio queue, sized to absorb realtime jitter.
pub const AUDIO_QUEUE_CAPACITY: usize = 1000;

/// Capacity of the subtitle queue.
pub const SUBTITLE_QUEUE_CAPACITY: usize = 10;

/// Frames per channel in each chunk of audio handed to the audio engine.
pub const AUDIO_CHUNK_FRAMES: usize = 512;

/// Timestamp that the demuxer gives to a unit without one.
pub const NO_TIMESTAMP: i64 = i64::MIN;

/// Kind of an elementary stream.
#[derive(Clone, Copy, Debug, PartialEq, Eq, Structural)]
pub enum StreamType {
    Video,
    Audio,
    Subtitle,
}

/// One track found in the input.
#[derive(Clone, Debug)]
pub struct StreamInfo {
    pub kind: StreamType,
    /// Index of the stream in the container; the selections name it.
    pub index: i32,
    pub codec: String,
    pub format: String,
    pub channels: u8,
    pub sample_rate: u32,
    pub width: u32,
    pub height: u32,
    /// Frames per thousand seconds.
    pub fps_milli: u32,
    /// Bits per second.
    pub bitrate: u64,
    pub language: Option<String>,
}

/// What was found in the input, produced once after probing.
#[derive(Clone, Debug)]
pub struct DecoderInfo {
    /// Bits per second of the whole input.
    pub bitrate: u64,
    pub duration_ms: u64,
    pub streams: Vec<StreamInfo>,
}

/// A decoded picture in packed RGBA, four bytes per pixel, row after row.
#[derive(Clone, Debug)]
pub struct VideoFrame {
    pub pixels: Vec<u8>,
    pub width: u32,
    pub height: u32,
    /// The stream index this frame belongs to.
    pub stream_index: i32,
    /// Presentation time in milliseconds.
    pub pts_ms: i64,
    /// How long the frame is shown, in milliseconds.
    pub duration_ms: i64,
}

/// Decoded audio: one buffer of signed 32-bit samples per channel.
#[derive(Clone, Debug)]
pub struct AudioSamples {
    pub data: Vec<Vec<i32>>,
    /// The stream index these samples belong to.
    pub stream_index: i32,
    /// Presentation time in milliseconds.
    pub pts_ms: i64,
    /// Playing time in milliseconds.
    pub duration_ms: i64,
    /// Samples in each channel's buffer.
    pub samples: usize,
}

/// A subtitle unit, passed on as it came.
#[derive(Clone, Debug)]
pub struct SubtitlePacket {
    pub data: Vec<u8>,
    pub stream_index: i32,
}

/// What the default selection compares among streams of one kind: pixel
/// area for video, bitrate for audio, nothing for subtitles (the first
/// one wins).
pub open spec fn selection_metric(s: StreamInfo) -> int {
    match s.kind {
        StreamType::Video => s.width as int * s.height as int,
        StreamType::Audio => s.bitrate as int,
        StreamType::Subtitle => 0,
    }
}

/// `p` is the position of the stream of kind `kind` that the default
/// selection picks: its metric is the largest among streams of that kind,
/// and every earlier stream of that kind has a strictly smaller one.
pub open spec fn is_default_choice(streams: Seq<StreamInfo>, kind: StreamType, p: int) -> bool {
    &&& 0 <= p < streams.len()
    &&& streams[p].kind == kind
    &&& forall|j: int|
        0 <= j < streams.len() && streams[j].kind == kind ==> selection_metric(streams[j])
            <= selection_metric(streams[p])
    &&& forall|j: int|
        0 <= j < p && streams[j].kind == kind ==> selection_metric(streams[j]) < selection_metric(
            streams[p],
        )
}

/// The default selection is deterministic: at most one position of a
/// stream list is the default choice for a kind.
pub proof fn lemma_default_choice_unique(streams: Seq<StreamInfo>, kind: StreamType, p: int, q: int)
    requires
        is_default_choice(streams, kind, p),
        is_default_choice(streams, kind, q),
    ensures
        p == q,
{
    if p < q {
        assert(selection_metric(streams[q]) <= selection_metric(streams[p]));
    } else if q < p {
        assert(selection_metric(streams[p]) <= selection_metric(streams[q]));
    }
}

/// A 1080p/720p ladder with 96 kbps and 192 kbps audio, in any order: the
/// default selection picks the 1080p video and the 192 kbps audio.
pub proof fn lemma_dual_ladder_selection(streams: Seq<StreamInfo>, hd: int, sd: int, lo: int, hi: int)
    requires
        streams.len() == 4,
        0 <= hd < 4 && 0 <= sd < 4 && 0 <= lo < 4 && 0 <= hi < 4,
        hd != sd && hd != lo && hd != hi && sd != lo && sd != hi && lo != hi,
        streams[hd].kind == StreamType::Video && streams[hd].width == 1920 && streams[hd].height
            == 1080,
        streams[sd].kind == StreamType::Video && streams[sd].width == 1280 && streams[sd].height
            == 720,
        streams[lo].kind == StreamType::Audio && streams[lo].bitrate == 96_000,
        streams[hi].kind == StreamType::Audio && streams[hi].bitrate == 192_000,
    ensures
        forall|i: int| is_default_index(streams, StreamType::Video, i) ==> i == streams[hd].index,
        forall|i: int| is_default_index(streams, StreamType::Audio, i) ==> i == streams[hi].index,
{
    assert(has_kind(streams, StreamType::Video)) by {
        assert(streams[hd].kind == StreamType::Video);
    }
    assert(has_kind(streams, StreamType::Audio)) by {
        assert(streams[hi].kind == StreamType::Audio);
    }
    assert(selection_metric(streams[hd]) == 2_073_600);
    assert(selection_metric(streams[sd]) == 921_600);
    assert forall|i: int| is_default_index(streams, StreamType::Video, i) implies i
        == streams[hd].index by {
        let p = choose|p: int| is_default_choice(streams, StreamType::Video, p) && i == streams[p].index;
        assert(p == hd || p == sd || p == lo || p == hi);
        assert(selection_metric(streams[hd]) <= selection_metric(streams[p]));
    }
    assert forall|i: int| is_default_index(streams, StreamType::Audio, i) implies i
        == streams[hi].index by {
        let p = choose|p: int| is_default_choice(streams, StreamType::Audio, p) && i == streams[p].index;
        assert(p == hd || p == sd || p == lo || p == hi);
        assert(selection_metric(streams[hi]) <= selection_metric(streams[p]));
    }
}

pub open spec fn has_kind(streams: Seq<StreamInfo>, kind: StreamType) -> bool {
    exists|j: int| 0 <= j < streams.len() && streams[j].kind == kind
}

fn metric(s: &StreamInfo) -> (r: u64)
    ensures
        r == selection_metric(*s),
{
    match s.kind {
        StreamType::Video => {
            assert(s.width as int * s.height as int <= u64::MAX) by (nonlinear_arith)
                requires
                    s.width <= u32::MAX,
                    s.height <= u32::MAX,
            ;
            s.width as u64 * s.height as u64
        },
        StreamType::Audio => s.bitrate,
        StreamType::Subtitle => 0,
    }
}

/// Position of the stream of kind `kind` with the largest metric, the first
/// one on ties; `None` when there is no stream of that kind.
pub fn default_stream_position(streams: &Vec<StreamInfo>, kind: StreamType) -> (r: Option<usize>)
    ensures
        r is None <==> !has_kind(streams@, kind),
        r matches Some(p) ==> is_default_choice(streams@, kind, p as int),
{
    let mut best: Option<usize> = None;
    let mut best_metric: u64 = 0;
    let mut i: usize = 0;
    while i < streams.len()
        invariant
            i <= streams.len(),
            best is None <==> (forall|j: int| 0 <= j < i ==> streams@[j].kind != kind),
            best matches Some(p) ==> {
                &&& p < i
                &&& streams@[p as int].kind == kind
                &&& best_metric == selection_metric(streams@[p as int])
                &&& forall|j: int|
                    0 <= j < i && streams@[j].kind == kind ==> selection_metric(streams@[j])
                        <= best_metric
                &&& forall|j: int|
                    0 <= j < p && streams@[j].kind == kind ==> selection_metric(streams@[j])
                        < best_metric
            },
        decreases streams.len() - i,
    {
        let s = &streams[i];
        if s.kind == kind {
            let m = metric(s);
            if best.is_none() || m > best_metric {
                best = Some(i);
                best_metric = m;
            }
        }
        i = i + 1;
    }
    best
}

/// Index of the default stream of kind `kind`, `-1` when there is none.
pub fn default_stream_index(streams: &Vec<StreamInfo>, kind: StreamType) -> (r: isize)
    ensures
        !has_kind(streams@, kind) ==> r == -1,
        has_kind(streams@, kind) ==> exists|p: int|
            is_default_choice(streams@, kind, p) && r == streams@[p].index,
{
    match default_stream_position(streams, kind) {
        Some(p) => streams[p].index as isize,
        None => -1,
    }
}

/// The streams that playback starts with, by stream index, `-1` for none.
#[derive(Clone, Copy, Debug, PartialEq, Eq, Structural)]
pub struct StreamSelection {
    pub video: isize,
    pub audio: isize,
    pub subtitle: isize,
}

/// `index` is what the default selection gives for streams of kind `kind`.
pub open spec fn is_default_index(streams: Seq<StreamInfo>, kind: StreamType, index: int) -> bool {
    &&& !has_kind(streams, kind) ==> index == -1
    &&& has_kind(streams, kind) ==> exists|p: int|
        is_default_choice(streams, kind, p) && index == streams[p].index
}

/// Picks one stream of each kind: the video stream with the most pixels,
/// the audio stream with the highest bitrate and the first subtitle
/// stream, the first one on ties.
pub fn auto_select(streams: &Vec<StreamInfo>) -> (r: StreamSelection)
    ensures
        is_default_index(streams@, StreamType::Video, r.video as int),
        is_default_index(streams@, StreamType::Audio, r.audio as int),
        is_default_index(streams@, StreamType::Subtitle, r.subtitle as int),
{
    StreamSelection {
        video: default_stream_index(streams, StreamType::Video),
        audio: default_stream_index(streams, StreamType::Audio),
        subtitle: default_stream_index(streams, StreamType::Subtitle),
    }
}

impl DecoderInfo {
    /// The stream whose index is `index`, the first such if several.
    pub fn stream_by_index(&self, index: isize) -> (r: Option<&StreamInfo>)
        ensures
            r is None <==> (forall|j: int|
                0 <= j < self.streams@.len() ==> self.streams@[j].index != index),
            r matches Some(s) ==> exists|p: int|
                0 <= p < self.streams@.len() && *s == self.streams@[p] && s.index == index
                    && forall|j: int| 0 <= j < p ==> self.streams@[j].index != index,
    {
        let mut i: usize = 0;
        while i < self.streams.len()
            invariant
                i <= self.streams@.len(),
                forall|j: int| 0 <= j < i ==> self.streams@[j].index != index,
            decreases self.streams@.len() - i,
        {
            if self.streams[i].index as isize == index {
                return Some(&self.streams[i]);
            }
            i = i + 1;
        }
        None
    }
}


/// Integer division rounding toward zero, as Rust's `/` does.
pub open spec fn trunc_div(a: int, d: int) -> int {
    if a >= 0 {
        a / d
    } else {
        -((-a) / d)
    }
}

/// Milliseconds that `ts` units of a time base of `num / den` seconds
/// stand for, rounded toward zero and clamped to `i64`; `0` for a missing
/// timestamp or a time base with a denominator that is not positive.
pub open spec fn timestamp_ms(ts: i64, num: i32, den: i32) -> int {
    if ts == NO_TIMESTAMP || den <= 0 {
        0
    } else {
        clamp(trunc_div(ts * num * 1000, den as int), i64::MIN as int, i64::MAX as int)
    }
}

/// Converts a timestamp in units of the stream's time base `num / den`
/// seconds to milliseconds.
pub fn to_millis(ts: i64, num: i32, den: i32) -> (r: i64)
    ensures
        r == timestamp_ms(ts, num, den),
{
    if ts == NO_TIMESTAMP || den <= 0 {
        return 0;
    }
    assert(-0x8000_0000_0000_0000 * 0x8000_0000 <= ts * num <= 0x8000_0000_0000_0000
        * 0x8000_0000) by (nonlinear_arith)
        requires
            i64::MIN <= ts <= i64::MAX,
            i32::MIN <= num <= i32::MAX,
    ;
    let a = ts as i128 * num as i128 * 1000;
    let q = a / den as i128;
    if q < i64::MIN as i128 {
        i64::MIN
    } else if q > i64::MAX as i128 {
        i64::MAX
    } else {
        q as i64
    }
}

/// Layout of the pixels of a decoded picture.
#[derive(Clone, Copy, Debug, PartialEq, Eq, Structural)]
pub enum PixelFormat {
    Rgb24,
    Bgr24,
    Rgba,
    Bgra,
    /// Any layout this library does not convert.
    Other,
}

/// Why a picture could not be converted.
#[derive(Clone, Copy, Debug, PartialEq, Eq, Structural)]
pub enum FrameError {
    UnsupportedPixelFormat,
    /// Rows shorter than the width, a buffer shorter than its rows, or a
    /// picture too large to hold.
    BadLayout,
}

pub open spec fn bytes_per_pixel(f: PixelFormat) -> int {
    match f {
        PixelFormat::Rgb24 | PixelFormat::Bgr24 => 3,
        PixelFormat::Rgba | PixelFormat::Bgra => 4,
        PixelFormat::Other => 0,
    }
}

/// Byte `c` (red, green, blue, alpha) of the pixel whose first byte is at
/// `base` in a picture of format `f`; pictures without alpha are opaque.
pub open spec fn channel_byte(data: Seq<u8>, f: PixelFormat, base: int, c: int) -> u8 {
    match f {
        PixelFormat::Rgb24 => if c == 3 {
            255u8
        } else {
            data[base + c]
        },
        PixelFormat::Bgr24 => if c == 3 {
            255u8
        } else {
            data[base + 2 - c]
        },
        PixelFormat::Rgba => data[base + c],
        PixelFormat::Bgra => if c == 3 {
            data[base + 3]
        } else {
            data[base + 2 - c]
        },
        PixelFormat::Other => 0u8,
    }
}

/// Byte `i` of the packed RGBA form of a picture `width` pixels wide whose
/// rows start every `linesize` bytes of `data`.
pub open spec fn rgba_byte(data: Seq<u8>, linesize: int, width: int, f: PixelFormat, i: int) -> u8 {
    let px = i / 4;
    channel_byte(data, f, (px / width) * linesize + (px % width) * bytes_per_pixel(f), i % 4)
}

/// The picture's layout can be read: rows hold the width, the buffer holds
/// the rows, and the packed result fits in memory.
pub open spec fn layout_ok(len: int, linesize: int, width: int, height: int, f: PixelFormat) -> bool {
    &&& width * bytes_per_pixel(f) <= linesize
    &&& linesize * height <= len
    &&& width * height * 4 <= usize::MAX
}

proof fn lemma_pixel_index(w: int, x: int, y: int, c: int)
    requires
        0 <= x < w,
        0 <= y,
        0 <= c < 4,
    ensures
        ((y * w + x) * 4 + c) / 4 == y * w + x,
        ((y * w + x) * 4 + c) % 4 == c,
        (y * w + x) / w == y,
        (y * w + x) % w == x,
{
    lemma_fundamental_div_mod_converse((y * w + x) * 4 + c, 4, y * w + x, c);
    lemma_fundamental_div_mod_converse(y * w + x, w, y, x);
}

/// Converts a decoded picture to packed RGBA, the form the presentation
/// layer takes.
pub fn frame_to_rgba(data: &Vec<u8>, linesize: usize, width: usize, height: usize, format: PixelFormat) -> (r: Result<Vec<u8>, FrameError>)
    ensures
        format == PixelFormat::Other ==> r == Err::<Vec<u8>, FrameError>(FrameError::UnsupportedPixelFormat),
        format != PixelFormat::Other ==> (r is Ok <==> layout_ok(
            data@.len() as int,
            linesize as int,
            width as int,
            height as int,
            format,
        )),
        format != PixelFormat::Other && r is Err ==> r == Err::<Vec<u8>, FrameError>(FrameError::BadLayout),
        r matches Ok(out) ==> {
            &&& out@.len() == width * height * 4
            &&& forall|i: int|
                0 <= i < out@.len() ==> out@[i] == rgba_byte(
                    data@,
                    linesize as int,
                    width as int,
                    format,
                    i,
                )
        },
{
    let bpp: usize = match format {
        PixelFormat::Rgb24 | PixelFormat::Bgr24 => 3,
        PixelFormat::Rgba | PixelFormat::Bgra => 4,
        PixelFormat::Other => {
            return Err(FrameError::UnsupportedPixelFormat);
        },
    };
    if width > linesize / bpp {
        return Err(FrameError::BadLayout);
    }
    if height > 0 && linesize > data.len() / height {
        assert(linesize * height > data@.len()) by (nonlinear_arith)
            requires
                height > 0,
                linesize > data@.len() / (height as nat),
        ;
        return Err(FrameError::BadLayout);
    }
    if height > 0 && width > usize::MAX / 4 / height {
        assert(width * height * 4 > usize::MAX) by (nonlinear_arith)
            requires
                height > 0,
                width > usize::MAX / 4 / height,
        ;
        return Err(FrameError::BadLayout);
    }
    assert(width * bpp <= linesize) by (nonlinear_arith)
        requires
            bpp > 0,
            width <= linesize / bpp,
    ;
    assert(linesize * height <= data@.len()) by (nonlinear_arith)
        requires
            height == 0 || linesize <= data@.len() / (height as nat),
    ;
    assert(width * height * 4 <= usize::MAX) by (nonlinear_arith)
        requires
            height == 0 || width <= usize::MAX / 4 / height,
    ;
    let dlen = data.len();
    let ghost w = width as int;
    let mut out: Vec<u8> = Vec::new();
    let mut y: usize = 0;
    while y < height
        invariant
            y <= height,
            bpp as int == bytes_per_pixel(format),
            format != PixelFormat::Other,
            width * bpp <= linesize,
            linesize * height <= data@.len(),
            data@.len() == dlen,
            width * height * 4 <= usize::MAX,
            w == width as int,
            out@.len() == y * w * 4,
            forall|i: int|
                0 <= i < out@.len() ==> out@[i] == rgba_byte(data@, linesize as int, w, format, i),
        decreases height - y,
    {
        assert(y * linesize < (y + 1) * linesize <= linesize * height || linesize == 0) by (nonlinear_arith)
            requires
                y < height,
        ;
        assert(y * linesize <= linesize * height) by (nonlinear_arith)
            requires
                y < height,
        ;
        assert((y + 1) * linesize <= linesize * height) by (nonlinear_arith)
            requires
                y < height,
        ;
        let row = y * linesize;
        let mut x: usize = 0;
        while x < width
            invariant
                y < height,
                x <= width,
                bpp as int == bytes_per_pixel(format),
                format != PixelFormat::Other,
                width * bpp <= linesize,
                linesize * height <= data@.len(),
                (y + 1) * linesize <= linesize * height,
                data@.len() == dlen,
                row == y * linesize,
                width * height * 4 <= usize::MAX,
                w == width as int,
                out@.len() == (y * w + x) * 4,
                forall|i: int|
                    0 <= i < out@.len() ==> out@[i] == rgba_byte(data@, linesize as int, w, format, i),
            decreases width - x,
        {
            assert(row + x * bpp + bpp <= (y + 1) * linesize) by (nonlinear_arith)
                requires
                    x < width,
                    width * bpp <= linesize,
                    row == y * linesize,
            ;
            assert((y * w + x + 1) * 4 <= width * height * 4) by (nonlinear_arith)
                requires
                    x < width,
                    y < height,
                    w == width,
            ;
            let base = row + x * bpp;
            let (r, g, b, a): (u8, u8, u8, u8) = match format {
                PixelFormat::Rgb24 => (data[base], data[base + 1], data[base + 2], 255u8),
                PixelFormat::Bgr24 => (data[base + 2], data[base + 1], data[base], 255u8),
                PixelFormat::Rgba => (data[base], data[base + 1], data[base + 2], data[base + 3]),
                _ => (data[base + 2], data[base + 1], data[base], data[base + 3]),
            };
            let ghost before = out@;
            out.push(r);
            out.push(g);
            out.push(b);
            out.push(a);
            proof {
                assert forall|i: int| 0 <= i < out@.len() implies out@[i] == rgba_byte(
                    data@,
                    linesize as int,
                    w,
                    format,
                    i,
                ) by {
                    if i >= before.len() {
                        let c = i - before.len();
                        lemma_pixel_index(w, x as int, y as int, c);
                        assert(i == (y * w + x) * 4 + c);
                    }
                }
            }
            x = x + 1;
        }
        assert((y * w + w) * 4 == (y + 1) * w * 4) by (nonlinear_arith);
        y = y + 1;
    }
    assert(height * w * 4 == width * height * 4) by (nonlinear_arith)
        requires
            w == width,
    ;
    Ok(out)
}


/// Lifecycle of the decode producer.
#[derive(Clone, Copy, Debug, PartialEq, Eq, Structural)]
pub enum ProducerPhase {
    Uninitialized,
    Probing,
    Streaming,
    /// The input reported its end.
    Ended,
    /// An unrecoverable demux, decode or conversion error stopped it.
    Failed,
}

/// What the producer does with the packet it just pulled.
#[derive(Clone, Copy, Debug, PartialEq, Eq, Structural)]
pub enum PacketAction {
    /// The packet belongs to no selected stream: drop it.
    Skip,
    /// Decode the packet.
    Decode,
    /// End of input: drain the decoders, then stop.
    Finish,
}

/// A packet of stream `index` belongs to the current selection.
pub open spec fn is_selected(m: PlaybackModel, index: i32) -> bool {
    index >= 0 && (index == m.selected_video || index == m.selected_audio || index
        == m.selected_subtitle)
}

/// The decisions of the decode producer: when to probe, which packets to
/// decode, and when it is done. The demuxing and decoding themselves are
/// done by its caller.
pub struct DecodeProducer {
    phase: ProducerPhase,
}

impl DecodeProducer {
    pub fn new() -> (r: DecodeProducer)
        ensures
            r.phase_spec() == ProducerPhase::Uninitialized,
    {
        DecodeProducer { phase: ProducerPhase::Uninitialized }
    }

    pub closed spec fn phase_spec(&self) -> ProducerPhase {
        self.phase
    }

    pub fn phase(&self) -> (r: ProducerPhase)
        ensures
            r == self.phase_spec(),
    {
        self.phase
    }

    /// True once the producer has ended or failed.
    pub fn is_done(&self) -> (r: bool)
        ensures
            r <==> (self.phase_spec() == ProducerPhase::Ended || self.phase_spec()
                == ProducerPhase::Failed),
    {
        self.phase == ProducerPhase::Ended || self.phase == ProducerPhase::Failed
    }

    /// Starts probing; returns whether the input still has to be probed.
    pub fn begin_probe(&mut self) -> (r: bool)
        ensures
            r <==> old(self).phase_spec() == ProducerPhase::Uninitialized,
            r ==> final(self).phase_spec() == ProducerPhase::Probing,
            !r ==> final(self).phase_spec() == old(self).phase_spec(),
    {
        if self.phase == ProducerPhase::Uninitialized {
            self.phase = ProducerPhase::Probing;
            true
        } else {
            false
        }
    }

    /// Takes the probe's result: picks the default streams, writes them to
    /// the playback state, and starts streaming. Does nothing unless probing.
    pub fn finish_probe(&mut self, info: &DecoderInfo, state: &mut SharedPlaybackState) -> (r: StreamSelection)
        ensures
            is_default_index(info.streams@, StreamType::Video, r.video as int),
            is_default_index(info.streams@, StreamType::Audio, r.audio as int),
            is_default_index(info.streams@, StreamType::Subtitle, r.subtitle as int),
            old(self).phase_spec() == ProducerPhase::Probing ==> {
                &&& final(self).phase_spec() == ProducerPhase::Streaming
                &&& final(state)@ == (PlaybackModel {
                    selected_video: r.video,
                    selected_audio: r.audio,
                    selected_subtitle: r.subtitle,
                    ..old(state)@
                })
            },
            old(self).phase_spec() != ProducerPhase::Probing ==> {
                &&& final(self).phase_spec() == old(self).phase_spec()
                &&& final(state)@ == old(state)@
            },
    {
        let sel = auto_select(&info.streams);
        if self.phase == ProducerPhase::Probing {
            state.set_selected_video(sel.video);
            state.set_selected_audio(sel.audio);
            state.set_selected_subtitle(sel.subtitle);
            self.phase = ProducerPhase::Streaming;
        }
        sel
    }

    /// Decides on the packet just pulled: `None` is the end of input. The
    /// selection is read anew for each packet, so a change of stream takes
    /// effect at once. Outside streaming every packet is skipped.
    pub fn on_packet(&mut self, state: &SharedPlaybackState, stream_index: Option<i32>) -> (r: PacketAction)
        ensures
            old(self).phase_spec() != ProducerPhase::Streaming ==> {
                &&& r == PacketAction::Skip
                &&& final(self).phase_spec() == old(self).phase_spec()
            },
            old(self).phase_spec() == ProducerPhase::Streaming ==> match stream_index {
                None => r == PacketAction::Finish && final(self).phase_spec() == ProducerPhase::Ended,
                Some(i) => {
                    &&& r == (if is_selected(state@, i) {
                        PacketAction::Decode
                    } else {
                        PacketAction::Skip
                    })
                    &&& final(self).phase_spec() == ProducerPhase::Streaming
                },
            },
    {
        if self.phase != ProducerPhase::Streaming {
            return PacketAction::Skip;
        }
        match stream_index {
            None => {
                self.phase = ProducerPhase::Ended;
                PacketAction::Finish
            },
            Some(i) => {
                let i = i as isize;
                if i >= 0 && (i == state.selected_video() || i == state.selected_audio() || i
                    == state.selected_subtitle()) {
                    PacketAction::Decode
                } else {
                    PacketAction::Skip
                }
            },
        }
    }

    /// Records an unrecoverable error; an ended producer stays ended.
    pub fn fail(&mut self)
        ensures
            old(self).phase_spec() == ProducerPhase::Ended ==> final(self).phase_spec()
                == ProducerPhase::Ended,
            old(self).phase_spec() != ProducerPhase::Ended ==> final(self).phase_spec()
                == ProducerPhase::Failed,
    {
        if self.phase != ProducerPhase::Ended {
            self.phase = ProducerPhase::Failed;
        }
    }
}

/// The decoder of stream `s` is opened under selection `sel`.
pub open spec fn is_opened(s: StreamInfo, sel: StreamSelection) -> bool {
    let i = s.index as int;
    i >= 0 && (i == sel.video || i == sel.audio || i == sel.subtitle)
}

/// Positions of the streams whose decoders are opened after probing: those
/// whose index is one of the selected ones.
pub fn streams_to_open(streams: &Vec<StreamInfo>, sel: StreamSelection) -> (r: Vec<usize>)
    ensures
        forall|k: int| 0 <= k < r@.len() ==> r@[k] < streams@.len(),
        forall|k: int, l: int| 0 <= k < l < r@.len() ==> r@[k] < r@[l],
        forall|p: int|
            0 <= p < streams@.len() ==> (r@.contains(p as usize) <==> is_opened(
                #[trigger] streams@[p],
                sel,
            )),
{
    let mut r: Vec<usize> = Vec::new();
    let mut p: usize = 0;
    while p < streams.len()
        invariant
            p <= streams@.len(),
            forall|k: int| 0 <= k < r@.len() ==> r@[k] < p,
            forall|k: int, l: int| 0 <= k < l < r@.len() ==> r@[k] < r@[l],
            forall|q: int|
                0 <= q < p ==> (r@.contains(q as usize) <==> is_opened(#[trigger] streams@[q], sel)),
        decreases streams@.len() - p,
    {
        let i = streams[p].index as isize;
        let ghost before = r@;
        if i >= 0 && (i == sel.video || i == sel.audio || i == sel.subtitle) {
            r.push(p);
        }
        proof {
            assert forall|q: int| 0 <= q <= p implies (r@.contains(q as usize) <==> is_opened(
                #[trigger] streams@[q],
                sel,
            )) by {
                if q < p {
                    if r@.contains(q as usize) {
                        let k = choose|k: int| 0 <= k < r@.len() && r@[k] == q as usize;
                        if k == before.len() {
                            assert(r@[k] == p);
                        } else {
                            assert(before[k] == q as usize);
                        }
                    }
                    if before.contains(q as usize) {
                        let k = choose|k: int| 0 <= k < before.len() && before[k] == q as usize;
                        assert(r@[k] == q as usize);
                    }
                } else {
                    if r@.contains(q as usize) {
                        let k = choose|k: int| 0 <= k < r@.len() && r@[k] == q as usize;
                        assert(k == before.len());
                    }
                    if i >= 0 && (i == sel.video || i == sel.audio || i == sel.subtitle) {
                        assert(r@[before.len() as int] == p);
                    }
                }
            }
        }
        p = p + 1;
    }
    r
}


#[verifier::external_type_specification]
#[verifier::external_body]
#[verifier::reject_recursive_types(T)]
pub struct ExReceiver<T>(Receiver<T>);

#[verifier::external_type_specification]
#[verifier::external_body]
#[verifier::reject_recursive_types(T)]
pub struct ExSyncSender<T>(SyncSender<T>);

/// The number of items the metadata queue behind this sender holds at most.
pub uninterp spec fn metadata_queue_capacity(tx: SyncSender<DecoderInfo>) -> nat;

/// Relies on std's `sync_channel`: a metadata queue that holds at most
/// `capacity` items, whose sender blocks while it is full.
#[verifier::external_body]
fn metadata_queue(capacity: usize) -> (r: (SyncSender<DecoderInfo>, Receiver<DecoderInfo>))
    ensures
        metadata_queue_capacity(r.0) == capacity,
{
    std::sync::mpsc::sync_channel(capacity)
}

/// The number of items the video queue behind this sender holds at most.
pub uninterp spec fn video_queue_capacity(tx: SyncSender<VideoFrame>) -> nat;

/// Relies on std's `sync_channel`: a video queue that holds at most
/// `capacity` items, whose sender blocks while it is full.
#[verifier::external_body]
fn video_queue(capacity: usize) -> (r: (SyncSender<VideoFrame>, Receiver<VideoFrame>))
    ensures
        video_queue_capacity(r.0) == capacity,
{
    std::sync::mpsc::sync_channel(capacity)
}

/// The number of items the audio queue behind this sender holds at most.
pub uninterp spec fn audio_queue_capacity(tx: SyncSender<AudioSamples>) -> nat;

/// Relies on std's `sync_channel`: a audio queue that holds at most
/// `capacity` items, whose sender blocks while it is full.
#[verifier::external_body]
fn audio_queue(capacity: usize) -> (r: (SyncSender<AudioSamples>, Receiver<AudioSamples>))
    ensures
        audio_queue_capacity(r.0) == capacity,
{
    std::sync::mpsc::sync_channel(capacity)
}

/// The number of items the subtitle queue behind this sender holds at most.
pub uninterp spec fn subtitle_queue_capacity(tx: SyncSender<SubtitlePacket>) -> nat;

/// Relies on std's `sync_channel`: a subtitle queue that holds at most
/// `capacity` items, whose sender blocks while it is full.
#[verifier::external_body]
fn subtitle_queue(capacity: usize) -> (r: (SyncSender<SubtitlePacket>, Receiver<SubtitlePacket>))
    ensures
        subtitle_queue_capacity(r.0) == capacity,
{
    std::sync::mpsc::sync_channel(capacity)
}

/// The producing ends of the decoded-media queues.
pub struct MediaSenders {
    pub metadata: SyncSender<DecoderInfo>,
    pub video: SyncSender<VideoFrame>,
    pub audio: SyncSender<AudioSamples>,
    pub subtitle: SyncSender<SubtitlePacket>,
}

/// The consuming ends of the decoded-media queues. Dropping them tells the
/// producer to stop.
pub struct MediaStreams {
    pub metadata: Receiver<DecoderInfo>,
    pub video: Receiver<VideoFrame>,
    pub audio: Receiver<AudioSamples>,
    pub subtitle: Receiver<SubtitlePacket>,
}

/// The bounded queues between the decode producer and its consumers,
/// each of the capacity its constant names; a full queue holds the
/// producer back.
pub fn media_queues() -> (r: (MediaSenders, MediaStreams))
    ensures
        metadata_queue_capacity(r.0.metadata) == METADATA_QUEUE_CAPACITY,
        video_queue_capacity(r.0.video) == VIDEO_QUEUE_CAPACITY,
        audio_queue_capacity(r.0.audio) == AUDIO_QUEUE_CAPACITY,
        subtitle_queue_capacity(r.0.subtitle) == SUBTITLE_QUEUE_CAPACITY,
{
    let (tx_m, rx_m) = metadata_queue(METADATA_QUEUE_CAPACITY);
    let (tx_v, rx_v) = video_queue(VIDEO_QUEUE_CAPACITY);
    let (tx_a, rx_a) = audio_queue(AUDIO_QUEUE_CAPACITY);
    let (tx_s, rx_s) = subtitle_queue(SUBTITLE_QUEUE_CAPACITY);
    (
        MediaSenders { metadata: tx_m, video: tx_v, audio: tx_a, subtitle: tx_s },
        MediaStreams { metadata: rx_m, video: rx_v, audio: rx_a, subtitle: rx_s },
    )
}

} // verus!
