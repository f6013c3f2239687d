use vstd::prelude::*;

verus! {

/// Thousandths in one unit: volume `1000` is full volume, speed `1000` is
/// normal speed.
pub const UNIT: i64 = 1000;

/// Stored volume that stands for full volume.
pub const VOLUME_FULL_SCALE: u8 = 255;

/// Lowest speed that can be set, in thousandths.
pub const MIN_SPEED: i64 = 10;

/// Highest speed that can be set, in thousandths.
pub const MAX_SPEED: i64 = 10000;

/// Stored speed that stands for normal speed.
pub const NORMAL_SPEED_STEPS: u8 = 20;

/// Thousandths of speed in one step of the stored speed.
pub const SPEED_STEP: i64 = 50;

pub open spec fn clamp(v: int, lo: int, hi: int) -> int {
    if v < lo {
        lo
    } else if v > hi {
        hi
    } else {
        v
    }
}

/// Stored form of a requested volume given in thousandths, rounded to the
/// nearest step.
pub open spec fn volume_fixed(milli: int) -> int {
    (clamp(milli, 0, UNIT as int) * (VOLUME_FULL_SCALE as int) + (UNIT as int) / 2) / (UNIT as int)
}

/// Volume in thousandths that a stored volume stands for, rounded to the
/// nearest thousandth.
pub open spec fn volume_milli(raw: int) -> int {
    (raw * (UNIT as int) + (VOLUME_FULL_SCALE as int) / 2) / (VOLUME_FULL_SCALE as int)
}

/// Stored form of a requested speed given in thousandths: whole steps,
/// rounded down, and never below one step so that playback always moves.
pub open spec fn speed_fixed(milli: int) -> int {
    let q = clamp(milli, MIN_SPEED as int, MAX_SPEED as int) / (SPEED_STEP as int);
    if q < 1 {
        1
    } else {
        q
    }
}

/// Speed in thousandths that a stored speed stands for.
pub open spec fn speed_milli(raw: int) -> int {
    raw * (SPEED_STEP as int)
}

fn clamp_wide(v: i128, lo: i64, hi: i64) -> (r: i64)
    requires
        lo <= hi,
    ensures
        r == clamp(v as int, lo as int, hi as int),
{
    if v < lo as i128 {
        lo
    } else if v > hi as i128 {
        hi
    } else {
        v as i64
    }
}

/// Stored form of a volume given in thousandths; out-of-range values are
/// clamped to `[0, 1000]`.
pub fn scale_volume(milli: i64) -> (r: u8)
    ensures
        r == volume_fixed(milli as int),
{
    let c = clamp_wide(milli as i128, 0, UNIT);
    let r = (c * (VOLUME_FULL_SCALE as i64) + UNIT / 2) / UNIT;
    assert(0 <= r <= 255) by (nonlinear_arith)
        requires
            0 <= c <= 1000,
            r == (c * 255 + 500) / 1000,
    ;
    r as u8
}

/// Stored form of a speed given in thousandths; out-of-range values are
/// clamped to `[10, 10000]`, and the stored speed is at least one step.
pub fn scale_speed(milli: i64) -> (r: u8)
    ensures
        r == speed_fixed(milli as int),
        1 <= r <= 200,
{
    let c = clamp_wide(milli as i128, MIN_SPEED, MAX_SPEED);
    let q = c / SPEED_STEP;
    if q < 1 {
        1
    } else {
        q as u8
    }
}

/// Setting a volume and reading it back gives the requested volume,
/// clamped to `[0, 1000]`, within the fixed-point tolerance of one step of
/// `1000 / 255` thousandths.
pub proof fn lemma_volume_round_trip(milli: i64)
    ensures
        ({
            let c = clamp(milli as int, 0, UNIT as int);
            let back = volume_milli(volume_fixed(milli as int));
            &&& 0 <= back <= UNIT
            &&& (back - c) * (VOLUME_FULL_SCALE as int) <= (UNIT as int)
            &&& (c - back) * (VOLUME_FULL_SCALE as int) <= (UNIT as int)
        }),
{
    let c = clamp(milli as int, 0, 1000);
    let q = (c * 255 + 500) / 1000;
    let back = (q * 1000 + 127) / 255;
    assert(0 <= c <= 1000);
    assert(q * 1000 <= c * 255 + 500 && c * 255 + 500 < q * 1000 + 1000) by (nonlinear_arith)
        requires
            0 <= c,
            q == (c * 255 + 500) / 1000,
    ;
    assert(0 <= q <= 255) by (nonlinear_arith)
        requires
            0 <= c <= 1000,
            q == (c * 255 + 500) / 1000,
    ;
    assert(back * 255 <= q * 1000 + 127 && q * 1000 + 127 < back * 255 + 255) by (nonlinear_arith)
        requires
            0 <= q,
            back == (q * 1000 + 127) / 255,
    ;
    assert(0 <= back <= 1000) by (nonlinear_arith)
        requires
            0 <= q <= 255,
            back == (q * 1000 + 127) / 255,
    ;
}

/// Setting a speed and reading it back gives the requested speed, clamped
/// to `[10, 10000]`, within one step of fifty thousandths, and never a
/// speed outside `[10, 10000]`.
pub proof fn lemma_speed_round_trip(milli: i64)
    ensures
        ({
            let c = clamp(milli as int, MIN_SPEED as int, MAX_SPEED as int);
            let back = speed_milli(speed_fixed(milli as int));
            &&& c - (SPEED_STEP as int) < back < c + (SPEED_STEP as int)
            &&& MIN_SPEED <= back <= MAX_SPEED
        }),
{
    let c = clamp(milli as int, 10, 10000);
    assert(c - 50 < (c / 50) * 50 <= c) by (nonlinear_arith)
        requires
            0 <= c,
    ;
    assert(c / 50 <= 200) by (nonlinear_arith)
        requires
            0 <= c <= 10000,
    ;
}

/// The transport state of a playback session.
#[derive(Clone, Copy, Debug, PartialEq, Eq, Structural)]
pub enum PlayerState {
    /// No playback.
    Stopped,
    /// A seek is in progress.
    Seeking,
    /// Playback is paused.
    Paused,
    /// Playback is ongoing.
    Playing,
}

/// Byte code of each state; every other byte reads as `Stopped`.
pub open spec fn state_code(s: PlayerState) -> u8 {
    match s {
        PlayerState::Stopped => 0,
        PlayerState::Seeking => 1,
        PlayerState::Paused => 2,
        PlayerState::Playing => 3,
    }
}

pub open spec fn state_name(s: PlayerState) -> Seq<char> {
    match s {
        PlayerState::Stopped => "Stopped"@,
        PlayerState::Seeking => "Seeking"@,
        PlayerState::Paused => "Paused"@,
        PlayerState::Playing => "Playing"@,
    }
}

pub open spec fn state_of_code(v: u8) -> PlayerState {
    if v == 1 {
        PlayerState::Seeking
    } else if v == 2 {
        PlayerState::Paused
    } else if v == 3 {
        PlayerState::Playing
    } else {
        PlayerState::Stopped
    }
}

impl PlayerState {
    /// The byte code of this state.
    pub fn code(self) -> (r: u8)
        ensures
            r == state_code(self),
            state_of_code(r) == self,
    {
        match self {
            PlayerState::Stopped => 0,
            PlayerState::Seeking => 1,
            PlayerState::Paused => 2,
            PlayerState::Playing => 3,
        }
    }

    /// The state that a byte code stands for; unknown codes read as `Stopped`.
    pub fn from_code(v: u8) -> (r: PlayerState)
        ensures
            r == state_of_code(v),
    {
        if v == 1 {
            PlayerState::Seeking
        } else if v == 2 {
            PlayerState::Paused
        } else if v == 3 {
            PlayerState::Playing
        } else {
            PlayerState::Stopped
        }
    }

    /// The name of this state, as shown to the user.
    pub fn name(self) -> (r: &'static str)
        ensures
            r@ == state_name(self),
    {
        match self {
            PlayerState::Stopped => "Stopped",
            PlayerState::Seeking => "Seeking",
            PlayerState::Paused => "Paused",
            PlayerState::Playing => "Playing",
        }
    }
}

impl From<u8> for PlayerState {
    fn from(v: u8) -> (r: PlayerState) {
        PlayerState::from_code(v)
    }
}

impl vstd::std_specs::convert::FromSpecImpl<u8> for PlayerState {
    open spec fn obeys_from_spec() -> bool {
        true
    }

    open spec fn from_spec(v: u8) -> PlayerState {
        state_of_code(v)
    }
}


/// What a [`SharedPlaybackState`] holds, field by field.
pub struct PlaybackModel {
    pub state: PlayerState,
    /// Stored volume, `255` being full volume.
    pub volume: u8,
    /// Stored speed in steps of `SPEED_STEP` thousandths.
    pub speed: u8,
    pub muted: bool,
    pub looping: bool,
    pub duration_ms: u64,
    pub video_pts_ms: i64,
    pub audio_pts_ms: i64,
    pub subtitle_pts_ms: i64,
    pub sample_rate: u32,
    pub channels: u8,
    pub selected_video: isize,
    pub selected_audio: isize,
    pub selected_subtitle: isize,
}

/// The single source of truth for transport state, volume, speed, mute,
/// loop, the selected streams and the presentation-time estimates of one
/// playback session. Each field is read and written on its own: no
/// operation relates two fields, so a host that shares one value between
/// its threads (behind a lock, or by copying it out and writing back the
/// fields a thread owns) sees last-write-wins per field. Volume and speed
/// are held as fixed-point integers and times as milliseconds.
#[derive(Clone, Copy, Debug)]
pub struct SharedPlaybackState {
    state: PlayerState,
    volume: u8,
    speed: u8,
    mute: bool,
    looping: bool,
    duration: u64,
    video_pts: i64,
    audio_pts: i64,
    subtitle_pts: i64,
    sample_rate: u32,
    channels: u8,
    selected_video: isize,
    selected_audio: isize,
    selected_subtitle: isize,
}

impl View for SharedPlaybackState {
    type V = PlaybackModel;

    closed spec fn view(&self) -> PlaybackModel {
        PlaybackModel {
            state: self.state,
            volume: self.volume,
            speed: self.speed,
            muted: self.mute,
            looping: self.looping,
            duration_ms: self.duration,
            video_pts_ms: self.video_pts,
            audio_pts_ms: self.audio_pts,
            subtitle_pts_ms: self.subtitle_pts,
            sample_rate: self.sample_rate,
            channels: self.channels,
            selected_video: self.selected_video,
            selected_audio: self.selected_audio,
            selected_subtitle: self.selected_subtitle,
        }
    }
}

fn offset_saturating(a: i64, d: i64) -> (r: i64)
    ensures
        r == clamp(a + d, i64::MIN as int, i64::MAX as int),
{
    clamp_wide(a as i128 + d as i128, i64::MIN, i64::MAX)
}

impl SharedPlaybackState {
    /// A stopped session at full volume and normal speed, 48 kHz stereo
    /// output, with no stream selected.
    pub fn new() -> (r: SharedPlaybackState)
        ensures
            r@ == (PlaybackModel {
                state: PlayerState::Stopped,
                volume: VOLUME_FULL_SCALE,
                speed: NORMAL_SPEED_STEPS,
                muted: false,
                looping: false,
                duration_ms: 0,
                video_pts_ms: 0,
                audio_pts_ms: 0,
                subtitle_pts_ms: 0,
                sample_rate: 48_000,
                channels: 2,
                selected_video: -1isize,
                selected_audio: -1isize,
                selected_subtitle: -1isize,
            }),
    {
        SharedPlaybackState {
            state: PlayerState::Stopped,
            volume: VOLUME_FULL_SCALE,
            speed: NORMAL_SPEED_STEPS,
            mute: false,
            looping: false,
            duration: 0,
            video_pts: 0,
            audio_pts: 0,
            subtitle_pts: 0,
            sample_rate: 48_000,
            channels: 2,
            selected_video: -1isize,
            selected_audio: -1isize,
            selected_subtitle: -1isize,
        }
    }

    /// Volume in thousandths, `0..=1000`.
    pub fn volume(&self) -> (r: i64)
        ensures
            r == volume_milli(self@.volume as int),
            0 <= r <= UNIT,
    {
        let raw = self.volume as i64;
        let r = (raw * UNIT + (VOLUME_FULL_SCALE as i64) / 2) / (VOLUME_FULL_SCALE as i64);
        assert(0 <= r <= 1000) by (nonlinear_arith)
            requires
                0 <= raw <= 255,
                r == (raw * 1000 + 127) / 255,
        ;
        r
    }

    /// The stored volume, `255` being full volume.
    pub fn volume_steps(&self) -> (r: u8)
        ensures
            r == self@.volume,
    {
        self.volume
    }

    /// Sets the volume, given in thousandths and clamped to `[0, 1000]`.
    pub fn set_volume(&mut self, milli: i64)
        ensures
            final(self)@ == (PlaybackModel { volume: volume_fixed(milli as int) as u8, ..old(self)@ }),
            (volume_milli(final(self)@.volume as int) - clamp(milli as int, 0, UNIT as int)) * (
            VOLUME_FULL_SCALE as int) <= UNIT as int,
            (clamp(milli as int, 0, UNIT as int) - volume_milli(final(self)@.volume as int)) * (
            VOLUME_FULL_SCALE as int) <= UNIT as int,
    {
        self.volume = scale_volume(milli);
        proof {
            lemma_volume_round_trip(milli);
        }
    }

    /// Raises the volume by `delta` thousandths, clamped to `[0, 1000]`.
    pub fn incr_volume(&mut self, delta: i64)
        ensures
            final(self)@ == (PlaybackModel {
                volume: volume_fixed(volume_milli(old(self)@.volume as int) + delta) as u8,
                ..old(self)@
            }),
    {
        let v = offset_saturating(self.volume(), delta);
        self.set_volume(v);
    }

    /// Lowers the volume by `delta` thousandths, clamped to `[0, 1000]`.
    pub fn decr_volume(&mut self, delta: i64)
        ensures
            final(self)@ == (PlaybackModel {
                volume: volume_fixed(volume_milli(old(self)@.volume as int) - delta) as u8,
                ..old(self)@
            }),
    {
        let v = clamp_wide(self.volume() as i128 - delta as i128, i64::MIN, i64::MAX);
        self.set_volume(v);
    }

    pub fn state(&self) -> (r: PlayerState)
        ensures
            r == self@.state,
    {
        self.state
    }

    pub fn set_state(&mut self, new_state: PlayerState)
        ensures
            final(self)@ == (PlaybackModel { state: new_state, ..old(self)@ }),
    {
        self.state = new_state;
    }

    /// Speed in thousandths; `1000` is normal speed.
    pub fn speed(&self) -> (r: i64)
        ensures
            r == speed_milli(self@.speed as int),
    {
        self.speed as i64 * SPEED_STEP
    }

    /// The stored speed, in steps of `SPEED_STEP` thousandths.
    pub fn speed_steps(&self) -> (r: u8)
        ensures
            r == self@.speed,
    {
        self.speed
    }

    /// Sets the speed, given in thousandths and clamped to `[10, 10000]`.
    pub fn set_speed(&mut self, milli: i64)
        ensures
            final(self)@ == (PlaybackModel { speed: speed_fixed(milli as int) as u8, ..old(self)@ }),
            MIN_SPEED <= speed_milli(final(self)@.speed as int) <= MAX_SPEED,
    {
        self.speed = scale_speed(milli);
    }

    /// Raises the speed by `delta` thousandths, clamped to `[10, 10000]`.
    pub fn incr_speed(&mut self, delta: i64)
        ensures
            final(self)@ == (PlaybackModel {
                speed: speed_fixed(speed_milli(old(self)@.speed as int) + delta) as u8,
                ..old(self)@
            }),
            MIN_SPEED <= speed_milli(final(self)@.speed as int) <= MAX_SPEED,
    {
        let v = offset_saturating(self.speed(), delta);
        self.set_speed(v);
    }

    /// Lowers the speed by `delta` thousandths, clamped to `[10, 10000]`.
    pub fn decr_speed(&mut self, delta: i64)
        ensures
            final(self)@ == (PlaybackModel {
                speed: speed_fixed(speed_milli(old(self)@.speed as int) - delta) as u8,
                ..old(self)@
            }),
            MIN_SPEED <= speed_milli(final(self)@.speed as int) <= MAX_SPEED,
    {
        let v = clamp_wide(self.speed() as i128 - delta as i128, i64::MIN, i64::MAX);
        self.set_speed(v);
    }

    pub fn muted(&self) -> (r: bool)
        ensures
            r == self@.muted,
    {
        self.mute
    }

    pub fn set_muted(&mut self, muted: bool)
        ensures
            final(self)@ == (PlaybackModel { muted: muted, ..old(self)@ }),
    {
        self.mute = muted;
    }

    pub fn looping(&self) -> (r: bool)
        ensures
            r == self@.looping,
    {
        self.looping
    }

    pub fn set_looping(&mut self, looping: bool)
        ensures
            final(self)@ == (PlaybackModel { looping: looping, ..old(self)@ }),
    {
        self.looping = looping;
    }

    /// Duration of the media in milliseconds.
    pub fn duration(&self) -> (r: u64)
        ensures
            r == self@.duration_ms,
    {
        self.duration
    }

    pub fn set_duration(&mut self, ms: u64)
        ensures
            final(self)@ == (PlaybackModel { duration_ms: ms, ..old(self)@ }),
    {
        self.duration = ms;
    }

    /// Presentation time of the video on screen, in milliseconds.
    pub fn video_pts(&self) -> (r: i64)
        ensures
            r == self@.video_pts_ms,
    {
        self.video_pts
    }

    pub fn set_video_pts(&mut self, ms: i64)
        ensures
            final(self)@ == (PlaybackModel { video_pts_ms: ms, ..old(self)@ }),
    {
        self.video_pts = ms;
    }

    /// Presentation time of the audio played so far, in milliseconds.
    pub fn audio_pts(&self) -> (r: i64)
        ensures
            r == self@.audio_pts_ms,
    {
        self.audio_pts
    }

    pub fn set_audio_pts(&mut self, ms: i64)
        ensures
            final(self)@ == (PlaybackModel { audio_pts_ms: ms, ..old(self)@ }),
    {
        self.audio_pts = ms;
    }

    /// Advances the audio time by `ms` milliseconds, saturating at the
    /// bounds of `i64`.
    pub fn incr_audio_pts(&mut self, ms: i64)
        ensures
            final(self)@ == (PlaybackModel {
                audio_pts_ms: clamp(old(self)@.audio_pts_ms + ms, i64::MIN as int, i64::MAX as int) as i64,
                ..old(self)@
            }),
    {
        self.audio_pts = offset_saturating(self.audio_pts, ms);
    }

    /// Presentation time of the subtitle on screen, in milliseconds.
    pub fn subtitle_pts(&self) -> (r: i64)
        ensures
            r == self@.subtitle_pts_ms,
    {
        self.subtitle_pts
    }

    pub fn set_subtitle_pts(&mut self, ms: i64)
        ensures
            final(self)@ == (PlaybackModel { subtitle_pts_ms: ms, ..old(self)@ }),
    {
        self.subtitle_pts = ms;
    }

    /// Output sample rate negotiated with the audio device.
    pub fn sample_rate(&self) -> (r: u32)
        ensures
            r == self@.sample_rate,
    {
        self.sample_rate
    }

    /// Output channel count negotiated with the audio device.
    pub fn channels(&self) -> (r: u8)
        ensures
            r == self@.channels,
    {
        self.channels
    }

    /// Records the output format negotiated with the audio device.
    pub fn set_audio_format(&mut self, sample_rate: u32, channels: u8)
        ensures
            final(self)@ == (PlaybackModel { sample_rate: sample_rate, channels: channels, ..old(self)@ }),
    {
        self.sample_rate = sample_rate;
        self.channels = channels;
    }

    /// Index of the selected video stream, `-1` for none.
    pub fn selected_video(&self) -> (r: isize)
        ensures
            r == self@.selected_video,
    {
        self.selected_video
    }

    /// Index of the selected audio stream, `-1` for none.
    pub fn selected_audio(&self) -> (r: isize)
        ensures
            r == self@.selected_audio,
    {
        self.selected_audio
    }

    /// Index of the selected subtitle stream, `-1` for none.
    pub fn selected_subtitle(&self) -> (r: isize)
        ensures
            r == self@.selected_subtitle,
    {
        self.selected_subtitle
    }

    pub fn set_selected_video(&mut self, index: isize)
        ensures
            final(self)@ == (PlaybackModel { selected_video: index, ..old(self)@ }),
    {
        self.selected_video = index;
    }

    pub fn set_selected_audio(&mut self, index: isize)
        ensures
            final(self)@ == (PlaybackModel { selected_audio: index, ..old(self)@ }),
    {
        self.selected_audio = index;
    }

    pub fn set_selected_subtitle(&mut self, index: isize)
        ensures
            final(self)@ == (PlaybackModel { selected_subtitle: index, ..old(self)@ }),
    {
        self.selected_subtitle = index;
    }
}

} // verus!
