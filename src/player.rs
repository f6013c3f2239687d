use crate::state::{clamp, PlaybackModel, PlayerState, SharedPlaybackState, speed_fixed, volume_fixed, UNIT};
use vstd::prelude::*;

verus! {

/// Seek step of the key bindings, in milliseconds.
pub const SEEK_STEP_MS: i64 = 5000;

/// Volume step of the key bindings, in thousandths.
pub const VOLUME_STEP: i64 = 100;

/// Speed step of the key bindings, in thousandths.
pub const SPEED_KEY_STEP: i64 = 100;

/// What the control surface is shown of the session.
#[derive(Clone, Copy, Debug)]
pub struct PlaybackInfo {
    pub state: PlayerState,
    pub duration_ms: u64,
    pub elapsed_ms: i64,
    /// Thousandths of full volume.
    pub volume: i64,
    pub muted: bool,
    /// Thousandths of normal speed.
    pub playback_speed: i64,
    pub looping: bool,
    pub fullscreen: bool,
    pub debug: bool,
}

/// A bundle of requested changes; each field that is set is applied.
#[derive(Clone, Copy, Debug)]
pub struct PlaybackUpdate {
    pub set_state: Option<PlayerState>,
    /// Thousandths of full volume.
    pub set_volume: Option<i64>,
    /// Position to seek to, in milliseconds.
    pub set_seek: Option<i64>,
    pub set_muted: Option<bool>,
    /// Thousandths of normal speed.
    pub set_playback_speed: Option<i64>,
    pub set_looping: Option<bool>,
    pub set_fullscreen: Option<bool>,
    pub set_debug: Option<bool>,
}

/// The keys the built-in key bindings react to.
#[derive(Clone, Copy, Debug, PartialEq, Eq, Structural)]
pub enum PlayerKey {
    Space,
    OpenBracket,
    CloseBracket,
    ArrowRight,
    ArrowLeft,
    ArrowUp,
    ArrowDown,
    F,
    F1,
    Other,
}

pub open spec fn sat(v: int) -> i64 {
    clamp(v, i64::MIN as int, i64::MAX as int) as i64
}

fn sat_add(a: i64, b: i64) -> (r: i64)
    ensures
        r == sat(a + b),
{
    let v = a as i128 + b as i128;
    if v < i64::MIN as i128 {
        i64::MIN
    } else if v > i64::MAX as i128 {
        i64::MAX
    } else {
        v as i64
    }
}

/// The bundle after the key binding of `key` acted on it, given what the
/// session shows: space toggles play and pause, the brackets change the
/// speed, left and right seek, up and down change the volume, `F` toggles
/// full screen and `F1` the debug display. A later key overrides an
/// earlier one on the same field.
pub open spec fn after_key(u: PlaybackUpdate, key: PlayerKey, info: PlaybackInfo) -> PlaybackUpdate {
    match key {
        PlayerKey::Space => PlaybackUpdate {
            set_state: Some(
                if info.state == PlayerState::Playing {
                    PlayerState::Paused
                } else {
                    PlayerState::Playing
                },
            ),
            ..u
        },
        PlayerKey::OpenBracket => PlaybackUpdate {
            set_playback_speed: Some(sat(info.playback_speed - SPEED_KEY_STEP)),
            ..u
        },
        PlayerKey::CloseBracket => PlaybackUpdate {
            set_playback_speed: Some(sat(info.playback_speed + SPEED_KEY_STEP)),
            ..u
        },
        PlayerKey::ArrowRight => PlaybackUpdate {
            set_seek: Some(sat(info.elapsed_ms + SEEK_STEP_MS)),
            ..u
        },
        PlayerKey::ArrowLeft => PlaybackUpdate {
            set_seek: Some(sat(info.elapsed_ms - SEEK_STEP_MS)),
            ..u
        },
        PlayerKey::ArrowUp => PlaybackUpdate { set_volume: Some(sat(info.volume + VOLUME_STEP)), ..u },
        PlayerKey::ArrowDown => PlaybackUpdate {
            set_volume: Some(sat(info.volume - VOLUME_STEP)),
            ..u
        },
        PlayerKey::F => PlaybackUpdate { set_fullscreen: Some(!info.fullscreen), ..u },
        PlayerKey::F1 => PlaybackUpdate { set_debug: Some(!info.debug), ..u },
        PlayerKey::Other => u,
    }
}

impl PlaybackUpdate {
    /// A bundle that requests nothing.
    pub fn none() -> (r: PlaybackUpdate)
        ensures
            !r.any_spec(),
    {
        PlaybackUpdate {
            set_state: None,
            set_volume: None,
            set_seek: None,
            set_muted: None,
            set_playback_speed: None,
            set_looping: None,
            set_fullscreen: None,
            set_debug: None,
        }
    }

    pub open spec fn any_spec(&self) -> bool {
        self.set_state is Some || self.set_volume is Some || self.set_seek is Some
            || self.set_muted is Some || self.set_playback_speed is Some || self.set_looping is Some
            || self.set_fullscreen is Some || self.set_debug is Some
    }

    /// True if any change is requested.
    pub fn any(&self) -> (r: bool)
        ensures
            r == self.any_spec(),
    {
        self.set_state.is_some() || self.set_volume.is_some() || self.set_seek.is_some()
            || self.set_muted.is_some() || self.set_playback_speed.is_some()
            || self.set_looping.is_some() || self.set_fullscreen.is_some()
            || self.set_debug.is_some()
    }

    /// Adds the request of the key binding of `key`.
    pub fn apply_key(&mut self, key: PlayerKey, info: &PlaybackInfo)
        ensures
            *final(self) == after_key(*old(self), key, *info),
    {
        match key {
            PlayerKey::Space => {
                self.set_state = Some(
                    if info.state == PlayerState::Playing {
                        PlayerState::Paused
                    } else {
                        PlayerState::Playing
                    },
                );
            },
            PlayerKey::OpenBracket => {
                self.set_playback_speed = Some(sat_add(info.playback_speed, -SPEED_KEY_STEP));
            },
            PlayerKey::CloseBracket => {
                self.set_playback_speed = Some(sat_add(info.playback_speed, SPEED_KEY_STEP));
            },
            PlayerKey::ArrowRight => {
                self.set_seek = Some(sat_add(info.elapsed_ms, SEEK_STEP_MS));
            },
            PlayerKey::ArrowLeft => {
                self.set_seek = Some(sat_add(info.elapsed_ms, -SEEK_STEP_MS));
            },
            PlayerKey::ArrowUp => {
                self.set_volume = Some(sat_add(info.volume, VOLUME_STEP));
            },
            PlayerKey::ArrowDown => {
                self.set_volume = Some(sat_add(info.volume, -VOLUME_STEP));
            },
            PlayerKey::F => {
                self.set_fullscreen = Some(!info.fullscreen);
            },
            PlayerKey::F1 => {
                self.set_debug = Some(!info.debug);
            },
            PlayerKey::Other => {},
        }
    }
}

impl Default for PlaybackUpdate {
    fn default() -> (r: PlaybackUpdate)
        ensures
            !r.any_spec(),
    {
        PlaybackUpdate::none()
    }
}

/// The playback state after the bundle `u` was applied: each of state,
/// volume, mute, speed and loop that the bundle sets takes its value,
/// volume and speed clamped as their setters clamp them. Seeking, full
/// screen and the debug display belong to the host.
pub open spec fn after_update(m: PlaybackModel, u: PlaybackUpdate) -> PlaybackModel {
    PlaybackModel {
        state: match u.set_state {
            Some(s) => s,
            None => m.state,
        },
        volume: match u.set_volume {
            Some(v) => volume_fixed(v as int) as u8,
            None => m.volume,
        },
        muted: match u.set_muted {
            Some(b) => b,
            None => m.muted,
        },
        speed: match u.set_playback_speed {
            Some(v) => speed_fixed(v as int) as u8,
            None => m.speed,
        },
        looping: match u.set_looping {
            Some(b) => b,
            None => m.looping,
        },
        ..m
    }
}

impl SharedPlaybackState {
    /// Applies each field of a bundle of requested changes that is set.
    pub fn apply_update(&mut self, u: &PlaybackUpdate)
        ensures
            final(self)@ == after_update(old(self)@, *u),
    {
        if let Some(s) = u.set_state {
            self.set_state(s);
        }
        if let Some(v) = u.set_volume {
            self.set_volume(v);
        }
        if let Some(b) = u.set_muted {
            self.set_muted(b);
        }
        if let Some(v) = u.set_playback_speed {
            self.set_speed(v);
        }
        if let Some(b) = u.set_looping {
            self.set_looping(b);
        }
    }

    /// What the control surface is shown: this state, with the media's
    /// duration, the position on screen, and the host's own flags.
    pub fn info(&self, elapsed_ms: i64, fullscreen: bool, debug: bool) -> (r: PlaybackInfo)
        ensures
            r.state == self@.state,
            r.duration_ms == self@.duration_ms,
            r.elapsed_ms == elapsed_ms,
            r.volume == crate::state::volume_milli(self@.volume as int),
            r.muted == self@.muted,
            r.playback_speed == crate::state::speed_milli(self@.speed as int),
            r.looping == self@.looping,
            r.fullscreen == fullscreen,
            r.debug == debug,
    {
        PlaybackInfo {
            state: self.state(),
            duration_ms: self.duration(),
            elapsed_ms,
            volume: self.volume(),
            muted: self.muted(),
            playback_speed: self.speed(),
            looping: self.looping(),
            fullscreen,
            debug,
        }
    }
}

/// Keeps time for the frame on screen against the host's monotonic clock
/// (in milliseconds): each frame is shown for its duration from the moment
/// it was taken, and the clock stands still while paused.
pub struct FrameClock {
    frame_pts: i64,
    frame_duration: i64,
    shown_at: u64,
    frames: u64,
}

impl FrameClock {
    pub closed spec fn pts_spec(&self) -> i64 {
        self.frame_pts
    }

    pub closed spec fn duration_spec(&self) -> i64 {
        self.frame_duration
    }

    pub closed spec fn shown_at_spec(&self) -> u64 {
        self.shown_at
    }

    pub closed spec fn frames_spec(&self) -> u64 {
        self.frames
    }

    /// A clock with no frame shown yet, started at `now_ms`.
    pub fn new(now_ms: u64) -> (r: FrameClock)
        ensures
            r.pts_spec() == 0 && r.duration_spec() == 0 && r.shown_at_spec() == now_ms
                && r.frames_spec() == 0,
    {
        FrameClock { frame_pts: 0, frame_duration: 0, shown_at: now_ms, frames: 0 }
    }

    /// Frames shown so far.
    pub fn frames(&self) -> (r: u64)
        ensures
            r == self.frames_spec(),
    {
        self.frames
    }

    /// Takes a new frame at `now_ms`; a negative duration counts as zero.
    pub fn load_frame(&mut self, pts_ms: i64, duration_ms: i64, now_ms: u64)
        ensures
            final(self).pts_spec() == pts_ms,
            final(self).duration_spec() == (if duration_ms < 0 { 0 } else { duration_ms }),
            final(self).shown_at_spec() == now_ms,
            final(self).frames_spec() == clamp(old(self).frames_spec() + 1, 0, u64::MAX as int),
    {
        self.frame_pts = pts_ms;
        self.frame_duration = if duration_ms < 0 {
            0
        } else {
            duration_ms
        };
        self.shown_at = now_ms;
        if self.frames < u64::MAX {
            self.frames = self.frames + 1;
        }
    }

    /// Host time at which the frame on screen has been shown for its
    /// duration, saturating at the end of the clock.
    pub fn next_frame_at(&self) -> (r: u64)
        ensures
            r == clamp(self.shown_at_spec() + self.duration_spec(), 0, u64::MAX as int),
    {
        let v = self.shown_at as i128 + self.frame_duration as i128;
        if v > u64::MAX as i128 {
            u64::MAX
        } else if v < 0 {
            0
        } else {
            v as u64
        }
    }

    /// Position of the playback at `now_ms`: the frame's time plus the
    /// time since it was taken.
    pub fn current_pts(&self, now_ms: u64) -> (r: i64)
        ensures
            r == sat(self.pts_spec() + (if now_ms >= self.shown_at_spec() {
                now_ms - self.shown_at_spec()
            } else {
                0
            })),
    {
        let since: u64 = if now_ms >= self.shown_at {
            now_ms - self.shown_at
        } else {
            0
        };
        let v = self.frame_pts as i128 + since as i128;
        let r: i64 = if v > i64::MAX as i128 {
            i64::MAX
        } else {
            v as i64
        };
        r
    }

    /// Whether the next frame is due at `now_ms`: never while paused (the
    /// frame's moment then moves along with `now_ms`), else once the frame
    /// has been shown for its duration.
    pub fn check_load_frame(&mut self, state: PlayerState, now_ms: u64) -> (r: bool)
        ensures
            state == PlayerState::Paused ==> !r && final(self).shown_at_spec() == now_ms
                && final(self).pts_spec() == old(self).pts_spec() && final(self).duration_spec()
                == old(self).duration_spec() && final(self).frames_spec() == old(self).frames_spec(),
            state != PlayerState::Paused ==> *final(self) == *old(self) && r == (now_ms
                >= old(self).shown_at_spec() + old(self).duration_spec()),
    {
        if state == PlayerState::Paused {
            self.shown_at = now_ms;
            return false;
        }
        now_ms as i128 >= self.shown_at as i128 + self.frame_duration as i128
    }
}

/// Size at which a `video_w` by `video_h` picture fills a `area_w` by
/// `area_h` area without distortion: the full width or the full height,
/// the other side scaled down and rounded down. A picture with a zero side
/// fills the area.
pub fn fit_frame(video_w: u32, video_h: u32, area_w: u32, area_h: u32) -> (r: (u32, u32))
    ensures
        video_w == 0 || video_h == 0 ==> r == (area_w, area_h),
        video_w > 0 && video_h > 0 ==> {
            let wide = video_w as int * area_h as int;
            let tall = area_w as int * video_h as int;
            &&& wide > tall ==> r == (area_w, (area_w as int * video_h as int / video_w as int) as u32)
            &&& wide < tall ==> r == ((area_h as int * video_w as int / video_h as int) as u32, area_h)
            &&& wide == tall ==> r == (area_w, area_h)
        },
        r.0 <= area_w && r.1 <= area_h,
{
    if video_w == 0 || video_h == 0 {
        return (area_w, area_h);
    }
    assert(video_w as int * area_h as int <= u64::MAX && area_w as int * video_h as int <= u64::MAX) by (nonlinear_arith)
        requires
            video_w <= u32::MAX,
            area_h <= u32::MAX,
            area_w <= u32::MAX,
            video_h <= u32::MAX,
    ;
    let wide = video_w as u64 * area_h as u64;
    let tall = area_w as u64 * video_h as u64;
    assert(wide == video_w as int * area_h as int && tall == area_w as int * video_h as int) by (nonlinear_arith)
        requires
            wide == video_w as u64 * area_h as u64,
            tall == area_w as u64 * video_h as u64,
            video_w <= u32::MAX,
            area_h <= u32::MAX,
            area_w <= u32::MAX,
            video_h <= u32::MAX,
    ;
    if wide > tall {
        let h = area_w as u64 * video_h as u64 / video_w as u64;
        assert(h <= area_h) by (nonlinear_arith)
            requires
                video_w > 0,
                h == (area_w as int * video_h as int) / video_w as int,
                video_w as int * area_h as int > area_w as int * video_h as int,
        ;
        (area_w, h as u32)
    } else if wide < tall {
        let w = area_h as u64 * video_w as u64 / video_h as u64;
        assert(w <= area_w) by (nonlinear_arith)
            requires
                video_h > 0,
                w == (area_h as int * video_w as int) / video_h as int,
                (video_w as int) * (area_h as int) < (area_w as int) * (video_h as int),
        ;
        (w as u32, area_h)
    } else {
        (area_w, area_h)
    }
}

} // verus!
