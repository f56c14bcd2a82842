//! Encode configuration and the adaptive quality controller.
//!
//! The controller maps network telemetry to one of five video tiers and
//! rewrites the video encode parameters to match the tier. It only ever
//! lowers or raises quality: nothing here can end a call.
//!
//! Packet loss is carried as an integer in hundredths of a percent, so
//! `100` is 1% and `50` is 0.5%.

use vstd::prelude::*;
use vstd::string::StringExecFns;

verus! {

/// Video encode parameters.
#[derive(Debug)]
pub struct VideoConfig {
    /// Frame width in pixels.
    pub width: u32,
    /// Frame height in pixels.
    pub height: u32,
    /// Frames per second.
    pub fps: u32,
    /// Target bitrate in kbps.
    pub bitrate: u32,
    /// Codec identifier (`h264`, `h265`, `vp8`, `vp9`, `av1`).
    pub codec: String,
}

/// Mathematical model of a [`VideoConfig`].
pub ghost struct VideoParams {
    pub width: u32,
    pub height: u32,
    pub fps: u32,
    pub bitrate: u32,
    pub codec: Seq<char>,
}

impl View for VideoConfig {
    type V = VideoParams;

    open spec fn view(&self) -> VideoParams {
        VideoParams {
            width: self.width,
            height: self.height,
            fps: self.fps,
            bitrate: self.bitrate,
            codec: self.codec@,
        }
    }
}

/// The video parameters used when none are given: 720p at 30 fps,
/// 2500 kbps, H.264.
pub open spec fn default_video() -> VideoParams {
    VideoParams { width: 1280, height: 720, fps: 30, bitrate: 2500, codec: "h264"@ }
}

impl Default for VideoConfig {
    fn default() -> (config: Self)
        ensures
            config@ == default_video(),
    {
        VideoConfig {
            width: 1280,
            height: 720,
            fps: 30,
            bitrate: 2500,
            codec: String::from_str("h264"),
        }
    }
}

impl Clone for VideoConfig {
    fn clone(&self) -> (copy: Self)
        ensures
            copy == *self,
    {
        VideoConfig {
            width: self.width,
            height: self.height,
            fps: self.fps,
            bitrate: self.bitrate,
            codec: self.codec.clone(),
        }
    }
}

/// Audio encode parameters.
#[derive(Debug)]
pub struct AudioConfig {
    /// Sample rate in Hz.
    pub sample_rate: u32,
    /// Channel count: 1 is mono, 2 is stereo.
    pub channels: u8,
    /// Target bitrate in kbps.
    pub bitrate: u32,
    /// Codec identifier (`opus`, `aac`).
    pub codec: String,
}

/// Mathematical model of an [`AudioConfig`].
pub ghost struct AudioParams {
    pub sample_rate: u32,
    pub channels: u8,
    pub bitrate: u32,
    pub codec: Seq<char>,
}

impl View for AudioConfig {
    type V = AudioParams;

    open spec fn view(&self) -> AudioParams {
        AudioParams {
            sample_rate: self.sample_rate,
            channels: self.channels,
            bitrate: self.bitrate,
            codec: self.codec@,
        }
    }
}

/// The audio parameters used when none are given: 48 kHz mono, 64 kbps,
/// Opus.
pub open spec fn default_audio() -> AudioParams {
    AudioParams { sample_rate: 48000, channels: 1, bitrate: 64, codec: "opus"@ }
}

impl Default for AudioConfig {
    fn default() -> (config: Self)
        ensures
            config@ == default_audio(),
    {
        AudioConfig { sample_rate: 48000, channels: 1, bitrate: 64, codec: String::from_str("opus") }
    }
}

impl Clone for AudioConfig {
    fn clone(&self) -> (copy: Self)
        ensures
            copy == *self,
    {
        AudioConfig {
            sample_rate: self.sample_rate,
            channels: self.channels,
            bitrate: self.bitrate,
            codec: self.codec.clone(),
        }
    }
}

/// Counters and measurements that the media pipeline reports.
#[derive(Debug, Clone, Copy, PartialEq, Eq)]
pub struct MediaStats {
    /// Bytes sent.
    pub bytes_sent: u64,
    /// Bytes received.
    pub bytes_received: u64,
    /// Packets sent.
    pub packets_sent: u64,
    /// Packets received.
    pub packets_received: u64,
    /// Packets lost.
    pub packets_lost: u64,
    /// Jitter in microseconds.
    pub jitter_us: u32,
    /// Round-trip time in milliseconds.
    pub rtt_ms: u32,
}

/// The video tiers, best first.
#[derive(Debug, Clone, Copy, PartialEq, Eq, Structural)]
pub enum VideoQualityLevel {
    /// 1080p.
    High,
    /// 720p.
    Medium,
    /// 480p.
    Low,
    /// 360p.
    VeryLow,
    /// No video.
    AudioOnly,
}

/// The tier for a bandwidth in kbps and a packet loss in hundredths of a
/// percent: the first row of the table that both measurements meet.
///
/// | bandwidth at least | loss below | tier |
/// |---|---|---|
/// | 2500 | 1% | `High` |
/// | 1500 | 3% | `Medium` |
/// | 800 | 5% | `Low` |
/// | 300 | any | `VeryLow` |
/// | any | any | `AudioOnly` |
pub open spec fn tier_for(bandwidth_kbps: u32, packet_loss: u32) -> VideoQualityLevel {
    if bandwidth_kbps >= 2500 && packet_loss < 100 {
        VideoQualityLevel::High
    } else if bandwidth_kbps >= 1500 && packet_loss < 300 {
        VideoQualityLevel::Medium
    } else if bandwidth_kbps >= 800 && packet_loss < 500 {
        VideoQualityLevel::Low
    } else if bandwidth_kbps >= 300 {
        VideoQualityLevel::VeryLow
    } else {
        VideoQualityLevel::AudioOnly
    }
}

/// The video parameters after a switch to `level`. Each video tier fixes
/// resolution, frame rate and bitrate; `AudioOnly` sets the bitrate to zero
/// and keeps resolution and frame rate. The codec never changes.
pub open spec fn encoded_at(level: VideoQualityLevel, video: VideoParams) -> VideoParams {
    match level {
        VideoQualityLevel::High => VideoParams {
            width: 1920,
            height: 1080,
            fps: 30,
            bitrate: 3000,
            ..video
        },
        VideoQualityLevel::Medium => VideoParams {
            width: 1280,
            height: 720,
            fps: 30,
            bitrate: 2000,
            ..video
        },
        VideoQualityLevel::Low => VideoParams {
            width: 854,
            height: 480,
            fps: 24,
            bitrate: 1000,
            ..video
        },
        VideoQualityLevel::VeryLow => VideoParams {
            width: 640,
            height: 360,
            fps: 15,
            bitrate: 500,
            ..video
        },
        VideoQualityLevel::AudioOnly => VideoParams { bitrate: 0, ..video },
    }
}

/// Holds the encode configuration and the current video tier.
pub struct MediaEngine {
    video_config: VideoConfig,
    audio_config: AudioConfig,
    current_quality: VideoQualityLevel,
}

/// Mathematical model of a [`MediaEngine`].
pub ghost struct EngineState {
    pub video: VideoParams,
    pub audio: AudioParams,
    pub quality: VideoQualityLevel,
}

impl EngineState {
    /// The state after a switch to `level`: the video parameters of the
    /// tier, the tier itself, and the audio parameters as they were.
    pub open spec fn switched_to(self, level: VideoQualityLevel) -> EngineState {
        EngineState { video: encoded_at(level, self.video), audio: self.audio, quality: level }
    }

    /// The state after adapting to the given telemetry.
    pub open spec fn adapted(self, bandwidth_kbps: u32, packet_loss: u32) -> EngineState {
        self.switched_to(tier_for(bandwidth_kbps, packet_loss))
    }
}

impl View for MediaEngine {
    type V = EngineState;

    closed spec fn view(&self) -> EngineState {
        EngineState {
            video: self.video_config@,
            audio: self.audio_config@,
            quality: self.current_quality,
        }
    }
}

impl MediaEngine {
    /// An engine with the given configurations, or the defaults where none
    /// is given. It starts at tier `High`; the configurations are taken as
    /// they are.
    pub fn new(video_config: Option<VideoConfig>, audio_config: Option<AudioConfig>) -> (engine:
        Self)
        ensures
            engine@ == (EngineState {
                video: match video_config {
                    Some(config) => config@,
                    None => default_video(),
                },
                audio: match audio_config {
                    Some(config) => config@,
                    None => default_audio(),
                },
                quality: VideoQualityLevel::High,
            }),
    {
        let video_config = match video_config {
            Some(config) => config,
            None => VideoConfig::default(),
        };
        let audio_config = match audio_config {
            Some(config) => config,
            None => AudioConfig::default(),
        };
        MediaEngine { video_config, audio_config, current_quality: VideoQualityLevel::High }
    }

    /// The current video parameters.
    pub fn get_video_config(&self) -> (config: VideoConfig)
        ensures
            config@ == self@.video,
    {
        self.video_config.clone()
    }

    /// The current audio parameters.
    pub fn get_audio_config(&self) -> (config: AudioConfig)
        ensures
            config@ == self@.audio,
    {
        self.audio_config.clone()
    }

    /// The current video tier.
    pub fn get_quality_level(&self) -> (level: VideoQualityLevel)
        ensures
            level == self@.quality,
    {
        self.current_quality
    }

    /// Chooses the tier for the measured bandwidth (kbps) and packet loss
    /// (hundredths of a percent), switches to it and returns it. Poor
    /// telemetry lowers the tier, down to audio only; it does nothing else.
    pub fn adapt_quality(&mut self, bandwidth_kbps: u32, packet_loss: u32) -> (level:
        VideoQualityLevel)
        ensures
            level == tier_for(bandwidth_kbps, packet_loss),
            final(self)@ == old(self)@.adapted(bandwidth_kbps, packet_loss),
    {
        let level = if bandwidth_kbps >= 2500 && packet_loss < 100 {
            VideoQualityLevel::High
        } else if bandwidth_kbps >= 1500 && packet_loss < 300 {
            VideoQualityLevel::Medium
        } else if bandwidth_kbps >= 800 && packet_loss < 500 {
            VideoQualityLevel::Low
        } else if bandwidth_kbps >= 300 {
            VideoQualityLevel::VeryLow
        } else {
            VideoQualityLevel::AudioOnly
        };
        self.set_quality(level);
        level
    }

    /// Switches to `level` whatever the network looks like.
    pub fn set_quality(&mut self, level: VideoQualityLevel)
        ensures
            final(self)@ == old(self)@.switched_to(level),
    {
        self.current_quality = level;
        match level {
            VideoQualityLevel::High => {
                self.video_config.width = 1920;
                self.video_config.height = 1080;
                self.video_config.fps = 30;
                self.video_config.bitrate = 3000;
            },
            VideoQualityLevel::Medium => {
                self.video_config.width = 1280;
                self.video_config.height = 720;
                self.video_config.fps = 30;
                self.video_config.bitrate = 2000;
            },
            VideoQualityLevel::Low => {
                self.video_config.width = 854;
                self.video_config.height = 480;
                self.video_config.fps = 24;
                self.video_config.bitrate = 1000;
            },
            VideoQualityLevel::VeryLow => {
                self.video_config.width = 640;
                self.video_config.height = 360;
                self.video_config.fps = 15;
                self.video_config.bitrate = 500;
            },
            VideoQualityLevel::AudioOnly => {
                self.video_config.bitrate = 0;
            },
        }
    }
}

/// The table of tiers, row by row. Telemetry that meets a row, and no row
/// above it, yields that row's tier and exactly its resolution, frame rate
/// and bitrate. Below 300 kbps the tier is `AudioOnly` whatever the loss:
/// the bitrate becomes zero and resolution and frame rate stay as they
/// were.
pub proof fn quality_follows_table(state: EngineState, bandwidth_kbps: u32, packet_loss: u32)
    ensures
        ({
            let after = state.adapted(bandwidth_kbps, packet_loss);
            let v = after.video;
            &&& after.audio == state.audio
            &&& v.codec == state.video.codec
            &&& bandwidth_kbps >= 2500 && packet_loss < 100 ==> after.quality
                == VideoQualityLevel::High && v.width == 1920 && v.height == 1080 && v.fps == 30
                && v.bitrate == 3000
            &&& !(bandwidth_kbps >= 2500 && packet_loss < 100) && bandwidth_kbps >= 1500
                && packet_loss < 300 ==> after.quality == VideoQualityLevel::Medium && v.width
                == 1280 && v.height == 720 && v.fps == 30 && v.bitrate == 2000
            &&& !(bandwidth_kbps >= 1500 && packet_loss < 300) && bandwidth_kbps >= 800
                && packet_loss < 500 ==> after.quality == VideoQualityLevel::Low && v.width == 854
                && v.height == 480 && v.fps == 24 && v.bitrate == 1000
            &&& !(bandwidth_kbps >= 800 && packet_loss < 500) && bandwidth_kbps >= 300
                ==> after.quality == VideoQualityLevel::VeryLow && v.width == 640 && v.height
                == 360 && v.fps == 15 && v.bitrate == 500
            &&& bandwidth_kbps < 300 ==> after.quality == VideoQualityLevel::AudioOnly && v.bitrate
                == 0 && v.width == state.video.width && v.height == state.video.height && v.fps
                == state.video.fps
        }),
{
}

/// Adapting is a function of the prior state and the telemetry alone: two
/// engines in the same state that adapt to the same telemetry end in the
/// same state, and adapting once more to that telemetry changes nothing.
pub proof fn adapting_is_deterministic(
    first: EngineState,
    second: EngineState,
    bandwidth_kbps: u32,
    packet_loss: u32,
)
    requires
        first == second,
    ensures
        first.adapted(bandwidth_kbps, packet_loss) == second.adapted(bandwidth_kbps, packet_loss),
        first.adapted(bandwidth_kbps, packet_loss).adapted(bandwidth_kbps, packet_loss)
            == first.adapted(bandwidth_kbps, packet_loss),
{
}

} // verus!
