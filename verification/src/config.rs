//! Application settings and their defaults.

use vstd::prelude::*;

verus! {

/// The size of the window, in pixels.
#[derive(Debug, Clone, Copy, PartialEq, Eq, Structural)]
pub struct WindowConfig {
    pub width: u32,
    pub height: u32,
}

/// The playback settings that are kept between sessions.
#[derive(Debug, Clone, Copy, PartialEq, Eq, Structural)]
pub struct PlaybackSettings {
    pub wpm: u32,
    pub inter_word_delay_ms: u32,
}

/// The settings as they are kept: one section for the window, one for
/// playback.
#[derive(Debug, Clone, Copy, PartialEq, Eq, Structural)]
pub struct Config {
    pub window: WindowConfig,
    pub playback: PlaybackSettings,
}

/// The settings as the host sees them: the same four values, side by side.
#[derive(Debug, Clone, Copy, PartialEq, Eq, Structural)]
pub struct AppConfig {
    pub window_width: u32,
    pub window_height: u32,
    pub wpm: u32,
    pub inter_word_delay_ms: u32,
}

/// The settings of a first start: a window of 1800 by 1100, 400 words per
/// minute, 10 ms between words.
pub open spec fn default_config() -> Config {
    Config {
        window: WindowConfig { width: 1800, height: 1100 },
        playback: PlaybackSettings { wpm: 400, inter_word_delay_ms: 10 },
    }
}

/// The four values of `config`, side by side.
pub open spec fn flattened(config: Config) -> AppConfig {
    AppConfig {
        window_width: config.window.width,
        window_height: config.window.height,
        wpm: config.playback.wpm,
        inter_word_delay_ms: config.playback.inter_word_delay_ms,
    }
}

/// The four values of `config`, in their sections.
pub open spec fn nested(config: AppConfig) -> Config {
    Config {
        window: WindowConfig { width: config.window_width, height: config.window_height },
        playback: PlaybackSettings {
            wpm: config.wpm,
            inter_word_delay_ms: config.inter_word_delay_ms,
        },
    }
}

/// The delay between words, in milliseconds, of settings that name none.
pub fn default_inter_word_delay() -> (ms: u32)
    ensures
        ms == 10,
{
    10
}

impl PlaybackSettings {
    /// Playback settings from what was kept: the delay between words is
    /// [`default_inter_word_delay`] when none was kept.
    pub fn new(wpm: u32, inter_word_delay_ms: Option<u32>) -> (s: Self)
        ensures
            s.wpm == wpm,
            s.inter_word_delay_ms == (match inter_word_delay_ms {
                Some(ms) => ms,
                None => 10,
            }),
    {
        let inter_word_delay_ms = match inter_word_delay_ms {
            Some(ms) => ms,
            None => default_inter_word_delay(),
        };
        Self { wpm, inter_word_delay_ms }
    }
}

impl Default for Config {
    fn default() -> (c: Self)
        ensures
            c == default_config(),
    {
        Self {
            window: WindowConfig { width: 1800, height: 1100 },
            playback: PlaybackSettings { wpm: 400, inter_word_delay_ms: 10 },
        }
    }
}

impl Config {
    /// The settings to run with: what was read and understood, or the
    /// defaults when nothing was.
    pub fn load(stored: Option<Config>) -> (c: Self)
        ensures
            c == (match stored {
                Some(config) => config,
                None => default_config(),
            }),
    {
        match stored {
            Some(config) => config,
            None => Config::default(),
        }
    }
}

/// The settings for the host: what was read and understood, or the defaults,
/// with the four values side by side.
pub fn load_config(stored: Option<Config>) -> (c: AppConfig)
    ensures
        c == flattened(
            match stored {
                Some(config) => config,
                None => default_config(),
            },
        ),
{
    let config = Config::load(stored);
    AppConfig {
        window_width: config.window.width,
        window_height: config.window.height,
        wpm: config.playback.wpm,
        inter_word_delay_ms: config.playback.inter_word_delay_ms,
    }
}

/// The settings to keep for what the host hands over.
pub fn save_config(config: AppConfig) -> (c: Config)
    ensures
        c == nested(config),
{
    Config {
        window: WindowConfig { width: config.window_width, height: config.window_height },
        playback: PlaybackSettings {
            wpm: config.wpm,
            inter_word_delay_ms: config.inter_word_delay_ms,
        },
    }
}

/// What is kept for the host comes back to it unchanged, and what was kept
/// is kept unchanged when the host hands it back.
pub proof fn lemma_config_round_trip(kept: Config, handed: AppConfig)
    ensures
        nested(flattened(kept)) == kept,
        flattened(nested(handed)) == handed,
{
}

} // verus!
