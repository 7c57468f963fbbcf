//! Speed-reading core: text is split into classified words, and a playback
//! engine walks them, giving each word the time it should stay on screen.
//!
//! - [`skim`] is the full-fidelity reader: whitespace tokens, each with a
//!   punctuation class and a word type, and durations that follow both.
//! - [`speed_reader`] is the plain reader: words at Unicode word boundaries
//!   with a single punctuation flag.
//! - [`playback`] holds what both engines share: the configuration, the
//!   token handed out for a word, cursor movement and the duration formula.
//! - [`chars`] names the character classes of the standard library that the
//!   tokenizers rest on.
//! - [`config`] and [`clipboard`] hold the decisions around the settings file
//!   and the clipboard; reading and writing them is left to the host.

pub mod chars;
pub mod clipboard;
pub mod config;
pub mod playback;
pub mod skim;
pub mod speed_reader;
