//! A minimal severity-filtered console logger: timestamped, severity-tagged,
//! colorized lines on standard output or standard error, gated by a
//! runtime-adjustable minimum-severity threshold.
//!
//! The declared total order of severities, from most to least severe, is
//! `Error` > `Warn` > `Debug` > `Info`. A message is emitted exactly when its
//! severity is at least as severe as the current threshold, so the default
//! threshold `Info` lets every message through, and threshold `Error` keeps
//! everything but errors silent.

mod level;
mod logger;
mod term;

pub use level::LogLevel;
pub use logger::{
    compose, lemma_permits_iff_at_least, lemma_set_threshold_idempotent,
    lemma_set_threshold_visible, lemma_stream_routing, spec_line_shape, spec_stream_for,
    stream_for, Emission, LogStream, Logger,
};
pub use term::{contains_reset, dark_codes, is_digit_char, reset_seq, spec_painted, spec_stamp_shape, style_seq};
