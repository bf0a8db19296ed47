//! Detection of terminal color capability, and a process-wide override store.
//!
//! The detector decides, from a snapshot of the process environment, the host
//! operating system and whether the target stream is an interactive terminal,
//! which level of color output the stream supports: none, 256-color ANSI, or
//! 24-bit truecolor. The override store holds an explicitly forced capability
//! value that callers consult before falling back to detection.

pub mod color_support_override;
pub mod detect_color_support;
pub mod str_match;

pub use color_support_override::{color_support_get, color_support_override_set, OverrideStore};
pub use detect_color_support::{
    as_str,
    check_256_color,
    check_ansi_color,
    detect,
    env_no_color,
    supports_color,
    ColorSupport,
    EnvSnapshot,
    HostOs,
    Stream,
};
