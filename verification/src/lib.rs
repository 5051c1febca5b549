//! Core of a small markdown viewer: path validation that resists
//! directory traversal and extension spoofing, and a two-stage
//! markdown-to-HTML pipeline (GitHub-flavored parse with raw-HTML
//! passthrough, then an allowlist sanitizer).
//!
//! Filesystem probes (existence, canonicalization, reading, writing)
//! are performed by the host; this library makes every decision that
//! depends on their outcomes.

pub mod commands;
pub mod markdown;
pub mod paths;
