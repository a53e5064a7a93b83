//! Resilient subscriber core for a window-manager tray indicator.
//!
//! The library derives a small discrete display state (which icon to show)
//! from newline-delimited JSON notifications received over a local socket,
//! and models the connection-resilience decisions around that stream:
//! framing, interpretation with strict fallback-to-paused semantics, and
//! the reconnect state machine that signals exactly one pause per gap.

pub mod display;
pub mod frame;
pub mod interpret;
pub mod pipeline;
pub mod subscription;
