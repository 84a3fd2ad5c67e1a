//! Incremental Vietnamese input-method engine.
//!
//! Keystrokes typed in the Telex or VNI convention are collected into a
//! bounded syllable buffer; after every keystroke the whole buffer is rendered
//! again into Vietnamese text with its diacritics and tone mark in place.

pub mod bubble;
pub mod buffers;
pub mod engine;
pub mod extract;
pub mod modes;
pub mod passthrough;
pub mod placement;
pub mod render;
pub mod resolve;
pub mod session;
pub mod tone;
pub mod tone_laws;
pub mod validate;

pub use engine::UltraFastViEngine;
pub use modes::{mode_for, InputMethod, Mode};
