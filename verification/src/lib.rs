//! A small cross-platform core for querying keyboard key state and
//! registering global keyboard shortcuts ("hotkeys") with the host
//! operating system.
//!
//! The native OS calls themselves (key-state queries, hotkey registration,
//! message polling) are opaque platform services that live outside this
//! library; the library holds the symbolic key/modifier vocabulary, the
//! character-to-key translation, the validation and bitmask assembly that
//! precede a registration call, the interpretation of native outcomes, and
//! the structured error model with its serialized form.

pub mod json;
pub mod keyboard;
pub mod peripherals;
pub mod shortcuts;
