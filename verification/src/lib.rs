//! Cross-platform input-method (IME) state accessor.
//!
//! The library models keyboard input configurations as a single packed
//! integer: the low bits carry the keyboard layout, the high bits carry the
//! input method sub-selector. On top of that encoding it provides the
//! bidirectional table between macOS input-source identifiers and packed
//! values, the decision logic of the platform adapters, and the
//! covering-token lookup of the tokenizer facade.

pub mod jieba;
pub mod macos;
pub mod typedef;
pub mod windows;
