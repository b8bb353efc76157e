//! Zener source text from a parsed project.

pub mod blocks;
pub mod collect;
pub mod common;
pub mod emitter;
pub mod faithful;
pub mod idiomatic;
pub mod mode;

pub use emitter::emit_zen;
pub use faithful::emit_faithful;
pub use idiomatic::emit_idiomatic;
pub use mode::OutputMode;
