//! Converts KiCad projects into Zener source text.
//!
//! A project is read from the document trees of its schematic and of its
//! board layout, classified by the rules under `mapping`, and written out
//! by the emitters under `emit`.

pub mod emit;
pub mod mapping;
pub mod parser;
pub mod project;
pub mod text;

pub use emit::emitter::emit_zen;
pub use emit::mode::OutputMode;
pub use parser::pcb::KicadPcb;
pub use parser::project::KicadPro;
pub use parser::schematic::KicadSchematic;
pub use project::KicadProject;
