//! Readers for the KiCad document trees.

pub mod pairs;
pub mod pcb;
pub mod project;
pub mod schematic;
pub mod sexpr;

pub use pcb::{Footprint, KicadPcb, Layer, Pad};
pub use project::{DesignRules, KicadPro, NetClass};
pub use schematic::{KicadSchematic, LibPin, LibSymbol, SchematicSymbol};
pub use sexpr::{FormatError, Number, Sexpr};
