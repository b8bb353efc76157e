//! The project: what the three documents of a design hold together.

use crate::emit::emitter::{emit_zen, zen_text};
use crate::emit::mode::OutputMode;
use crate::parser::pcb::{KicadPcb, KicadPcbView};
use crate::parser::project::KicadPro;
use crate::parser::schematic::{KicadSchematic, KicadSchematicView};
use crate::text::str_eq;
use vstd::prelude::*;

verus! {

/// A parsed project. Each of the three documents may be missing.
#[derive(Clone, Debug)]
pub struct KicadProject {
    /// Project name.
    pub name: String,
    /// The schematic, if the project has one.
    pub schematic: Option<KicadSchematic>,
    /// The board layout, if the project has one.
    pub pcb: Option<KicadPcb>,
    /// The settings, if the project has any.
    pub project: Option<KicadPro>,
}

/// What the emitters read of a project.
pub struct KicadProjectView {
    pub name: Seq<char>,
    pub schematic: Option<KicadSchematicView>,
    pub pcb: Option<KicadPcbView>,
}

impl View for KicadProject {
    type V = KicadProjectView;

    open spec fn view(&self) -> KicadProjectView {
        KicadProjectView {
            name: self.name@,
            schematic: match self.schematic {
                Some(s) => Some(s@),
                None => None,
            },
            pcb: match self.pcb {
                Some(p) => Some(p@),
                None => None,
            },
        }
    }
}

/// The three kinds of document that make a project.
#[derive(Clone, Copy, Debug, PartialEq, Eq, Structural)]
pub enum FileKind {
    Schematic,
    Pcb,
    Settings,
}

/// The kind of document that a file extension stands for.
pub open spec fn kind_of_extension(extension: Seq<char>) -> Option<FileKind> {
    if extension == "kicad_sch"@ {
        Some(FileKind::Schematic)
    } else if extension == "kicad_pcb"@ {
        Some(FileKind::Pcb)
    } else if extension == "kicad_pro"@ {
        Some(FileKind::Settings)
    } else {
        None
    }
}

/// The kind of document that a file extension stands for; none for a file
/// that is no part of a project.
pub fn file_kind(extension: &str) -> (kind: Option<FileKind>)
    ensures
        kind == kind_of_extension(extension@),
{
    if str_eq(extension, "kicad_sch") {
        Some(FileKind::Schematic)
    } else if str_eq(extension, "kicad_pcb") {
        Some(FileKind::Pcb)
    } else if str_eq(extension, "kicad_pro") {
        Some(FileKind::Settings)
    } else {
        None
    }
}

impl Default for KicadProject {
    /// The project without name and without documents.
    fn default() -> (project: KicadProject)
        ensures
            project@.name.len() == 0,
            project@.schematic is None,
            project@.pcb is None,
            project.project is None,
    {
        KicadProject { name: String::new(), schematic: None, pcb: None, project: None }
    }
}

impl KicadProject {
    /// The project of that name with no document yet.
    pub fn new(name: String) -> (project: KicadProject)
        ensures
            project@.name == name@,
            project@.schematic is None,
            project@.pcb is None,
            project.project is None,
    {
        KicadProject { name, schematic: None, pcb: None, project: None }
    }

    /// The Zener source text for the project.
    pub fn to_zen(&self, mode: OutputMode) -> (out: String)
        ensures
            out@ == zen_text(self@),
    {
        emit_zen(self, mode)
    }
}

} // verus!
