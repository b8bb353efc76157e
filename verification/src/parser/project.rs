//! Project settings: net classes and design rules.
//!
//! Lengths are in millimetres, each held as a `Number`. A field that the
//! settings document leaves out takes the default that the design tool
//! itself uses.

use crate::parser::sexpr::Number;
use vstd::prelude::*;

verus! {

/// Binary64 bit pattern of 0.2, the default track width, clearance and
/// differential pair width of a net class.
pub const DEFAULT_TRACK_WIDTH_BITS: u64 = 0x3FC9_9999_9999_999A;

/// Binary64 bit pattern of 0.6, the default via diameter of a net class.
pub const DEFAULT_VIA_DIAMETER_BITS: u64 = 0x3FE3_3333_3333_3333;

/// Binary64 bit pattern of 0.3, the default via drill of a net class.
pub const DEFAULT_VIA_DRILL_BITS: u64 = 0x3FD3_3333_3333_3333;

/// Binary64 bit pattern of 0.25, the default differential pair gap of a
/// net class and the default minimum hole clearance.
pub const DEFAULT_GAP_BITS: u64 = 0x3FD0_0000_0000_0000;

/// Binary64 bit pattern of 0.5, the default minimum via diameter and the
/// default minimum clearance between copper and board edge.
pub const DEFAULT_HALF_BITS: u64 = 0x3FE0_0000_0000_0000;

/// A net class.
#[derive(Clone, Debug)]
pub struct NetClass {
    /// Name, such as "Default" or "Power".
    pub name: String,
    pub track_width: Number,
    pub clearance: Number,
    pub via_diameter: Number,
    pub via_drill: Number,
    pub diff_pair_width: Number,
    pub diff_pair_gap: Number,
}

/// The lengths of a net class as the settings document gives them: none
/// for a field that it leaves out.
#[derive(Clone, Copy, Debug)]
pub struct NetClassFields {
    pub track_width: Option<Number>,
    pub clearance: Option<Number>,
    pub via_diameter: Option<Number>,
    pub via_drill: Option<Number>,
    pub diff_pair_width: Option<Number>,
    pub diff_pair_gap: Option<Number>,
}

/// The design rules of a board.
#[derive(Clone, Copy, Debug)]
pub struct DesignRules {
    pub min_clearance: Number,
    pub min_track_width: Number,
    pub min_via_diameter: Number,
    pub min_via_drill: Number,
    pub min_hole_clearance: Number,
    pub min_copper_edge_clearance: Number,
}

/// The design rules as the settings document gives them: none for a field
/// that it leaves out.
#[derive(Clone, Copy, Debug)]
pub struct DesignRuleFields {
    pub min_clearance: Option<Number>,
    pub min_track_width: Option<Number>,
    pub min_via_diameter: Option<Number>,
    pub min_via_drill: Option<Number>,
    pub min_hole_clearance: Option<Number>,
    pub min_copper_edge_clearance: Option<Number>,
}

/// Parsed project settings.
#[derive(Clone, Debug)]
pub struct KicadPro {
    /// Net classes, in document order.
    pub net_classes: Vec<NetClass>,
    /// Design rules.
    pub design_rules: DesignRules,
}

/// The value of a field, or the real number with those bits where the
/// field is left out.
pub open spec fn value_or(field: Option<Number>, bits: u64) -> Number {
    match field {
        Some(n) => n,
        None => Number::Real(bits),
    }
}

fn or_default(field: Option<Number>, bits: u64) -> (n: Number)
    ensures
        n == value_or(field, bits),
{
    match field {
        Some(n) => n,
        None => Number::Real(bits),
    }
}

impl NetClass {
    /// The net class with the name and the lengths that the document gives,
    /// and the defaults for what it leaves out: the name "Default", track
    /// width, clearance and differential pair width 0.2, via diameter 0.6,
    /// via drill 0.3, differential pair gap 0.25.
    pub fn from_fields(name: Option<String>, fields: NetClassFields) -> (class: NetClass)
        ensures
            class.name@ == match name {
                Some(given) => given@,
                None => "Default"@,
            },
            class.track_width == value_or(fields.track_width, DEFAULT_TRACK_WIDTH_BITS),
            class.clearance == value_or(fields.clearance, DEFAULT_TRACK_WIDTH_BITS),
            class.via_diameter == value_or(fields.via_diameter, DEFAULT_VIA_DIAMETER_BITS),
            class.via_drill == value_or(fields.via_drill, DEFAULT_VIA_DRILL_BITS),
            class.diff_pair_width == value_or(fields.diff_pair_width, DEFAULT_TRACK_WIDTH_BITS),
            class.diff_pair_gap == value_or(fields.diff_pair_gap, DEFAULT_GAP_BITS),
    {
        NetClass {
            name: match name {
                Some(given) => given,
                None => "Default".to_owned(),
            },
            track_width: or_default(fields.track_width, DEFAULT_TRACK_WIDTH_BITS),
            clearance: or_default(fields.clearance, DEFAULT_TRACK_WIDTH_BITS),
            via_diameter: or_default(fields.via_diameter, DEFAULT_VIA_DIAMETER_BITS),
            via_drill: or_default(fields.via_drill, DEFAULT_VIA_DRILL_BITS),
            diff_pair_width: or_default(fields.diff_pair_width, DEFAULT_TRACK_WIDTH_BITS),
            diff_pair_gap: or_default(fields.diff_pair_gap, DEFAULT_GAP_BITS),
        }
    }
}

impl Default for NetClass {
    /// The class "Default" with every length at its default.
    fn default() -> (class: NetClass)
        ensures
            class.name@ == "Default"@,
            class.track_width == Number::Real(DEFAULT_TRACK_WIDTH_BITS),
            class.clearance == Number::Real(DEFAULT_TRACK_WIDTH_BITS),
            class.via_diameter == Number::Real(DEFAULT_VIA_DIAMETER_BITS),
            class.via_drill == Number::Real(DEFAULT_VIA_DRILL_BITS),
            class.diff_pair_width == Number::Real(DEFAULT_TRACK_WIDTH_BITS),
            class.diff_pair_gap == Number::Real(DEFAULT_GAP_BITS),
    {
        NetClass {
            name: "Default".to_owned(),
            track_width: Number::Real(DEFAULT_TRACK_WIDTH_BITS),
            clearance: Number::Real(DEFAULT_TRACK_WIDTH_BITS),
            via_diameter: Number::Real(DEFAULT_VIA_DIAMETER_BITS),
            via_drill: Number::Real(DEFAULT_VIA_DRILL_BITS),
            diff_pair_width: Number::Real(DEFAULT_TRACK_WIDTH_BITS),
            diff_pair_gap: Number::Real(DEFAULT_GAP_BITS),
        }
    }
}

/// The rules of a document that gives none: every minimum zero.
pub open spec fn no_rules() -> DesignRules {
    DesignRules {
        min_clearance: Number::zero(),
        min_track_width: Number::zero(),
        min_via_diameter: Number::zero(),
        min_via_drill: Number::zero(),
        min_hole_clearance: Number::zero(),
        min_copper_edge_clearance: Number::zero(),
    }
}

/// The rules that a document gives: each field as written, and for a field
/// left out zero, but 0.5 for the via diameter and the copper edge
/// clearance and 0.25 for the hole clearance.
pub open spec fn rules_from(fields: DesignRuleFields) -> DesignRules {
    DesignRules {
        min_clearance: value_or(fields.min_clearance, 0),
        min_track_width: value_or(fields.min_track_width, 0),
        min_via_diameter: value_or(fields.min_via_diameter, DEFAULT_HALF_BITS),
        min_via_drill: value_or(fields.min_via_drill, 0),
        min_hole_clearance: value_or(fields.min_hole_clearance, DEFAULT_GAP_BITS),
        min_copper_edge_clearance: value_or(fields.min_copper_edge_clearance, DEFAULT_HALF_BITS),
    }
}

impl Default for DesignRules {
    /// The rules of a document that gives none.
    fn default() -> (rules: DesignRules)
        ensures
            rules == no_rules(),
    {
        DesignRules {
            min_clearance: Number::Int(0),
            min_track_width: Number::Int(0),
            min_via_diameter: Number::Int(0),
            min_via_drill: Number::Int(0),
            min_hole_clearance: Number::Int(0),
            min_copper_edge_clearance: Number::Int(0),
        }
    }
}

impl DesignRules {
    /// The rules that a document gives, with the defaults for the fields
    /// that it leaves out.
    pub fn from_fields(fields: DesignRuleFields) -> (rules: DesignRules)
        ensures
            rules == rules_from(fields),
    {
        DesignRules {
            min_clearance: or_default(fields.min_clearance, 0),
            min_track_width: or_default(fields.min_track_width, 0),
            min_via_diameter: or_default(fields.min_via_diameter, DEFAULT_HALF_BITS),
            min_via_drill: or_default(fields.min_via_drill, 0),
            min_hole_clearance: or_default(fields.min_hole_clearance, DEFAULT_GAP_BITS),
            min_copper_edge_clearance: or_default(
                fields.min_copper_edge_clearance,
                DEFAULT_HALF_BITS,
            ),
        }
    }
}

impl Default for KicadPro {
    /// The settings of an empty document: no net class and no rule.
    fn default() -> (pro: KicadPro)
        ensures
            pro.net_classes@.len() == 0,
            pro.design_rules == no_rules(),
    {
        KicadPro { net_classes: Vec::new(), design_rules: DesignRules::default() }
    }
}

impl KicadPro {
    /// The settings of a document from its net classes and from its rules,
    /// if it has any.
    pub fn from_parts(net_classes: Vec<NetClass>, rules: Option<DesignRuleFields>) -> (pro:
        KicadPro)
        ensures
            pro.net_classes == net_classes,
            pro.design_rules == match rules {
                Some(fields) => rules_from(fields),
                None => no_rules(),
            },
    {
        let design_rules = match rules {
            Some(fields) => DesignRules::from_fields(fields),
            None => DesignRules::default(),
        };
        KicadPro { net_classes, design_rules }
    }
}

} // verus!
