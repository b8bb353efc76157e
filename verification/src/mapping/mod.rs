//! The classifiers: net roles, component values, footprint packages and
//! symbol templates.

pub mod footprints;
pub mod nets;
pub mod pattern;
pub mod symbols;
pub mod values;

pub use footprints::{
    extract_package, infer_component_type, infer_component_type_combined,
    infer_type_from_reference, is_smd_footprint, FootprintComponentType,
};
pub use nets::{infer_net_type, net_type_constructor, NetType};
pub use symbols::{get_pin_map, map_symbol, GenericInfo};
pub use values::{normalize_value, ComponentType};
