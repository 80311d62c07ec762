//! Dimensioned quantities: a value tagged with its unit, one type per family
//! of units, so that quantities of different families cannot be mixed.
pub mod text;
pub mod proportional;
pub mod families;
pub mod temperature;
pub mod direction;
pub mod laws;
