//! Observations: what a layer and a whole observation can be asked, the
//! quantities derived from the answers, and the records that hold them.
pub mod readings;
pub mod table;
pub mod layer_api;
pub mod dense;
pub mod entry_api;
pub mod projection;
pub mod sparse;
pub mod wire;
