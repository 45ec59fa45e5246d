//! Field accessor traits with contracts, for structural typing over records
//! and enums, together with the bookkeeping for moving fields out of a value.

pub mod field;
pub mod field_cloner;
pub mod for_examples;
pub mod ownership;
pub mod path;
pub mod structural_ext;
pub mod structural_trait;
pub mod tstr;
pub mod utils;
pub mod wrapper;
