//! Data models of the MapKy decentralized map layer, with their sanitization
//! and validation rules.
use vstd::prelude::*;

pub mod builder;
pub mod checks;
pub mod common;
pub mod constants;
pub mod float;
pub mod ids;
pub mod message;
pub mod models;
pub mod properties;
pub mod text;
pub mod url;
pub mod utils;
pub mod validation;

verus! {

} // verus!
