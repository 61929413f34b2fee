//! Ad-hoc SQL execution gateway: statement validation, schema discovery and
//! the typed-value coercion chain that turns an arbitrary result set into
//! JSON-safe values.
use vstd::prelude::*;

pub mod text;
pub mod tags;
pub mod coerce;
pub mod gateway;
pub mod laws;
pub mod models;

verus! {

} // verus!
