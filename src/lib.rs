//! Generation of type-state code: from a set of state names, a struct and methods
//! annotated with the states they require and the states they switch to, build marker
//! types, a sealed capability interface, a struct with one generic parameter per state
//! slot, and one implementation block per method, then write them out as source text.
//!
//! A state-tuple element of exactly one character is a generic placeholder; any longer
//! name is a concrete state. State names must therefore be at least two characters long.

pub mod binder;
pub mod error;
pub mod ident;
pub mod pipeline;
pub mod registry;
pub mod render;
pub mod specializer;

pub use binder::{require, switch_to};
pub use error::GenError;
pub use pipeline::generate;
pub use registry::states;
pub use specializer::type_state;
