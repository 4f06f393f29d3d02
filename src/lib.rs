//! A store of values addressed by generational handles, with a lookup of
//! handles by the name each value was inserted under.
//!
//! A handle is a slot position together with the generation that slot had when
//! the handle was issued. Popping a slot or replacing its value changes what a
//! handle must carry to be accepted, so a stale handle is told apart from a live
//! one by comparing one counter.

mod handle;
pub mod laws;
mod names;
mod store;

pub use handle::{Generation, Handle};
pub use names::NameMap;
pub use store::{bumped, names_without_slot, next_generation, HandleMap};
