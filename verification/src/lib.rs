//! The authorization and versioning core of a shared catalog of tools that
//! are published under developer collectives.
//!
//! No central list says who may write. The owner of a collective issues
//! permissions, each to one principal, with or without an end; every peer
//! holds every proposed mutation against the same rules and admits or refuses
//! it on its own.
//!
//! * [`hash`]: typed identifiers and their wire form.
//! * [`record`]: records, the steps they hold, and the entries they carry.
//! * [`store`]: the content store, which only grows.
//! * [`outcome`]: what a rule answers.
//! * [`integrity`]: the rules, one set for each kind of entry and of edge,
//!   and the function that picks the rule for a mutation.
//! * [`coordinator`]: revision chains, the permission that a principal
//!   holds, and the plans of what goes with a write.
//! * [`laws`]: what holds of all of it together.

pub mod coordinator;
pub mod hash;
pub mod integrity;
pub mod laws;
pub mod outcome;
pub mod record;
pub mod store;
