//! A migration engine core: it reconciles the migrations found in a directory
//! with the history recorded in the database, refuses to run on top of a failed
//! migration, and drives the application of what is left as a state machine
//! whose every step is verified.

pub mod engine;
pub mod failures;
pub mod guarantees;
pub mod metrics;
pub mod model;
pub mod protocol;
pub mod provider;
pub mod reconcile;
pub mod record;
pub mod text;
pub mod timestamp;
