//! The metadata model: connections, categories, monitors and measurements,
//! and the rules that tie them together.
//!
//! A monitor belongs to one connection and may carry one category; a
//! measurement belongs to one monitor. Deleting a connection deletes its
//! monitors, deleting a monitor deletes its measurements, and deleting a
//! category clears the category of the monitors that carried it.

pub mod model;
pub mod proofs;
pub mod records;
pub mod store;
