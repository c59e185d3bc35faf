//! Control core of a model-diorama lighting controller.
//!
//! The library holds the shared configuration data model, the streetlamp
//! flicker logic, the underpass traffic/LED simulation, and the
//! change-detecting persistence logic, each with a verified contract.
//! Hardware pins, timers, the network layer and the byte store live outside
//! the library and hand it plain values.

pub mod color;
pub mod pins;
pub mod streetlamps;
pub mod underpass_lights;
pub mod state;
pub mod persistence;
