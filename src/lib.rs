//! State tracking for firmware-capable devices: an entity registry, sparse
//! per-entity component maps, and the update lifecycle that discovery events,
//! user actions and worker reports drive.

pub mod entity;
pub mod component;
pub mod firmware;
pub mod changelog;
pub mod state;
