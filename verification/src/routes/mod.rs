//! The data the status and control endpoints serve.
//!
//! The HTTP layer itself is a collaborator; these modules assemble and
//! prove the snapshots and decisions it serves.

pub mod atmosphere;
pub mod index;
pub mod relay_control;
pub mod relay_status;
