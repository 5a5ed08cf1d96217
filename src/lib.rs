//! Typed results and device queries over a GPU compute runtime's status-code interface.
//!
//! `result` classifies raw status codes and turns a call's output slot and status code
//! into a typed `Result`; `runtime` completes each device query from what its call left;
//! `types` holds the values those queries produce.
pub mod result;
pub mod runtime;
pub mod types;

pub use result::{HipError, HipErrorKind, HipResult, HipSuccess, Result};
pub use types::{Device, DeviceP2PAttribute, DeviceUuid, PCIBusId, Version};
