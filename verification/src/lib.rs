//! Workload types: turning a component and one instance of it into the
//! cluster resources of its kind, and applying them idempotently.

pub mod assoc;
pub mod cluster;
pub mod component;
pub mod error;
pub mod guarantees;
pub mod kubernetes;
pub mod lower;
pub mod metadata;
pub mod params;
pub mod resource;
pub mod workload_type;
