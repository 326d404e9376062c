//! Data management: the in-memory dataset, its integrity checks, and the
//! manager façade that exposes the system's operations.

pub mod manager;
pub mod persistence;
