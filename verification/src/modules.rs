//! Core data structures and business logic for the airport system.

pub mod admin;
pub mod aircraft;
pub mod airport;
pub mod booking;
pub mod flight;
