//! System configuration constants and default values.

pub mod baggage;
pub mod pricing;
pub mod seats;

use vstd::prelude::*;

verus! {

/// Default data directory for file storage.
pub const DATA_DIR: &'static str = "data";

/// Default backup directory.
pub const BACKUP_DIR: &'static str = "data/backups";

/// Simulation update interval in seconds.
pub const SIMULATION_UPDATE_INTERVAL: u64 = 60;

/// Maximum number of recent admin actions to display.
pub const MAX_ADMIN_LOG_ENTRIES: usize = 100;

} // verus!
