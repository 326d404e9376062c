//! Airport operations core: flights, aircraft, bookings, airports, pricing
//! rules, and an administrative panel with audit logging, together with the
//! status simulator that advances flights and aircraft over time.
//!
//! Monetary amounts are fixed-point integers in mills (thousandths of a
//! dollar), so `$299.99` is `299_990`. Pricing multipliers are fixed-point
//! integers scaled by `1000`, so `1.3` is `1300`. Timestamps are seconds
//! since the Unix epoch.

pub mod config;
pub mod data;
pub mod errors;
pub mod modules;
pub mod sys;
pub mod text;
pub mod utils;

pub use modules::flight::{Flight, FlightStatus, SeatClass};
pub use modules::aircraft::{Aircraft, AircraftStatus};
pub use modules::booking::{Booking, Passenger, PassengerType, BookingStatus};
pub use modules::airport::Airport;
pub use modules::admin::{AdminPanel, AdminUser, AdminLevel, SystemMetrics};
pub use data::manager::DataManager;
pub use data::persistence::{DataPersistence, AirportDatabase};

use vstd::prelude::*;

verus! {

/// Version information for the airport system.
pub const VERSION: &'static str = "1.0.0";

/// System name.
pub const SYSTEM_NAME: &'static str = "Rust International Airport";

/// Default airport code for the main hub.
pub const DEFAULT_HUB_CODE: &'static str = "RIA";

/// Maximum number of passengers per flight.
pub const MAX_PASSENGERS_PER_FLIGHT: u32 = 853;

/// Maximum delay time in minutes before automatic cancellation.
pub const MAX_DELAY_MINUTES: i32 = 480;

/// Default currency for pricing.
pub const DEFAULT_CURRENCY: &'static str = "USD";

} // verus!
