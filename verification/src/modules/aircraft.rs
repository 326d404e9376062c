//! Aircraft: registry data, seat configuration, performance figures, and
//! maintenance bookkeeping. Fractional quantities are fixed-point: fuel
//! efficiency in tenths of a litre per 100 km, and flight and maintenance
//! hours in tenths of an hour.

use vstd::prelude::*;
use vstd::string::*;
use crate::modules::flight::SeatClass;
use crate::sys;
use crate::text;

verus! {

/// Where an aircraft stands: `Active`/`InFlight` are driven by the status
/// simulator; `Maintenance` and `Retired` are never auto-exited.
#[derive(Debug, Clone, Copy, PartialEq, Eq, Structural)]
pub enum AircraftStatus {
    Active,
    Maintenance,
    Retired,
    InFlight,
}

/// Rows and seats per row for each cabin class.
#[derive(Debug, Clone, Copy, PartialEq, Eq, Structural)]
pub struct SeatConfiguration {
    pub economy_rows: u32,
    pub economy_seats_per_row: u32,
    pub business_rows: u32,
    pub business_seats_per_row: u32,
    pub first_class_rows: u32,
    pub first_class_seats_per_row: u32,
}

/// Performance figures. `fuel_efficiency_l_per_100km` is in tenths of a
/// litre.
#[derive(Debug, Clone, Copy, PartialEq, Eq, Structural)]
pub struct PerformanceSpecs {
    pub max_speed_kmh: u32,
    pub cruise_speed_kmh: u32,
    pub max_altitude_m: u32,
    pub range_km: u32,
    pub fuel_efficiency_l_per_100km: u32,
}

/// An aircraft in the registry. Hour counters are in tenths of an hour.
#[derive(Debug)]
pub struct Aircraft {
    pub id: u128,
    /// e.g. `N123AA`.
    pub registration: String,
    /// e.g. `Boeing 737-800`.
    pub model: String,
    /// e.g. `Boeing`.
    pub manufacturer: String,
    pub year_manufactured: u32,
    pub status: AircraftStatus,
    pub seat_configuration: SeatConfiguration,
    pub total_capacity: u32,
    pub baggage_capacity_kg: u32,
    pub max_cargo_weight_kg: u32,
    pub performance: PerformanceSpecs,
    pub maintenance_hours: u64,
    pub flight_hours: u64,
}

/// Total seats of a configuration.
pub open spec fn spec_config_capacity(c: SeatConfiguration) -> int {
    c.economy_rows * c.economy_seats_per_row + c.business_rows * c.business_seats_per_row
        + c.first_class_rows * c.first_class_seats_per_row
}

/// The seat configuration the registry assigns to a model name.
pub open spec fn spec_seat_config_for(model: Seq<char>) -> SeatConfiguration {
    if model == "Boeing 737-800"@ {
        SeatConfiguration {
            economy_rows: 28,
            economy_seats_per_row: 6,
            business_rows: 4,
            business_seats_per_row: 4,
            first_class_rows: 2,
            first_class_seats_per_row: 4,
        }
    } else if model == "Airbus A320"@ {
        SeatConfiguration {
            economy_rows: 25,
            economy_seats_per_row: 6,
            business_rows: 3,
            business_seats_per_row: 4,
            first_class_rows: 2,
            first_class_seats_per_row: 4,
        }
    } else if model == "Boeing 777-300"@ {
        SeatConfiguration {
            economy_rows: 42,
            economy_seats_per_row: 9,
            business_rows: 8,
            business_seats_per_row: 6,
            first_class_rows: 4,
            first_class_seats_per_row: 4,
        }
    } else if model == "Airbus A380"@ {
        SeatConfiguration {
            economy_rows: 50,
            economy_seats_per_row: 10,
            business_rows: 12,
            business_seats_per_row: 6,
            first_class_rows: 6,
            first_class_seats_per_row: 4,
        }
    } else {
        SeatConfiguration {
            economy_rows: 20,
            economy_seats_per_row: 6,
            business_rows: 3,
            business_seats_per_row: 4,
            first_class_rows: 2,
            first_class_seats_per_row: 4,
        }
    }
}

/// The performance figures the registry assigns to a model name.
pub open spec fn spec_performance_for(model: Seq<char>) -> PerformanceSpecs {
    if model == "Boeing 737-800"@ {
        PerformanceSpecs {
            max_speed_kmh: 876,
            cruise_speed_kmh: 828,
            max_altitude_m: 12500,
            range_km: 5665,
            fuel_efficiency_l_per_100km: 32,
        }
    } else if model == "Airbus A320"@ {
        PerformanceSpecs {
            max_speed_kmh: 871,
            cruise_speed_kmh: 828,
            max_altitude_m: 12000,
            range_km: 6150,
            fuel_efficiency_l_per_100km: 29,
        }
    } else if model == "Boeing 777-300"@ {
        PerformanceSpecs {
            max_speed_kmh: 905,
            cruise_speed_kmh: 892,
            max_altitude_m: 13100,
            range_km: 11135,
            fuel_efficiency_l_per_100km: 48,
        }
    } else if model == "Airbus A380"@ {
        PerformanceSpecs {
            max_speed_kmh: 945,
            cruise_speed_kmh: 903,
            max_altitude_m: 13100,
            range_km: 15200,
            fuel_efficiency_l_per_100km: 62,
        }
    } else {
        PerformanceSpecs {
            max_speed_kmh: 800,
            cruise_speed_kmh: 750,
            max_altitude_m: 11000,
            range_km: 4000,
            fuel_efficiency_l_per_100km: 35,
        }
    }
}

impl Aircraft {
    /// The per-class seat products and their sum stay within `u32`.
    pub open spec fn wf(self) -> bool {
        &&& self.seat_configuration.economy_rows * self.seat_configuration.economy_seats_per_row
            <= u32::MAX
        &&& self.seat_configuration.business_rows * self.seat_configuration.business_seats_per_row
            <= u32::MAX
        &&& self.seat_configuration.first_class_rows
            * self.seat_configuration.first_class_seats_per_row <= u32::MAX
        &&& spec_config_capacity(self.seat_configuration) <= u32::MAX
    }

    /// Registers an aircraft: the model name selects the seat
    /// configuration and performance figures, capacity follows from the
    /// configuration, status starts `Active`, hour counters at zero.
    pub fn new(registration: String, model: String, manufacturer: String, year_manufactured: u32)
        -> (a: Aircraft)
        ensures
            a.wf(),
            a.registration == registration,
            a.model == model,
            a.manufacturer == manufacturer,
            a.year_manufactured == year_manufactured,
            a.status == AircraftStatus::Active,
            a.seat_configuration == spec_seat_config_for(model@),
            a.total_capacity == spec_config_capacity(a.seat_configuration),
            a.baggage_capacity_kg == a.total_capacity * 25,
            a.max_cargo_weight_kg == a.total_capacity * 35,
            a.performance == spec_performance_for(model@),
            a.maintenance_hours == 0,
            a.flight_hours == 0,
    {
        let seat_config = if text::str_eq(model.as_str(), "Boeing 737-800") {
            SeatConfiguration {
                economy_rows: 28,
                economy_seats_per_row: 6,
                business_rows: 4,
                business_seats_per_row: 4,
                first_class_rows: 2,
                first_class_seats_per_row: 4,
            }
        } else if text::str_eq(model.as_str(), "Airbus A320") {
            SeatConfiguration {
                economy_rows: 25,
                economy_seats_per_row: 6,
                business_rows: 3,
                business_seats_per_row: 4,
                first_class_rows: 2,
                first_class_seats_per_row: 4,
            }
        } else if text::str_eq(model.as_str(), "Boeing 777-300") {
            SeatConfiguration {
                economy_rows: 42,
                economy_seats_per_row: 9,
                business_rows: 8,
                business_seats_per_row: 6,
                first_class_rows: 4,
                first_class_seats_per_row: 4,
            }
        } else if text::str_eq(model.as_str(), "Airbus A380") {
            SeatConfiguration {
                economy_rows: 50,
                economy_seats_per_row: 10,
                business_rows: 12,
                business_seats_per_row: 6,
                first_class_rows: 6,
                first_class_seats_per_row: 4,
            }
        } else {
            SeatConfiguration {
                economy_rows: 20,
                economy_seats_per_row: 6,
                business_rows: 3,
                business_seats_per_row: 4,
                first_class_rows: 2,
                first_class_seats_per_row: 4,
            }
        };

        let total_capacity = Self::calculate_total_capacity(&seat_config);

        let performance = if text::str_eq(model.as_str(), "Boeing 737-800") {
            PerformanceSpecs {
                max_speed_kmh: 876,
                cruise_speed_kmh: 828,
                max_altitude_m: 12500,
                range_km: 5665,
                fuel_efficiency_l_per_100km: 32,
            }
        } else if text::str_eq(model.as_str(), "Airbus A320") {
            PerformanceSpecs {
                max_speed_kmh: 871,
                cruise_speed_kmh: 828,
                max_altitude_m: 12000,
                range_km: 6150,
                fuel_efficiency_l_per_100km: 29,
            }
        } else if text::str_eq(model.as_str(), "Boeing 777-300") {
            PerformanceSpecs {
                max_speed_kmh: 905,
                cruise_speed_kmh: 892,
                max_altitude_m: 13100,
                range_km: 11135,
                fuel_efficiency_l_per_100km: 48,
            }
        } else if text::str_eq(model.as_str(), "Airbus A380") {
            PerformanceSpecs {
                max_speed_kmh: 945,
                cruise_speed_kmh: 903,
                max_altitude_m: 13100,
                range_km: 15200,
                fuel_efficiency_l_per_100km: 62,
            }
        } else {
            PerformanceSpecs {
                max_speed_kmh: 800,
                cruise_speed_kmh: 750,
                max_altitude_m: 11000,
                range_km: 4000,
                fuel_efficiency_l_per_100km: 35,
            }
        };

        Aircraft {
            id: sys::fresh_id(),
            registration,
            model,
            manufacturer,
            year_manufactured,
            status: AircraftStatus::Active,
            seat_configuration: seat_config,
            total_capacity,
            baggage_capacity_kg: total_capacity * 25,
            max_cargo_weight_kg: total_capacity * 35,
            performance,
            maintenance_hours: 0,
            flight_hours: 0,
        }
    }

    /// Total seats of a configuration.
    pub fn calculate_total_capacity(config: &SeatConfiguration) -> (n: u32)
        requires
            config.economy_rows * config.economy_seats_per_row <= u32::MAX,
            config.business_rows * config.business_seats_per_row <= u32::MAX,
            config.first_class_rows * config.first_class_seats_per_row <= u32::MAX,
            spec_config_capacity(*config) <= u32::MAX,
        ensures
            n == spec_config_capacity(*config),
    {
        (config.economy_rows * config.economy_seats_per_row) + (config.business_rows
            * config.business_seats_per_row) + (config.first_class_rows
            * config.first_class_seats_per_row)
    }

    /// Seats of one cabin class.
    pub fn get_seats_by_class(&self, class: &SeatClass) -> (n: u32)
        requires
            self.wf(),
        ensures
            n == match *class {
                SeatClass::Economy => self.seat_configuration.economy_rows
                    * self.seat_configuration.economy_seats_per_row,
                SeatClass::Business => self.seat_configuration.business_rows
                    * self.seat_configuration.business_seats_per_row,
                SeatClass::FirstClass => self.seat_configuration.first_class_rows
                    * self.seat_configuration.first_class_seats_per_row,
            },
    {
        match class {
            SeatClass::Economy => {
                self.seat_configuration.economy_rows * self.seat_configuration.economy_seats_per_row
            },
            SeatClass::Business => {
                self.seat_configuration.business_rows
                    * self.seat_configuration.business_seats_per_row
            },
            SeatClass::FirstClass => {
                self.seat_configuration.first_class_rows
                    * self.seat_configuration.first_class_seats_per_row
            },
        }
    }

    /// Whether the aircraft can be assigned a flight.
    pub fn is_available_for_flight(&self) -> (r: bool)
        ensures
            r == (self.status is Active),
    {
        match self.status {
            AircraftStatus::Active => true,
            _ => false,
        }
    }

    /// Sets the status.
    pub fn set_status(&mut self, status: AircraftStatus)
        ensures
            *final(self) == (Aircraft { status, ..*old(self) }),
    {
        self.status = status;
    }

    /// Adds flight hours (in tenths); once the hours flown since the last
    /// maintenance reach 100, the aircraft goes into maintenance.
    pub fn add_flight_hours(&mut self, hours: u64)
        requires
            old(self).flight_hours + hours <= u64::MAX,
        ensures
            final(self).flight_hours == old(self).flight_hours + hours,
            final(self).status == if final(self).flight_hours >= old(self).maintenance_hours
                + 1000 {
                AircraftStatus::Maintenance
            } else {
                old(self).status
            },
            *final(self) == (Aircraft {
                flight_hours: final(self).flight_hours,
                status: final(self).status,
                ..*old(self)
            }),
    {
        self.flight_hours = self.flight_hours + hours;
        if self.flight_hours >= self.maintenance_hours && self.flight_hours
            - self.maintenance_hours >= 1000 {
            self.status = AircraftStatus::Maintenance;
        }
    }

    /// Adds maintenance hours (in tenths); once they catch up with the
    /// flight hours the aircraft becomes active again.
    pub fn perform_maintenance(&mut self, hours: u64)
        requires
            old(self).maintenance_hours + hours <= u64::MAX,
        ensures
            final(self).maintenance_hours == old(self).maintenance_hours + hours,
            final(self).status == if final(self).maintenance_hours >= old(self).flight_hours {
                AircraftStatus::Active
            } else {
                old(self).status
            },
            *final(self) == (Aircraft {
                maintenance_hours: final(self).maintenance_hours,
                status: final(self).status,
                ..*old(self)
            }),
    {
        self.maintenance_hours = self.maintenance_hours + hours;
        if self.maintenance_hours >= self.flight_hours {
            self.status = AircraftStatus::Active;
        }
    }

    /// Age in years as of 2025.
    pub fn get_age(&self) -> (age: u32)
        requires
            self.year_manufactured <= 2025,
        ensures
            age == 2025 - self.year_manufactured,
    {
        2025 - self.year_manufactured
    }

    /// The human-readable status label.
    pub fn get_status_display(&self) -> (r: String)
        ensures
            r@ == spec_aircraft_status_display(self.status),
    {
        match self.status {
            AircraftStatus::Active => String::from_str("Active"),
            AircraftStatus::Maintenance => String::from_str("Maintenance"),
            AircraftStatus::Retired => String::from_str("Retired"),
            AircraftStatus::InFlight => String::from_str("In Flight"),
        }
    }

    /// Standard checked-baggage allowance by class, in kilograms.
    pub fn get_baggage_allowance(&self) -> (r: crate::modules::flight::BaggageAllowance)
        ensures
            r == (crate::modules::flight::BaggageAllowance {
                economy: 23u32,
                business: 32u32,
                first_class: 46u32,
            }),
    {
        crate::modules::flight::BaggageAllowance { economy: 23, business: 32, first_class: 46 }
    }

    /// One-line summary of the aircraft's specifications.
    pub fn get_detailed_specs(&self) -> (r: String)
        ensures
            r@ == spec_detailed_specs(*self),
    {
        let mut s = String::from_str("Model: ");
        s.append(self.model.as_str());
        s.append(" | Capacity: ");
        let cap = text::u64_to_dec(self.total_capacity as u64);
        s.append(cap.as_str());
        s.append(" seats | Range: ");
        let range = text::u64_to_dec(self.performance.range_km as u64);
        s.append(range.as_str());
        s.append(" km | Fuel Efficiency: ");
        let fe = text::tenths_to_dec(self.performance.fuel_efficiency_l_per_100km as u64);
        s.append(fe.as_str());
        s.append("L/100km");
        proof {
            assert(s@ =~= spec_detailed_specs(*self));
        }
        s
    }
}

/// The human-readable label of an aircraft status.
pub open spec fn spec_aircraft_status_display(status: AircraftStatus) -> Seq<char> {
    match status {
        AircraftStatus::Active => "Active"@,
        AircraftStatus::Maintenance => "Maintenance"@,
        AircraftStatus::Retired => "Retired"@,
        AircraftStatus::InFlight => "In Flight"@,
    }
}

/// The one-line specification summary of an aircraft.
pub open spec fn spec_detailed_specs(a: Aircraft) -> Seq<char> {
    "Model: "@ + a.model@ + " | Capacity: "@ + text::dec_digits(a.total_capacity as nat)
        + " seats | Range: "@ + text::dec_digits(a.performance.range_km as nat)
        + " km | Fuel Efficiency: "@ + text::tenths_chars(
        a.performance.fuel_efficiency_l_per_100km as nat,
    ) + "L/100km"@
}

impl Clone for Aircraft {
    /// A clone equals the original.
    fn clone(&self) -> (r: Self)
        ensures
            r == *self,
    {
        Aircraft {
            id: self.id,
            registration: self.registration.clone(),
            model: self.model.clone(),
            manufacturer: self.manufacturer.clone(),
            year_manufactured: self.year_manufactured,
            status: self.status,
            seat_configuration: self.seat_configuration,
            total_capacity: self.total_capacity,
            baggage_capacity_kg: self.baggage_capacity_kg,
            max_cargo_weight_kg: self.max_cargo_weight_kg,
            performance: self.performance,
            maintenance_hours: self.maintenance_hours,
            flight_hours: self.flight_hours,
        }
    }
}

} // verus!
