//! Flights: status, seat classes, seat inventory, fixed-point pricing, and
//! the per-flight operations (booking a seat, setting a delay).

use vstd::prelude::*;
use vstd::string::*;
use crate::errors::AirportError;
use crate::sys;
use crate::sys::MAX_TIMESTAMP;
use crate::text;

verus! {

/// The scale of fixed-point price multipliers: `1000` stands for `1.0`.
pub const MULTIPLIER_SCALE: u64 = 1000;

/// Where a flight stands in its lifecycle. `Delayed` carries the delay in
/// minutes.
#[derive(Debug, Clone, Copy, PartialEq, Eq, Structural)]
pub enum FlightStatus {
    OnTime,
    Delayed(i32),
    Boarding,
    Departed,
    Arrived,
    Cancelled,
}

/// The three cabin classes.
#[derive(Debug, Clone, Copy, PartialEq, Eq, Structural)]
pub enum SeatClass {
    Economy,
    Business,
    FirstClass,
}

/// Remaining seats per cabin class.
#[derive(Debug, Clone, Copy, PartialEq, Eq, Structural)]
pub struct SeatAvailability {
    pub economy: u32,
    pub business: u32,
    pub first_class: u32,
}

/// Base prices per cabin class in mills, and the per-flight dynamic
/// multiplier (scaled by [`MULTIPLIER_SCALE`]).
#[derive(Debug, Clone, Copy, PartialEq, Eq, Structural)]
pub struct FlightPricing {
    pub economy: u64,
    pub business: u64,
    pub first_class: u64,
    pub dynamic_multiplier: u64,
}

/// Checked baggage allowance per cabin class, in kilograms.
#[derive(Debug, Clone, Copy, PartialEq, Eq, Structural)]
pub struct BaggageAllowance {
    pub economy: u32,
    pub business: u32,
    pub first_class: u32,
}

/// A scheduled flight.
#[derive(Debug)]
pub struct Flight {
    pub id: u128,
    pub flight_number: String,
    pub airline: String,
    /// Origin airport code, e.g. `LAX`.
    pub origin: String,
    /// Destination airport code, e.g. `JFK`.
    pub destination: String,
    /// Scheduled departure, seconds since the Unix epoch.
    pub departure_time: i64,
    /// Scheduled arrival, seconds since the Unix epoch.
    pub arrival_time: i64,
    pub status: FlightStatus,
    pub aircraft_id: u128,
    pub gate: Option<String>,
    pub seat_availability: SeatAvailability,
    pub pricing: FlightPricing,
    pub total_capacity: u32,
    pub baggage_allowance: BaggageAllowance,
}

/// Applies a fixed-point multiplier to an amount: the product divided by
/// [`MULTIPLIER_SCALE`], rounded down, saturating at `u64::MAX`.
pub open spec fn spec_apply_multiplier(amount: u64, mult: u64) -> u64 {
    let v = (amount as int) * (mult as int) / (MULTIPLIER_SCALE as int);
    if v > u64::MAX {
        u64::MAX
    } else {
        v as u64
    }
}

/// Applies a fixed-point multiplier to a mills amount.
pub fn apply_multiplier(amount: u64, mult: u64) -> (r: u64)
    ensures
        r == spec_apply_multiplier(amount, mult),
{
    proof {
        assert((amount as int) * (mult as int) <= (u64::MAX as int) * (u64::MAX as int))
            by (nonlinear_arith)
            requires
                amount <= u64::MAX,
                mult <= u64::MAX,
        ;
    }
    let v: u128 = (amount as u128) * (mult as u128) / (MULTIPLIER_SCALE as u128);
    if v > u64::MAX as u128 {
        u64::MAX
    } else {
        v as u64
    }
}

/// The sum saturating at `u64::MAX`.
pub open spec fn spec_sat_add(a: u64, b: u64) -> u64 {
    if a + b > u64::MAX {
        u64::MAX
    } else {
        (a + b) as u64
    }
}

/// Adds two amounts, saturating at `u64::MAX`.
pub fn sat_add(a: u64, b: u64) -> (r: u64)
    ensures
        r == spec_sat_add(a, b),
{
    if a <= u64::MAX - b {
        a + b
    } else {
        u64::MAX
    }
}

/// The hour of day (0..24) of a timestamp, seconds since the Unix epoch.
pub open spec fn spec_hour_of(ts: i64) -> u8
    recommends
        ts >= 0,
{
    ((ts % 86400) / 3600) as u8
}

/// The hour of day (0..24) of a non-negative timestamp.
pub fn hour_of_timestamp(ts: i64) -> (h: u8)
    requires
        ts >= 0,
    ensures
        h == spec_hour_of(ts),
        h < 24,
{
    ((ts % 86400) / 3600) as u8
}

impl SeatAvailability {
    /// Total seats remaining across all classes.
    pub open spec fn total(self) -> int {
        self.economy + self.business + self.first_class
    }
}

impl Flight {
    /// Timestamps lie in the representable date range and remaining seats
    /// never exceed the capacity fixed at creation.
    pub open spec fn wf(self) -> bool {
        &&& 0 <= self.departure_time <= MAX_TIMESTAMP
        &&& 0 <= self.arrival_time <= MAX_TIMESTAMP
        &&& self.seat_availability.total() <= self.total_capacity
    }

    /// Whether the status alone permits booking.
    pub open spec fn has_bookable_status(self) -> bool {
        self.status is OnTime || self.status is Delayed
    }

    /// Whether the flight is open for booking at time `now`: bookable
    /// status and departure strictly in the future.
    pub open spec fn spec_bookable_at(self, now: i64) -> bool {
        self.has_bookable_status() && self.departure_time > now
    }

    /// Seats remaining in the given class.
    pub open spec fn spec_available(self, class: SeatClass) -> u32 {
        match class {
            SeatClass::Economy => self.seat_availability.economy,
            SeatClass::Business => self.seat_availability.business,
            SeatClass::FirstClass => self.seat_availability.first_class,
        }
    }

    /// Base price in mills for the given class, before any multiplier.
    pub open spec fn spec_base_price(self, class: SeatClass) -> u64 {
        match class {
            SeatClass::Economy => self.pricing.economy,
            SeatClass::Business => self.pricing.business,
            SeatClass::FirstClass => self.pricing.first_class,
        }
    }

    /// This flight with one seat taken from the given class.
    pub open spec fn spec_book_one(self, class: SeatClass) -> Flight {
        Flight {
            seat_availability: match class {
                SeatClass::Economy => SeatAvailability {
                    economy: (self.seat_availability.economy - 1) as u32,
                    ..self.seat_availability
                },
                SeatClass::Business => SeatAvailability {
                    business: (self.seat_availability.business - 1) as u32,
                    ..self.seat_availability
                },
                SeatClass::FirstClass => SeatAvailability {
                    first_class: (self.seat_availability.first_class - 1) as u32,
                    ..self.seat_availability
                },
            },
            ..self
        }
    }

    /// This flight with one seat restored to the given class.
    pub open spec fn spec_restore_one(self, class: SeatClass) -> Flight {
        Flight {
            seat_availability: match class {
                SeatClass::Economy => SeatAvailability {
                    economy: (self.seat_availability.economy + 1) as u32,
                    ..self.seat_availability
                },
                SeatClass::Business => SeatAvailability {
                    business: (self.seat_availability.business + 1) as u32,
                    ..self.seat_availability
                },
                SeatClass::FirstClass => SeatAvailability {
                    first_class: (self.seat_availability.first_class + 1) as u32,
                    ..self.seat_availability
                },
            },
            ..self
        }
    }

    /// Creates a flight with full inventory split 70/25/5 across Economy,
    /// Business and FirstClass (remainder to FirstClass), default pricing,
    /// and `OnTime` status. The identifier is freshly generated.
    pub fn new(
        flight_number: String,
        airline: String,
        origin: String,
        destination: String,
        departure_time: i64,
        arrival_time: i64,
        aircraft_id: u128,
        total_capacity: u32,
    ) -> (f: Flight)
        requires
            0 <= departure_time <= MAX_TIMESTAMP,
            0 <= arrival_time <= MAX_TIMESTAMP,
        ensures
            f.wf(),
            f.flight_number == flight_number,
            f.airline == airline,
            f.origin == origin,
            f.destination == destination,
            f.departure_time == departure_time,
            f.arrival_time == arrival_time,
            f.status == FlightStatus::OnTime,
            f.aircraft_id == aircraft_id,
            f.gate is None,
            f.seat_availability.economy == total_capacity as int * 70 / 100,
            f.seat_availability.business == total_capacity as int * 25 / 100,
            f.seat_availability.total() == total_capacity,
            f.pricing == (FlightPricing {
                economy: 299990u64,
                business: 899990u64,
                first_class: 1999990u64,
                dynamic_multiplier: MULTIPLIER_SCALE,
            }),
            f.total_capacity == total_capacity,
            f.baggage_allowance == (BaggageAllowance { economy: 23u32, business: 32u32, first_class: 46u32 }),
    {
        let economy_seats = ((total_capacity as u64) * 70 / 100) as u32;
        let business_seats = ((total_capacity as u64) * 25 / 100) as u32;
        proof {
            let c = total_capacity as int;
            assert(c * 70 / 100 + c * 25 / 100 <= c && c * 70 / 100 >= 0 && c * 25 / 100 >= 0)
                by (nonlinear_arith)
                requires
                    0 <= c <= u32::MAX,
            ;
        }
        let first_class_seats = total_capacity - economy_seats - business_seats;

        Flight {
            id: sys::fresh_id(),
            flight_number,
            airline,
            origin,
            destination,
            departure_time,
            arrival_time,
            status: FlightStatus::OnTime,
            aircraft_id,
            gate: None,
            seat_availability: SeatAvailability {
                economy: economy_seats,
                business: business_seats,
                first_class: first_class_seats,
            },
            pricing: FlightPricing {
                economy: 299990,
                business: 899990,
                first_class: 1999990,
                dynamic_multiplier: MULTIPLIER_SCALE,
            },
            total_capacity,
            baggage_allowance: BaggageAllowance { economy: 23, business: 32, first_class: 46 },
        }
    }

    /// Scheduled duration in seconds (arrival minus departure).
    pub fn duration(&self) -> (d: i64)
        requires
            self.wf(),
        ensures
            d == self.arrival_time - self.departure_time,
    {
        self.arrival_time - self.departure_time
    }

    /// Whether the flight is open for booking at time `now`.
    pub fn is_bookable_at(&self, now: i64) -> (r: bool)
        ensures
            r == self.spec_bookable_at(now),
    {
        let status_ok = match self.status {
            FlightStatus::OnTime => true,
            FlightStatus::Delayed(_) => true,
            _ => false,
        };
        status_ok && self.departure_time > now
    }

    /// Whether the flight is open for booking now. The clock decides; every
    /// `true` answer implies a bookable status.
    pub fn is_available_for_booking(&self) -> (r: bool)
        ensures
            r ==> self.has_bookable_status(),
            !self.has_bookable_status() ==> !r,
    {
        let now = sys::current_timestamp();
        self.is_bookable_at(now)
    }

    /// Seats remaining in the given class.
    pub fn get_available_seats(&self, class: &SeatClass) -> (n: u32)
        ensures
            n == self.spec_available(*class),
    {
        match class {
            SeatClass::Economy => self.seat_availability.economy,
            SeatClass::Business => self.seat_availability.business,
            SeatClass::FirstClass => self.seat_availability.first_class,
        }
    }

    /// Price in mills for the given class: the base price with the
    /// flight's dynamic multiplier applied.
    pub fn get_price(&self, class: &SeatClass) -> (p: u64)
        ensures
            p == spec_apply_multiplier(
                self.spec_base_price(*class),
                self.pricing.dynamic_multiplier,
            ),
    {
        let base_price = match class {
            SeatClass::Economy => self.pricing.economy,
            SeatClass::Business => self.pricing.business,
            SeatClass::FirstClass => self.pricing.first_class,
        };
        apply_multiplier(base_price, self.pricing.dynamic_multiplier)
    }

    /// Takes one seat of the given class if the flight is bookable at
    /// `now` and a seat remains; otherwise fails without mutation.
    pub fn book_seat_at(&mut self, class: &SeatClass, now: i64) -> (r: Result<(), AirportError>)
        requires
            old(self).wf(),
        ensures
            final(self).wf(),
            r is Ok <==> old(self).spec_bookable_at(now) && old(self).spec_available(*class) > 0,
            r is Ok ==> *final(self) == old(self).spec_book_one(*class),
            r is Err ==> *final(self) == *old(self),
            !old(self).spec_bookable_at(now) ==> (r matches Err(
                AirportError::FlightNotAvailable { flight_number },
            ) && flight_number == old(self).flight_number),
            old(self).spec_bookable_at(now) && old(self).spec_available(*class) == 0 ==> (
            r matches Err(AirportError::NoSeatsAvailable { class: c }) && c == *class),
    {
        if !self.is_bookable_at(now) {
            return Err(
                AirportError::FlightNotAvailable { flight_number: self.flight_number.clone() },
            );
        }
        match class {
            SeatClass::Economy => {
                if self.seat_availability.economy > 0 {
                    self.seat_availability.economy = self.seat_availability.economy - 1;
                    Ok(())
                } else {
                    Err(AirportError::NoSeatsAvailable { class: SeatClass::Economy })
                }
            },
            SeatClass::Business => {
                if self.seat_availability.business > 0 {
                    self.seat_availability.business = self.seat_availability.business - 1;
                    Ok(())
                } else {
                    Err(AirportError::NoSeatsAvailable { class: SeatClass::Business })
                }
            },
            SeatClass::FirstClass => {
                if self.seat_availability.first_class > 0 {
                    self.seat_availability.first_class = self.seat_availability.first_class - 1;
                    Ok(())
                } else {
                    Err(AirportError::NoSeatsAvailable { class: SeatClass::FirstClass })
                }
            },
        }
    }

    /// Takes one seat of the given class if the flight is bookable now.
    /// The clock decides availability; on success exactly one seat of the
    /// class is taken, on failure nothing changes.
    pub fn book_seat(&mut self, class: &SeatClass) -> (r: Result<(), AirportError>)
        requires
            old(self).wf(),
        ensures
            final(self).wf(),
            r is Ok ==> old(self).has_bookable_status() && old(self).spec_available(*class) > 0
                && *final(self) == old(self).spec_book_one(*class),
            r is Err ==> *final(self) == *old(self),
            !old(self).has_bookable_status() ==> r is Err,
    {
        let now = sys::current_timestamp();
        self.book_seat_at(class, now)
    }

    /// This flight after a delay of `minutes`: positive minutes set
    /// `Delayed` and push the arrival time later by that many minutes;
    /// zero or negative minutes reset the status to `OnTime` and leave
    /// the arrival time as it stands.
    pub open spec fn spec_set_delay(self, minutes: i32) -> Flight {
        if minutes > 0 {
            Flight {
                status: FlightStatus::Delayed(minutes),
                arrival_time: (self.arrival_time + 60 * (minutes as i64)) as i64,
                ..self
            }
        } else {
            Flight { status: FlightStatus::OnTime, ..self }
        }
    }

    /// Sets a delay, as [`Flight::spec_set_delay`] describes.
    pub fn set_delay(&mut self, minutes: i32)
        requires
            old(self).wf(),
            minutes > 0 ==> old(self).arrival_time + 60 * (minutes as i64) <= MAX_TIMESTAMP,
        ensures
            final(self).wf(),
            *final(self) == old(self).spec_set_delay(minutes),
    {
        if minutes > 0 {
            self.status = FlightStatus::Delayed(minutes);
            self.arrival_time = self.arrival_time + 60 * (minutes as i64);
        } else {
            self.status = FlightStatus::OnTime;
        }
    }

    /// Assigns a gate.
    pub fn set_gate(&mut self, gate: String)
        ensures
            *final(self) == (Flight { gate: Some(gate), ..*old(self) }),
    {
        self.gate = Some(gate);
    }

    /// The human-readable status line.
    pub fn get_status_display(&self) -> (r: String)
        ensures
            r@ == spec_status_display(self.status),
    {
        match self.status {
            FlightStatus::OnTime => String::from_str("On Time"),
            FlightStatus::Delayed(mins) => {
                let mut s = String::from_str("Delayed ");
                let d = text::i64_to_dec(mins as i64);
                s.append(d.as_str());
                s.append(" min");
                s
            },
            FlightStatus::Boarding => String::from_str("Boarding"),
            FlightStatus::Departed => String::from_str("Departed"),
            FlightStatus::Arrived => String::from_str("Arrived"),
            FlightStatus::Cancelled => String::from_str("Cancelled"),
        }
    }
}

/// The rendering of a flight status as a human-readable line.
pub open spec fn spec_status_display(status: FlightStatus) -> Seq<char> {
    match status {
        FlightStatus::OnTime => "On Time"@,
        FlightStatus::Delayed(mins) => "Delayed "@ + text::int_digits(mins as int) + " min"@,
        FlightStatus::Boarding => "Boarding"@,
        FlightStatus::Departed => "Departed"@,
        FlightStatus::Arrived => "Arrived"@,
        FlightStatus::Cancelled => "Cancelled"@,
    }
}


/// The booking round-trip law: on a flight with a seat remaining in a
/// class, taking one seat leaves one fewer in that class and touches no
/// other class; restoring one seat afterwards gives back exactly the
/// original flight.
pub proof fn lemma_seat_round_trip(f: Flight, class: SeatClass)
    requires
        f.spec_available(class) > 0,
    ensures
        f.spec_book_one(class).spec_available(class) == f.spec_available(class) - 1,
        forall|c: SeatClass|
            c != class ==> #[trigger] f.spec_book_one(class).spec_available(c) == f.spec_available(
                c,
            ),
        f.spec_book_one(class).spec_restore_one(class) == f,
{
    let g = f.spec_book_one(class).spec_restore_one(class);
    assert(g.seat_availability == f.seat_availability);
    assert(g == f);
}

impl Clone for Flight {
    /// A clone equals the original.
    fn clone(&self) -> (r: Self)
        ensures
            r == *self,
    {
        Flight {
            id: self.id,
            flight_number: self.flight_number.clone(),
            airline: self.airline.clone(),
            origin: self.origin.clone(),
            destination: self.destination.clone(),
            departure_time: self.departure_time,
            arrival_time: self.arrival_time,
            status: self.status,
            aircraft_id: self.aircraft_id,
            gate: match &self.gate {
                Some(g) => Some(g.clone()),
                None => None,
            },
            seat_availability: self.seat_availability,
            pricing: self.pricing,
            total_capacity: self.total_capacity,
            baggage_allowance: self.baggage_allowance,
        }
    }
}

} // verus!
