//! The data manager façade: holds the authoritative in-memory snapshot
//! and exposes the system's query and command operations — booking,
//! cancellation, admin-gated mutations, and the status simulator.

use vstd::prelude::*;
use vstd::string::*;
use crate::data::persistence::{AirportDatabase, DataPersistence};
use crate::errors::AirportError;
use crate::modules::admin::{
    AdminPanel, AdminUser, PricingRule, SystemMetrics, multiplier_fold, spec_valid_credentials,
    spec_level_for,
};
use crate::modules::aircraft::{Aircraft, AircraftStatus};
use crate::modules::airport::Airport;
use crate::modules::booking::{
    lemma_ticket_chars_injective, ticket_chars, ticket_number_from, ticket_sequence_bound, Booking,
    BookingStatus, Passenger,
};
use crate::modules::flight::{
    apply_multiplier, hour_of_timestamp, sat_add, spec_apply_multiplier, spec_hour_of,
    spec_sat_add, Flight, FlightStatus, SeatClass,
};
use crate::sys;
use crate::sys::MAX_TIMESTAMP;
use crate::text;

verus! {

/// Whether a booking holds a seat on flight `fid` in class `c`: it was
/// created there and has not been cancelled (a completed journey keeps
/// its seat on the books).
pub open spec fn is_seat_holder(b: Booking, fid: u128, c: SeatClass) -> bool {
    b.flight_id == fid && b.seat_class == c && (b.status is Confirmed || b.status is CheckedIn
        || b.status is Boarded || b.status is Completed)
}

/// How many bookings hold a seat on flight `fid` in class `c`.
pub open spec fn count_seat_holders(s: Seq<Booking>, fid: u128, c: SeatClass) -> nat
    decreases s.len(),
{
    if s.len() == 0 {
        0
    } else {
        count_seat_holders(s.drop_last(), fid, c) + if is_seat_holder(s.last(), fid, c) {
            1nat
        } else {
            0nat
        }
    }
}

/// The seat ledger of one flight: remaining seats plus held seats never
/// exceed the capacity, class by class summed.
pub open spec fn flight_ledger_ok(f: Flight, bookings: Seq<Booking>) -> bool {
    f.seat_availability.economy + count_seat_holders(bookings, f.id, SeatClass::Economy)
        + f.seat_availability.business + count_seat_holders(bookings, f.id, SeatClass::Business)
        + f.seat_availability.first_class + count_seat_holders(
        bookings,
        f.id,
        SeatClass::FirstClass,
    ) <= f.total_capacity
}

/// A dataset the manager can run on: flights well-formed with unique
/// identifiers, collections countable, and every flight's seat ledger
/// consistent with the bookings.
pub open spec fn database_wf(db: AirportDatabase) -> bool {
    &&& forall|i: int| 0 <= i < db.flights@.len() ==> (#[trigger] db.flights@[i]).wf()
    &&& forall|i: int, j: int|
        0 <= i < j < db.flights@.len() ==> (#[trigger] db.flights@[i]).id != (
        #[trigger] db.flights@[j]).id
    &&& db.flights@.len() <= u32::MAX
    &&& db.aircraft@.len() <= u32::MAX
    &&& db.bookings@.len() <= u32::MAX
    &&& forall|i: int|
        0 <= i < db.flights@.len() ==> flight_ledger_ok(#[trigger] db.flights@[i], db.bookings@)
    &&& forall|i: int, j: int|
        0 <= i < j < db.bookings@.len() ==> (#[trigger] db.bookings@[i]).ticket_number@ != (
        #[trigger] db.bookings@[j]).ticket_number@
}

/// No booking's ticket number equals one the manager's counter could
/// still issue: every value from `seq` up (the largest value excluded —
/// the counter never reaches it) encodes a ticket no booking holds.
pub open spec fn tickets_fresh_from(bookings: Seq<Booking>, seq: u64) -> bool {
    forall|i: int, m: u64|
        0 <= i < bookings.len() && seq <= m < u64::MAX ==> (
        #[trigger] bookings[i]).ticket_number@ != #[trigger] ticket_chars(m as nat)
}

proof fn lemma_count_seat_holders_push(s: Seq<Booking>, fid: u128, c: SeatClass, b: Booking)
    ensures
        count_seat_holders(s.push(b), fid, c) == count_seat_holders(s, fid, c) + if is_seat_holder(
            b,
            fid,
            c,
        ) {
            1nat
        } else {
            0nat
        },
{
    assert(s.push(b).drop_last() =~= s);
}

proof fn lemma_count_seat_holders_update(
    s: Seq<Booking>,
    fid: u128,
    c: SeatClass,
    i: int,
    b: Booking,
)
    requires
        0 <= i < s.len(),
    ensures
        count_seat_holders(s.update(i, b), fid, c) == count_seat_holders(s, fid, c) - (
        if is_seat_holder(s[i], fid, c) {
            1int
        } else {
            0int
        }) + (if is_seat_holder(b, fid, c) {
            1int
        } else {
            0int
        }),
    decreases s.len(),
{
    let t = s.update(i, b);
    if i == s.len() - 1 {
        assert(t.drop_last() =~= s.drop_last());
        assert(t.last() == b);
        assert(s.last() == s[i]);
    } else {
        assert(t.drop_last() =~= s.drop_last().update(i, b));
        assert(t.last() == s.last());
        lemma_count_seat_holders_update(s.drop_last(), fid, c, i, b);
        assert(s.drop_last()[i] == s[i]);
    }
}

proof fn lemma_seat_holder_witness(s: Seq<Booking>, fid: u128, c: SeatClass, i: int)
    requires
        0 <= i < s.len(),
        is_seat_holder(s[i], fid, c),
    ensures
        count_seat_holders(s, fid, c) >= 1,
    decreases s.len(),
{
    if i == s.len() - 1 {
        assert(s.last() == s[i]);
    } else {
        assert(s.drop_last()[i] == s[i]);
        lemma_seat_holder_witness(s.drop_last(), fid, c, i);
    }
}

/// Whether `i` is the position of the first flight with identifier `id`.
pub open spec fn is_first_flight_with_id(s: Seq<Flight>, id: u128, i: int) -> bool {
    &&& 0 <= i < s.len()
    &&& s[i].id == id
    &&& forall|j: int| 0 <= j < i ==> (#[trigger] s[j]).id != id
}

/// Whether no flight has identifier `id`.
pub open spec fn no_flight_with_id(s: Seq<Flight>, id: u128) -> bool {
    forall|i: int| 0 <= i < s.len() ==> (#[trigger] s[i]).id != id
}

/// Whether `i` is the position of the first flight numbered `number`.
pub open spec fn is_first_flight_with_number(s: Seq<Flight>, number: Seq<char>, i: int) -> bool {
    &&& 0 <= i < s.len()
    &&& s[i].flight_number@ == number
    &&& forall|j: int| 0 <= j < i ==> (#[trigger] s[j]).flight_number@ != number
}

/// Whether no flight is numbered `number`.
pub open spec fn no_flight_with_number(s: Seq<Flight>, number: Seq<char>) -> bool {
    forall|i: int| 0 <= i < s.len() ==> (#[trigger] s[i]).flight_number@ != number
}

/// Whether `i` is the position of the first booking with ticket number
/// `ticket`.
pub open spec fn is_first_booking_with_ticket(s: Seq<Booking>, ticket: Seq<char>, i: int) -> bool {
    &&& 0 <= i < s.len()
    &&& s[i].ticket_number@ == ticket
    &&& forall|j: int| 0 <= j < i ==> (#[trigger] s[j]).ticket_number@ != ticket
}

/// Whether no booking has ticket number `ticket`.
pub open spec fn no_booking_with_ticket(s: Seq<Booking>, ticket: Seq<char>) -> bool {
    forall|i: int| 0 <= i < s.len() ==> (#[trigger] s[i]).ticket_number@ != ticket
}

/// Whether `i` is the position of the first booking with identifier `id`.
pub open spec fn is_first_booking_with_id(s: Seq<Booking>, id: u128, i: int) -> bool {
    &&& 0 <= i < s.len()
    &&& s[i].id == id
    &&& forall|j: int| 0 <= j < i ==> (#[trigger] s[j]).id != id
}

/// Whether no booking has identifier `id`.
pub open spec fn no_booking_with_id(s: Seq<Booking>, id: u128) -> bool {
    forall|i: int| 0 <= i < s.len() ==> (#[trigger] s[i]).id != id
}

/// Whether `i` is the position of the first aircraft with identifier `id`.
pub open spec fn is_first_aircraft_with_id(s: Seq<Aircraft>, id: u128, i: int) -> bool {
    &&& 0 <= i < s.len()
    &&& s[i].id == id
    &&& forall|j: int| 0 <= j < i ==> (#[trigger] s[j]).id != id
}

/// Whether no aircraft has identifier `id`.
pub open spec fn no_aircraft_with_id(s: Seq<Aircraft>, id: u128) -> bool {
    forall|i: int| 0 <= i < s.len() ==> (#[trigger] s[i]).id != id
}

/// Whether `i` is the position of the first airport with code `code`.
pub open spec fn is_first_airport_with_code(s: Seq<Airport>, code: Seq<char>, i: int) -> bool {
    &&& 0 <= i < s.len()
    &&& s[i].code@ == code
    &&& forall|j: int| 0 <= j < i ==> (#[trigger] s[j]).code@ != code
}

/// Whether no airport has code `code`.
pub open spec fn no_airport_with_code(s: Seq<Airport>, code: Seq<char>) -> bool {
    forall|i: int| 0 <= i < s.len() ==> (#[trigger] s[i]).code@ != code
}

/// The final price of a seat on `f` in class `c` under the rules `rules`:
/// the base price with the flight's own dynamic multiplier applied, then
/// the rule multiplier for the route at the departure hour.
pub open spec fn spec_final_price(f: Flight, c: SeatClass, rules: Seq<PricingRule>) -> u64 {
    spec_apply_multiplier(
        spec_apply_multiplier(f.spec_base_price(c), f.pricing.dynamic_multiplier),
        multiplier_fold(rules, f.origin@, f.destination@, spec_hour_of(f.departure_time)),
    )
}

/// The manager façade over the in-memory snapshot.
pub struct DataManager {
    pub database: AirportDatabase,
    pub persistence: DataPersistence,
    pub admin_panel: AdminPanel,
    /// When the simulator last ran, seconds since the Unix epoch.
    pub last_simulation_update: i64,
    /// The next value the ticket-number generator will issue. Every
    /// issued ticket encodes a fresh value, so tickets stay unique.
    pub next_ticket_sequence: u64,
}

impl DataManager {
    /// The dataset is well-formed, the audit log displayable, and the
    /// simulator clock in range.
    pub open spec fn wf(self) -> bool {
        &&& database_wf(self.database)
        &&& self.admin_panel.wf()
        &&& 0 <= self.last_simulation_update <= MAX_TIMESTAMP
        &&& tickets_fresh_from(self.database.bookings@, self.next_ticket_sequence)
    }

    /// Takes over a loaded dataset: computes the initial metrics and
    /// registers the three default pricing rules (peak-hours premium,
    /// weekend discount, and a premium on routes into LHR).
    pub fn new(database: AirportDatabase) -> (dm: DataManager)
        requires
            database_wf(database),
        ensures
            dm.wf(),
            dm.database == database,
            dm.admin_panel.current_admin is None,
            dm.admin_panel.audit_log@.len() == 0,
            dm.admin_panel.pricing_rules@.len() == 3,
            dm.admin_panel.pricing_rules@[0].rule_name@ == "Peak Hours Premium"@,
            dm.admin_panel.pricing_rules@[0].route_pattern is None,
            dm.admin_panel.pricing_rules@[0].time_period == Some((6u8, 9u8)),
            dm.admin_panel.pricing_rules@[0].multiplier == 1300,
            dm.admin_panel.pricing_rules@[0].is_active,
            dm.admin_panel.pricing_rules@[1].rule_name@ == "Weekend Discount"@,
            dm.admin_panel.pricing_rules@[1].route_pattern is None,
            dm.admin_panel.pricing_rules@[1].time_period is None,
            dm.admin_panel.pricing_rules@[1].multiplier == 900,
            dm.admin_panel.pricing_rules@[1].is_active,
            dm.admin_panel.pricing_rules@[2].rule_name@ == "Transatlantic Premium"@,
            (dm.admin_panel.pricing_rules@[2].route_pattern matches Some(p) && p@ == "*-LHR"@),
            dm.admin_panel.pricing_rules@[2].time_period is None,
            dm.admin_panel.pricing_rules@[2].multiplier == 1200,
            dm.admin_panel.pricing_rules@[2].is_active,
            dm.admin_panel.system_metrics.total_flights == database.flights@.len(),
            dm.admin_panel.system_metrics.active_flights
                == crate::modules::admin::count_active_flights(database.flights@),
            dm.admin_panel.system_metrics.delayed_flights
                == crate::modules::admin::count_delayed_flights(database.flights@),
            dm.admin_panel.system_metrics.cancelled_flights
                == crate::modules::admin::count_cancelled_flights(database.flights@),
            dm.admin_panel.system_metrics.total_aircraft == database.aircraft@.len(),
            dm.admin_panel.system_metrics.active_aircraft
                == crate::modules::admin::count_active_aircraft(database.aircraft@),
            dm.admin_panel.system_metrics.aircraft_in_maintenance
                == crate::modules::admin::count_maintenance_aircraft(database.aircraft@),
            dm.admin_panel.system_metrics.total_bookings == database.bookings@.len(),
    {
        let mut admin_panel = AdminPanel::new();
        admin_panel.system_metrics.update_flight_metrics(&database.flights);
        admin_panel.system_metrics.update_aircraft_metrics(&database.aircraft);
        admin_panel.system_metrics.total_bookings = database.bookings.len() as u32;

        admin_panel.pricing_rules.push(
            PricingRule::new(
                String::from_str("Peak Hours Premium"),
                None,
                Some((6, 9)),
                1300,
                sys::fresh_id(),
            ),
        );
        admin_panel.pricing_rules.push(
            PricingRule::new(
                String::from_str("Weekend Discount"),
                None,
                None,
                900,
                sys::fresh_id(),
            ),
        );
        admin_panel.pricing_rules.push(
            PricingRule::new(
                String::from_str("Transatlantic Premium"),
                Some(String::from_str("*-LHR")),
                None,
                1200,
                sys::fresh_id(),
            ),
        );

        let n = database.bookings.len();
        let mut seed: u64 = 0;
        let mut i: usize = 0;
        while i < n
            invariant
                0 <= i <= n,
                n == database.bookings@.len(),
                forall|j: int, m: u64|
                    0 <= j < i && seed <= m < u64::MAX ==> (
                    #[trigger] database.bookings@[j]).ticket_number@ != #[trigger] ticket_chars(
                        m as nat,
                    ),
            decreases n - i,
        {
            let bound = ticket_sequence_bound(database.bookings[i].ticket_number.as_str());
            if bound == u64::MAX {
                seed = u64::MAX;
            } else if bound + 1 > seed {
                seed = bound + 1;
            }
            i = i + 1;
        }

        DataManager {
            database,
            persistence: DataPersistence::new(),
            admin_panel,
            last_simulation_update: sys::current_timestamp(),
            next_ticket_sequence: seed,
        }
    }

    /// The first flight with the given identifier, if any.
    pub fn get_flight_by_id(&self, flight_id: u128) -> (r: Option<&Flight>)
        ensures
            match r {
                Some(f) => exists|i: int|
                    is_first_flight_with_id(self.database.flights@, flight_id, i) && *f
                        == self.database.flights@[i],
                None => no_flight_with_id(self.database.flights@, flight_id),
            },
    {
        let n = self.database.flights.len();
        let mut i: usize = 0;
        while i < n
            invariant
                0 <= i <= n,
                n == self.database.flights@.len(),
                forall|j: int| 0 <= j < i ==> (#[trigger] self.database.flights@[j]).id != flight_id,
            decreases n - i,
        {
            if self.database.flights[i].id == flight_id {
                return Some(&self.database.flights[i]);
            }
            i = i + 1;
        }
        None
    }

    /// The first flight with the given flight number, if any.
    pub fn get_flight_by_number(&self, flight_number: &str) -> (r: Option<&Flight>)
        ensures
            match r {
                Some(f) => exists|i: int|
                    is_first_flight_with_number(self.database.flights@, flight_number@, i) && *f
                        == self.database.flights@[i],
                None => no_flight_with_number(self.database.flights@, flight_number@),
            },
    {
        let n = self.database.flights.len();
        let mut i: usize = 0;
        while i < n
            invariant
                0 <= i <= n,
                n == self.database.flights@.len(),
                forall|j: int|
                    0 <= j < i ==> (#[trigger] self.database.flights@[j]).flight_number@
                        != flight_number@,
            decreases n - i,
        {
            if text::str_eq(self.database.flights[i].flight_number.as_str(), flight_number) {
                return Some(&self.database.flights[i]);
            }
            i = i + 1;
        }
        None
    }

    /// The first booking with the given ticket number, if any.
    pub fn get_booking_by_ticket(&self, ticket_number: &str) -> (r: Option<&Booking>)
        ensures
            match r {
                Some(b) => exists|i: int|
                    is_first_booking_with_ticket(self.database.bookings@, ticket_number@, i) && *b
                        == self.database.bookings@[i],
                None => no_booking_with_ticket(self.database.bookings@, ticket_number@),
            },
    {
        let n = self.database.bookings.len();
        let mut i: usize = 0;
        while i < n
            invariant
                0 <= i <= n,
                n == self.database.bookings@.len(),
                forall|j: int|
                    0 <= j < i ==> (#[trigger] self.database.bookings@[j]).ticket_number@
                        != ticket_number@,
            decreases n - i,
        {
            if text::str_eq(self.database.bookings[i].ticket_number.as_str(), ticket_number) {
                return Some(&self.database.bookings[i]);
            }
            i = i + 1;
        }
        None
    }

    /// The first booking with the given identifier, if any.
    pub fn get_booking_by_id(&self, booking_id: u128) -> (r: Option<&Booking>)
        ensures
            match r {
                Some(b) => exists|i: int|
                    is_first_booking_with_id(self.database.bookings@, booking_id, i) && *b
                        == self.database.bookings@[i],
                None => no_booking_with_id(self.database.bookings@, booking_id),
            },
    {
        let n = self.database.bookings.len();
        let mut i: usize = 0;
        while i < n
            invariant
                0 <= i <= n,
                n == self.database.bookings@.len(),
                forall|j: int|
                    0 <= j < i ==> (#[trigger] self.database.bookings@[j]).id != booking_id,
            decreases n - i,
        {
            if self.database.bookings[i].id == booking_id {
                return Some(&self.database.bookings[i]);
            }
            i = i + 1;
        }
        None
    }

    /// The first aircraft with the given identifier, if any.
    pub fn get_aircraft_by_id(&self, aircraft_id: u128) -> (r: Option<&Aircraft>)
        ensures
            match r {
                Some(a) => exists|i: int|
                    is_first_aircraft_with_id(self.database.aircraft@, aircraft_id, i) && *a
                        == self.database.aircraft@[i],
                None => no_aircraft_with_id(self.database.aircraft@, aircraft_id),
            },
    {
        let n = self.database.aircraft.len();
        let mut i: usize = 0;
        while i < n
            invariant
                0 <= i <= n,
                n == self.database.aircraft@.len(),
                forall|j: int|
                    0 <= j < i ==> (#[trigger] self.database.aircraft@[j]).id != aircraft_id,
            decreases n - i,
        {
            if self.database.aircraft[i].id == aircraft_id {
                return Some(&self.database.aircraft[i]);
            }
            i = i + 1;
        }
        None
    }

    /// The first airport with the given code, if any.
    pub fn get_airport_by_code(&self, code: &str) -> (r: Option<&Airport>)
        ensures
            match r {
                Some(a) => exists|i: int|
                    is_first_airport_with_code(self.database.airports@, code@, i) && *a
                        == self.database.airports@[i],
                None => no_airport_with_code(self.database.airports@, code@),
            },
    {
        let n = self.database.airports.len();
        let mut i: usize = 0;
        while i < n
            invariant
                0 <= i <= n,
                n == self.database.airports@.len(),
                forall|j: int|
                    0 <= j < i ==> (#[trigger] self.database.airports@[j]).code@ != code@,
            decreases n - i,
        {
            if text::str_eq(self.database.airports[i].code.as_str(), code) {
                return Some(&self.database.airports[i]);
            }
            i = i + 1;
        }
        None
    }

    /// All airports.
    pub fn get_all_airports(&self) -> (r: &Vec<Airport>)
        ensures
            r == &self.database.airports,
    {
        &self.database.airports
    }

    /// The aircraft the first flight with the given identifier is
    /// assigned to: `Some` exactly when that flight exists and some
    /// aircraft carries its aircraft identifier, and then the first such
    /// aircraft.
    pub fn get_aircraft_for_flight(&self, flight_id: u128) -> (r: Option<&Aircraft>)
        ensures
            match r {
                Some(a) => exists|i: int, j: int|
                    #![auto]
                    {
                        &&& is_first_flight_with_id(self.database.flights@, flight_id, i)
                        &&& is_first_aircraft_with_id(
                            self.database.aircraft@,
                            self.database.flights@[i].aircraft_id,
                            j,
                        )
                        &&& *a == self.database.aircraft@[j]
                    },
                None => forall|i: int|
                    #[trigger] is_first_flight_with_id(self.database.flights@, flight_id, i)
                        ==> no_aircraft_with_id(
                        self.database.aircraft@,
                        self.database.flights@[i].aircraft_id,
                    ),
            },
    {
        let aircraft_id = match self.get_flight_by_id(flight_id) {
            Some(flight) => flight.aircraft_id,
            None => {
                return None;
            },
        };
        self.get_aircraft_by_id(aircraft_id)
    }
}

impl DataManager {
    /// Creates a booking against the clock reading `now`. On success the
    /// seat is taken, the booking recorded at the computed price, and the
    /// metrics updated — all of it, or on failure none of it.
    pub fn create_booking_at(
        &mut self,
        flight_id: u128,
        passenger: Passenger,
        seat_class: SeatClass,
        now: i64,
    ) -> (r: Result<u128, AirportError>)
        requires
            old(self).wf(),
            old(self).database.bookings@.len() < u32::MAX,
            old(self).next_ticket_sequence < u64::MAX,
        ensures
            final(self).wf(),
            r is Err ==> *final(self) == *old(self),
            no_flight_with_id(old(self).database.flights@, flight_id) ==> (r matches Err(
                AirportError::FlightNotFound { flight_id: fid },
            ) && fid == flight_id),
            forall|i: int|
                is_first_flight_with_id(old(self).database.flights@, flight_id, i) && !(
                #[trigger] old(self).database.flights@[i]).spec_bookable_at(now) ==> (
                r matches Err(AirportError::FlightNotAvailable { flight_number }) && flight_number@
                    == old(self).database.flights@[i].flight_number@),
            forall|i: int|
                is_first_flight_with_id(old(self).database.flights@, flight_id, i) && (
                #[trigger] old(self).database.flights@[i]).spec_bookable_at(now) && old(self).database.flights@[i].spec_available(seat_class) == 0 ==> (r matches Err(
                    AirportError::NoSeatsAvailable { class },
                ) && class == seat_class),
            r is Ok <==> (exists|i: int|
                is_first_flight_with_id(old(self).database.flights@, flight_id, i) && (
                #[trigger] old(self).database.flights@[i]).spec_bookable_at(now) && old(self).database.flights@[i].spec_available(seat_class) > 0),
            forall|i: int|
                is_first_flight_with_id(old(self).database.flights@, flight_id, i) && (
                #[trigger] old(self).database.flights@[i]).spec_bookable_at(now) && old(self).database.flights@[i].spec_available(seat_class) > 0 ==> {
                    let f = old(self).database.flights@[i];
                    let b = final(self).database.bookings@.last();
                    &&& (r matches Ok(bid) && bid == b.id)
                    &&& final(self).database.flights@ == old(self).database.flights@.update(
                        i,
                        f.spec_book_one(seat_class),
                    )
                    &&& final(self).database.bookings@.len() == old(self).database.bookings@.len() + 1
                    &&& final(self).database.bookings@.take(
                        old(self).database.bookings@.len() as int,
                    ) == old(self).database.bookings@
                    &&& b.flight_id == flight_id
                    &&& b.passenger == passenger
                    &&& b.seat_class == seat_class
                    &&& b.status == BookingStatus::Confirmed
                    &&& b.payment.total_amount == spec_final_price(
                        f,
                        seat_class,
                        old(self).admin_panel.pricing_rules@,
                    )
                    &&& b.ticket_number@ == ticket_chars(old(self).next_ticket_sequence as nat)
                    &&& (forall|j: int|
                        0 <= j < old(self).database.bookings@.len() ==> (
                        #[trigger] old(self).database.bookings@[j]).ticket_number@
                            != b.ticket_number@)
                    &&& final(self).next_ticket_sequence == old(self).next_ticket_sequence + 1
                    &&& final(self).database.aircraft == old(self).database.aircraft
                    &&& final(self).database.airports == old(self).database.airports
                    &&& final(self).admin_panel.current_admin == old(self).admin_panel.current_admin
                    &&& final(self).admin_panel.audit_log == old(self).admin_panel.audit_log
                    &&& final(self).admin_panel.pricing_rules == old(self).admin_panel.pricing_rules
                    &&& final(self).admin_panel.system_metrics.total_bookings == final(self).database.bookings@.len()
                    &&& final(self).admin_panel.system_metrics.revenue_today == spec_sat_add(
                        old(self).admin_panel.system_metrics.revenue_today,
                        b.payment.total_amount,
                    )
                    &&& final(self).admin_panel.system_metrics.revenue_month == spec_sat_add(
                        old(self).admin_panel.system_metrics.revenue_month,
                        b.payment.total_amount,
                    )
                    &&& final(self).last_simulation_update == old(self).last_simulation_update
                },
    {
        let n = self.database.flights.len();
        let mut idx: usize = 0;
        let mut found = false;
        while idx < n && !found
            invariant
                0 <= idx <= n,
                n == self.database.flights@.len(),
                forall|j: int|
                    0 <= j < idx ==> (#[trigger] self.database.flights@[j]).id != flight_id,
                found ==> idx < n && self.database.flights@[idx as int].id == flight_id,
            decreases n - idx + (if found { 0int } else { 1int }),
        {
            if self.database.flights[idx].id == flight_id {
                found = true;
            } else {
                idx = idx + 1;
            }
        }
        if !found {
            return Err(AirportError::FlightNotFound { flight_id });
        }
        proof {
            assert(is_first_flight_with_id(self.database.flights@, flight_id, idx as int));
        }

        if !self.database.flights[idx].is_bookable_at(now) {
            let flight_number = self.database.flights[idx].flight_number.clone();
            return Err(AirportError::FlightNotAvailable { flight_number });
        }

        if self.database.flights[idx].get_available_seats(&seat_class) == 0 {
            return Err(AirportError::NoSeatsAvailable { class: seat_class });
        }

        let base_price = self.database.flights[idx].get_price(&seat_class);
        proof {
            assert(self.database.flights@[idx as int].wf());
        }
        let hour = hour_of_timestamp(self.database.flights[idx].departure_time);
        let rule_multiplier = self.admin_panel.get_applicable_multiplier(
            self.database.flights[idx].origin.as_str(),
            self.database.flights[idx].destination.as_str(),
            hour,
        );
        let final_price = apply_multiplier(base_price, rule_multiplier);

        let mut booking = Booking::new(
            flight_id,
            passenger,
            seat_class,
            final_price,
            String::from_str("Credit Card"),
        );
        // The manager issues tickets from its own sequence, so every
        // booking's ticket number is fresh.
        booking.ticket_number = ticket_number_from(self.next_ticket_sequence);
        let booking_id = booking.id;

        let ghost pre_flights = self.database.flights@;
        let ghost pre_bookings = self.database.bookings@;
        let ghost pre_seq = self.next_ticket_sequence;

        let book_result = self.database.flights[idx].book_seat_at(&seat_class, now);
        match book_result {
            Ok(_) => {},
            Err(e) => {
                proof {
                    assert(false);
                }
                return Err(e);
            },
        }

        self.database.bookings.push(booking);
        self.next_ticket_sequence = self.next_ticket_sequence + 1;

        let booked_count = self.database.bookings.len() as u32;
        self.admin_panel.system_metrics.total_bookings = booked_count;
        self.admin_panel.system_metrics.revenue_today = sat_add(
            self.admin_panel.system_metrics.revenue_today,
            final_price,
        );
        self.admin_panel.system_metrics.revenue_month = sat_add(
            self.admin_panel.system_metrics.revenue_month,
            final_price,
        );

        proof {
            let nf = self.database.flights@;
            let nb = self.database.bookings@;
            assert(nb.take(pre_bookings.len() as int) =~= pre_bookings);
            assert(nb.last().ticket_number@ == ticket_chars(pre_seq as nat));
            assert forall|i2: int, j2: int| 0 <= i2 < j2 < nb.len() implies (
            #[trigger] nb[i2]).ticket_number@ != (#[trigger] nb[j2]).ticket_number@ by {
                if j2 == nb.len() - 1 {
                    assert(pre_bookings[i2].ticket_number@ != ticket_chars(pre_seq as nat));
                }
            }
            assert forall|i2: int, m: u64|
                0 <= i2 < nb.len() && self.next_ticket_sequence <= m < u64::MAX implies (
            #[trigger] nb[i2]).ticket_number@ != #[trigger] ticket_chars(m as nat) by {
                if i2 == nb.len() - 1 {
                    lemma_ticket_chars_injective(pre_seq, m);
                } else {
                    assert(pre_bookings[i2].ticket_number@ != ticket_chars(m as nat));
                }
            }
            assert(nf == pre_flights.update(
                idx as int,
                pre_flights[idx as int].spec_book_one(seat_class),
            ));
            assert forall|j: int| 0 <= j < nf.len() implies flight_ledger_ok(
                #[trigger] nf[j],
                nb,
            ) by {
                lemma_count_seat_holders_push(pre_bookings, nf[j].id, SeatClass::Economy, nb.last());
                lemma_count_seat_holders_push(
                    pre_bookings,
                    nf[j].id,
                    SeatClass::Business,
                    nb.last(),
                );
                lemma_count_seat_holders_push(
                    pre_bookings,
                    nf[j].id,
                    SeatClass::FirstClass,
                    nb.last(),
                );
                if j != idx as int {
                    assert(nf[j] == pre_flights[j]);
                    if j < idx as int {
                        assert(pre_flights[j].id != pre_flights[idx as int].id);
                    } else {
                        assert(pre_flights[idx as int].id != pre_flights[j].id);
                    }
                    assert(flight_ledger_ok(pre_flights[j], pre_bookings));
                } else {
                    assert(flight_ledger_ok(pre_flights[j], pre_bookings));
                }
            }
        }
        Ok(booking_id)
    }

    /// Creates a booking now. The clock decides whether the flight is
    /// still open; on success exactly one seat of the class is taken, the
    /// booking recorded at the computed price, and the metrics updated.
    pub fn create_booking(
        &mut self,
        flight_id: u128,
        passenger: Passenger,
        seat_class: SeatClass,
    ) -> (r: Result<u128, AirportError>)
        requires
            old(self).wf(),
            old(self).database.bookings@.len() < u32::MAX,
            old(self).next_ticket_sequence < u64::MAX,
        ensures
            final(self).wf(),
            r is Err ==> *final(self) == *old(self),
            no_flight_with_id(old(self).database.flights@, flight_id) ==> (r matches Err(
                AirportError::FlightNotFound { flight_id: fid },
            ) && fid == flight_id),
            r is Ok ==> (exists|i: int|
                {
                    let f = old(self).database.flights@[i];
                    let b = final(self).database.bookings@.last();
                    &&& #[trigger] is_first_flight_with_id(old(self).database.flights@, flight_id, i)
                    &&& f.has_bookable_status()
                    &&& f.spec_available(seat_class) > 0
                    &&& final(self).database.flights@ == old(self).database.flights@.update(
                        i,
                        f.spec_book_one(seat_class),
                    )
                    &&& final(self).database.bookings@.len() == old(self).database.bookings@.len() + 1
                    &&& final(self).database.bookings@.take(
                        old(self).database.bookings@.len() as int,
                    ) == old(self).database.bookings@
                    &&& b.flight_id == flight_id
                    &&& b.passenger == passenger
                    &&& b.seat_class == seat_class
                    &&& b.status == BookingStatus::Confirmed
                    &&& b.payment.total_amount == spec_final_price(
                        f,
                        seat_class,
                        old(self).admin_panel.pricing_rules@,
                    )
                    &&& (r matches Ok(bid) && bid == b.id)
                    &&& (forall|j: int|
                        0 <= j < old(self).database.bookings@.len() ==> (
                        #[trigger] old(self).database.bookings@[j]).ticket_number@
                            != b.ticket_number@)
                    &&& final(self).admin_panel.system_metrics.revenue_today == spec_sat_add(
                        old(self).admin_panel.system_metrics.revenue_today,
                        b.payment.total_amount,
                    )
                }),
    {
        let now = sys::current_timestamp();
        let r = self.create_booking_at(flight_id, passenger, seat_class, now);
        r
    }

    /// Cancels a booking by ticket number: allowed while the booking is
    /// `Confirmed` or `CheckedIn`; the booking becomes `Cancelled` and
    /// exactly one seat of its class returns to its flight. A second
    /// cancel of the same ticket fails without a second seat credit.
    pub fn cancel_booking(&mut self, ticket_number: &str) -> (r: Result<(), AirportError>)
        requires
            old(self).wf(),
        ensures
            final(self).wf(),
            r is Err ==> *final(self) == *old(self),
            no_booking_with_ticket(old(self).database.bookings@, ticket_number@) ==> (
            r matches Err(AirportError::BookingNotFound { ticket_number: t }) && t@
                == ticket_number@),
            forall|i: int|
                is_first_booking_with_ticket(old(self).database.bookings@, ticket_number@, i)
                    && !((#[trigger] old(self).database.bookings@[i]).status is Confirmed || old(self).database.bookings@[i].status is CheckedIn) ==> (r matches Err(
                    AirportError::ValidationError { .. },
                )),
            r is Ok <==> (exists|i: int|
                is_first_booking_with_ticket(old(self).database.bookings@, ticket_number@, i) && ((
                #[trigger] old(self).database.bookings@[i]).status is Confirmed || old(self).database.bookings@[i].status is CheckedIn)),
            forall|i: int|
                is_first_booking_with_ticket(old(self).database.bookings@, ticket_number@, i) && ((
                #[trigger] old(self).database.bookings@[i]).status is Confirmed || old(self).database.bookings@[i].status is CheckedIn) ==> {
                    let b = old(self).database.bookings@[i];
                    &&& final(self).database.bookings@ == old(self).database.bookings@.update(
                        i,
                        Booking { status: BookingStatus::Cancelled, ..b },
                    )
                    &&& (no_flight_with_id(old(self).database.flights@, b.flight_id) ==> final(self).database.flights == old(self).database.flights)
                    &&& (forall|k: int|
                        is_first_flight_with_id(old(self).database.flights@, b.flight_id, k)
                            ==> final(self).database.flights@ == old(self).database.flights@.update(
                            k,
                            (#[trigger] old(self).database.flights@[k]).spec_restore_one(
                                b.seat_class,
                            ),
                        ))
                    &&& final(self).database.aircraft == old(self).database.aircraft
                    &&& final(self).database.airports == old(self).database.airports
                    &&& final(self).admin_panel == old(self).admin_panel
                    &&& final(self).last_simulation_update == old(self).last_simulation_update
                    &&& final(self).next_ticket_sequence == old(self).next_ticket_sequence
                },
    {
        let n = self.database.bookings.len();
        let mut bidx: usize = 0;
        let mut found = false;
        while bidx < n && !found
            invariant
                0 <= bidx <= n,
                n == self.database.bookings@.len(),
                forall|j: int|
                    0 <= j < bidx ==> (#[trigger] self.database.bookings@[j]).ticket_number@
                        != ticket_number@,
                found ==> bidx < n && self.database.bookings@[bidx as int].ticket_number@
                    == ticket_number@,
            decreases n - bidx + (if found { 0int } else { 1int }),
        {
            if text::str_eq(self.database.bookings[bidx].ticket_number.as_str(), ticket_number) {
                found = true;
            } else {
                bidx = bidx + 1;
            }
        }
        if !found {
            return Err(
                AirportError::BookingNotFound { ticket_number: String::from_str(ticket_number) },
            );
        }
        proof {
            assert(is_first_booking_with_ticket(
                self.database.bookings@,
                ticket_number@,
                bidx as int,
            ));
        }

        let flight_id = self.database.bookings[bidx].flight_id;
        let seat_class = self.database.bookings[bidx].seat_class;

        if !self.database.bookings[bidx].can_be_modified() {
            let message = match self.database.bookings[bidx].status {
                BookingStatus::Boarded | BookingStatus::Completed => String::from_str(
                    "Cannot cancel - flight already boarded or completed",
                ),
                _ => String::from_str("Booking already cancelled or invalid status"),
            };
            return Err(AirportError::ValidationError { message });
        }

        let ghost pre_bookings = self.database.bookings@;
        let ghost pre_flights = self.database.flights@;

        let cancel_result = self.database.bookings[bidx].cancel();
        match cancel_result {
            Ok(_) => {},
            Err(e) => {
                proof {
                    assert(false);
                }
                return Err(e);
            },
        }

        proof {
            lemma_seat_holder_witness(pre_bookings, flight_id, seat_class, bidx as int);
        }

        let fn_count = self.database.flights.len();
        let mut fidx: usize = 0;
        let mut flight_found = false;
        while fidx < fn_count && !flight_found
            invariant
                0 <= fidx <= fn_count,
                fn_count == self.database.flights@.len(),
                forall|j: int|
                    0 <= j < fidx ==> (#[trigger] self.database.flights@[j]).id != flight_id,
                flight_found ==> fidx < fn_count && self.database.flights@[fidx as int].id
                    == flight_id,
            decreases fn_count - fidx + (if flight_found { 0int } else { 1int }),
        {
            if self.database.flights[fidx].id == flight_id {
                flight_found = true;
            } else {
                fidx = fidx + 1;
            }
        }

        if flight_found {
            proof {
                assert(is_first_flight_with_id(self.database.flights@, flight_id, fidx as int));
                assert(flight_ledger_ok(pre_flights[fidx as int], pre_bookings));
            }
            let fref = &mut self.database.flights[fidx];
            match seat_class {
                SeatClass::Economy => {
                    fref.seat_availability.economy = fref.seat_availability.economy + 1;
                },
                SeatClass::Business => {
                    fref.seat_availability.business = fref.seat_availability.business + 1;
                },
                SeatClass::FirstClass => {
                    fref.seat_availability.first_class = fref.seat_availability.first_class + 1;
                },
            }
            proof {
                assert(self.database.flights@ == pre_flights.update(
                    fidx as int,
                    pre_flights[fidx as int].spec_restore_one(seat_class),
                ));
            }
        }

        proof {
            let nf = self.database.flights@;
            let nb = self.database.bookings@;
            let cancelled = nb[bidx as int];
            assert forall|j: int| 0 <= j < nf.len() implies flight_ledger_ok(
                #[trigger] nf[j],
                nb,
            ) by {
                lemma_count_seat_holders_update(
                    pre_bookings,
                    nf[j].id,
                    SeatClass::Economy,
                    bidx as int,
                    cancelled,
                );
                lemma_count_seat_holders_update(
                    pre_bookings,
                    nf[j].id,
                    SeatClass::Business,
                    bidx as int,
                    cancelled,
                );
                lemma_count_seat_holders_update(
                    pre_bookings,
                    nf[j].id,
                    SeatClass::FirstClass,
                    bidx as int,
                    cancelled,
                );
                if flight_found && j == fidx as int {
                    assert(flight_ledger_ok(pre_flights[j], pre_bookings));
                } else {
                    assert(nf[j] == pre_flights[j]);
                    assert(flight_ledger_ok(pre_flights[j], pre_bookings));
                    if flight_found {
                        if j < fidx as int {
                            assert(pre_flights[j].id != pre_flights[fidx as int].id);
                        } else {
                            assert(pre_flights[fidx as int].id != pre_flights[j].id);
                        }
                    }
                }
            }
        }
        Ok(())
    }
}


/// Whether a flight matches the search criteria: origin and destination
/// codes when given, and the same UTC day as `date` when given.
pub open spec fn spec_search_matches(
    f: Flight,
    origin: Option<&str>,
    destination: Option<&str>,
    date: Option<i64>,
) -> bool {
    &&& (origin matches Some(o) ==> f.origin@ == o@)
    &&& (destination matches Some(d) ==> f.destination@ == d@)
    &&& (date matches Some(t) ==> f.departure_time / 86400 == t / 86400)
}

/// The flights matching the search criteria, in order.
pub open spec fn search_filter(
    s: Seq<Flight>,
    origin: Option<&str>,
    destination: Option<&str>,
    date: Option<i64>,
) -> Seq<Flight>
    decreases s.len(),
{
    if s.len() == 0 {
        Seq::empty()
    } else {
        let rest = search_filter(s.drop_last(), origin, destination, date);
        if spec_search_matches(s.last(), origin, destination, date) {
            rest.push(s.last())
        } else {
            rest
        }
    }
}

/// The flights open for booking at time `now`, in order.
pub open spec fn bookable_filter(s: Seq<Flight>, now: i64) -> Seq<Flight>
    decreases s.len(),
{
    if s.len() == 0 {
        Seq::empty()
    } else {
        let rest = bookable_filter(s.drop_last(), now);
        if s.last().spec_bookable_at(now) {
            rest.push(s.last())
        } else {
            rest
        }
    }
}

/// The aircraft available for assignment (status `Active`), in order.
pub open spec fn available_aircraft_filter(s: Seq<Aircraft>) -> Seq<Aircraft>
    decreases s.len(),
{
    if s.len() == 0 {
        Seq::empty()
    } else {
        let rest = available_aircraft_filter(s.drop_last());
        if s.last().status is Active {
            rest.push(s.last())
        } else {
            rest
        }
    }
}

/// The flights departing from `code`, in order.
pub open spec fn departures_filter(s: Seq<Flight>, code: Seq<char>) -> Seq<Flight>
    decreases s.len(),
{
    if s.len() == 0 {
        Seq::empty()
    } else {
        let rest = departures_filter(s.drop_last(), code);
        if s.last().origin@ == code {
            rest.push(s.last())
        } else {
            rest
        }
    }
}

/// The flights arriving at `code`, in order.
pub open spec fn arrivals_filter(s: Seq<Flight>, code: Seq<char>) -> Seq<Flight>
    decreases s.len(),
{
    if s.len() == 0 {
        Seq::empty()
    } else {
        let rest = arrivals_filter(s.drop_last(), code);
        if s.last().destination@ == code {
            rest.push(s.last())
        } else {
            rest
        }
    }
}

/// How many flights are exactly `OnTime`.
pub open spec fn count_on_time_flights(s: Seq<Flight>) -> nat
    decreases s.len(),
{
    if s.len() == 0 {
        0
    } else {
        count_on_time_flights(s.drop_last()) + if s.last().status is OnTime {
            1nat
        } else {
            0nat
        }
    }
}

/// How many bookings are live (`Confirmed` or `CheckedIn`).
pub open spec fn count_live_bookings(s: Seq<Booking>) -> nat
    decreases s.len(),
{
    if s.len() == 0 {
        0
    } else {
        count_live_bookings(s.drop_last()) + if s.last().status is Confirmed || s.last().status
            is CheckedIn {
            1nat
        } else {
            0nat
        }
    }
}

/// How many bookings are cancelled.
pub open spec fn count_cancelled_bookings(s: Seq<Booking>) -> nat
    decreases s.len(),
{
    if s.len() == 0 {
        0
    } else {
        count_cancelled_bookings(s.drop_last()) + if s.last().status is Cancelled {
            1nat
        } else {
            0nat
        }
    }
}

impl DataManager {
    /// The flights matching the given criteria, in storage order.
    pub fn search_flights(
        &self,
        origin: Option<&str>,
        destination: Option<&str>,
        date: Option<i64>,
    ) -> (r: Vec<&Flight>)
        requires
            self.wf(),
            date matches Some(t) ==> 0 <= t,
        ensures
            r@.len() == search_filter(self.database.flights@, origin, destination, date).len(),
            forall|i: int|
                0 <= i < r@.len() ==> *r@[i] == search_filter(
                    self.database.flights@,
                    origin,
                    destination,
                    date,
                )[i],
    {
        let mut r: Vec<&Flight> = Vec::new();
        let n = self.database.flights.len();
        let mut i: usize = 0;
        proof {
            assert(self.database.flights@.take(0) =~= Seq::<Flight>::empty());
        }
        while i < n
            invariant
                0 <= i <= n,
                n == self.database.flights@.len(),
                self.wf(),
                date matches Some(t) ==> 0 <= t,
                r@.len() == search_filter(
                    self.database.flights@.take(i as int),
                    origin,
                    destination,
                    date,
                ).len(),
                forall|k: int|
                    0 <= k < r@.len() ==> *r@[k] == search_filter(
                        self.database.flights@.take(i as int),
                        origin,
                        destination,
                        date,
                    )[k],
            decreases n - i,
        {
            proof {
                assert(self.database.flights@.take(i + 1).drop_last() =~= self.database.flights@
                    .take(i as int));
                assert(self.database.flights@.take(i + 1).last() == self.database.flights@[
                    i as int]);
                assert(self.database.flights@[i as int].wf());
            }
            let f = &self.database.flights[i];
            let mut matches_search = true;
            match origin {
                Some(o) => {
                    if !text::str_eq(f.origin.as_str(), o) {
                        matches_search = false;
                    }
                },
                None => {},
            }
            match destination {
                Some(d) => {
                    if !text::str_eq(f.destination.as_str(), d) {
                        matches_search = false;
                    }
                },
                None => {},
            }
            match date {
                Some(t) => {
                    if f.departure_time / 86400 != t / 86400 {
                        matches_search = false;
                    }
                },
                None => {},
            }
            if matches_search {
                r.push(f);
            }
            i = i + 1;
        }
        proof {
            assert(self.database.flights@.take(n as int) =~= self.database.flights@);
        }
        r
    }

    /// The flights currently open for booking: exactly those bookable at
    /// the moment the clock was read.
    pub fn get_available_flights(&self) -> (r: Vec<&Flight>)
        ensures
            exists|now: i64|
                #![auto]
                {
                    &&& 0 <= now <= MAX_TIMESTAMP
                    &&& r@.len() == bookable_filter(self.database.flights@, now).len()
                    &&& forall|i: int|
                        0 <= i < r@.len() ==> *r@[i] == bookable_filter(
                            self.database.flights@,
                            now,
                        )[i]
                },
    {
        let now = sys::current_timestamp();
        self.get_available_flights_at(now)
    }

    /// The flights open for booking at time `now`, in storage order.
    pub fn get_available_flights_at(&self, now: i64) -> (r: Vec<&Flight>)
        ensures
            r@.len() == bookable_filter(self.database.flights@, now).len(),
            forall|i: int|
                0 <= i < r@.len() ==> *r@[i] == bookable_filter(self.database.flights@, now)[i],
    {
        let mut r: Vec<&Flight> = Vec::new();
        let n = self.database.flights.len();
        let mut i: usize = 0;
        proof {
            assert(self.database.flights@.take(0) =~= Seq::<Flight>::empty());
        }
        while i < n
            invariant
                0 <= i <= n,
                n == self.database.flights@.len(),
                r@.len() == bookable_filter(self.database.flights@.take(i as int), now).len(),
                forall|k: int|
                    0 <= k < r@.len() ==> *r@[k] == bookable_filter(
                        self.database.flights@.take(i as int),
                        now,
                    )[k],
            decreases n - i,
        {
            proof {
                assert(self.database.flights@.take(i + 1).drop_last() =~= self.database.flights@
                    .take(i as int));
                assert(self.database.flights@.take(i + 1).last() == self.database.flights@[
                    i as int]);
            }
            let f = &self.database.flights[i];
            if f.is_bookable_at(now) {
                r.push(f);
            }
            i = i + 1;
        }
        proof {
            assert(self.database.flights@.take(n as int) =~= self.database.flights@);
        }
        r
    }

    /// The aircraft available for flight assignment (status `Active`).
    pub fn get_available_aircraft(&self) -> (r: Vec<&Aircraft>)
        ensures
            r@.len() == available_aircraft_filter(self.database.aircraft@).len(),
            forall|i: int|
                0 <= i < r@.len() ==> *r@[i] == available_aircraft_filter(
                    self.database.aircraft@,
                )[i],
    {
        let mut r: Vec<&Aircraft> = Vec::new();
        let n = self.database.aircraft.len();
        let mut i: usize = 0;
        proof {
            assert(self.database.aircraft@.take(0) =~= Seq::<Aircraft>::empty());
        }
        while i < n
            invariant
                0 <= i <= n,
                n == self.database.aircraft@.len(),
                r@.len() == available_aircraft_filter(self.database.aircraft@.take(i as int)).len(),
                forall|k: int|
                    0 <= k < r@.len() ==> *r@[k] == available_aircraft_filter(
                        self.database.aircraft@.take(i as int),
                    )[k],
            decreases n - i,
        {
            proof {
                assert(self.database.aircraft@.take(i + 1).drop_last() =~= self.database.aircraft@
                    .take(i as int));
                assert(self.database.aircraft@.take(i + 1).last() == self.database.aircraft@[
                    i as int]);
            }
            let a = &self.database.aircraft[i];
            if a.is_available_for_flight() {
                r.push(a);
            }
            i = i + 1;
        }
        proof {
            assert(self.database.aircraft@.take(n as int) =~= self.database.aircraft@);
        }
        r
    }

    /// The flights departing from the given airport code.
    pub fn get_departures_from_airport(&self, airport_code: &str) -> (r: Vec<&Flight>)
        ensures
            r@.len() == departures_filter(self.database.flights@, airport_code@).len(),
            forall|i: int|
                0 <= i < r@.len() ==> *r@[i] == departures_filter(
                    self.database.flights@,
                    airport_code@,
                )[i],
    {
        let mut r: Vec<&Flight> = Vec::new();
        let n = self.database.flights.len();
        let mut i: usize = 0;
        proof {
            assert(self.database.flights@.take(0) =~= Seq::<Flight>::empty());
        }
        while i < n
            invariant
                0 <= i <= n,
                n == self.database.flights@.len(),
                r@.len() == departures_filter(
                    self.database.flights@.take(i as int),
                    airport_code@,
                ).len(),
                forall|k: int|
                    0 <= k < r@.len() ==> *r@[k] == departures_filter(
                        self.database.flights@.take(i as int),
                        airport_code@,
                    )[k],
            decreases n - i,
        {
            proof {
                assert(self.database.flights@.take(i + 1).drop_last() =~= self.database.flights@
                    .take(i as int));
                assert(self.database.flights@.take(i + 1).last() == self.database.flights@[
                    i as int]);
            }
            let f = &self.database.flights[i];
            if text::str_eq(f.origin.as_str(), airport_code) {
                r.push(f);
            }
            i = i + 1;
        }
        proof {
            assert(self.database.flights@.take(n as int) =~= self.database.flights@);
        }
        r
    }

    /// The flights arriving at the given airport code.
    pub fn get_arrivals_to_airport(&self, airport_code: &str) -> (r: Vec<&Flight>)
        ensures
            r@.len() == arrivals_filter(self.database.flights@, airport_code@).len(),
            forall|i: int|
                0 <= i < r@.len() ==> *r@[i] == arrivals_filter(
                    self.database.flights@,
                    airport_code@,
                )[i],
    {
        let mut r: Vec<&Flight> = Vec::new();
        let n = self.database.flights.len();
        let mut i: usize = 0;
        proof {
            assert(self.database.flights@.take(0) =~= Seq::<Flight>::empty());
        }
        while i < n
            invariant
                0 <= i <= n,
                n == self.database.flights@.len(),
                r@.len() == arrivals_filter(
                    self.database.flights@.take(i as int),
                    airport_code@,
                ).len(),
                forall|k: int|
                    0 <= k < r@.len() ==> *r@[k] == arrivals_filter(
                        self.database.flights@.take(i as int),
                        airport_code@,
                    )[k],
            decreases n - i,
        {
            proof {
                assert(self.database.flights@.take(i + 1).drop_last() =~= self.database.flights@
                    .take(i as int));
                assert(self.database.flights@.take(i + 1).last() == self.database.flights@[
                    i as int]);
            }
            let f = &self.database.flights[i];
            if text::str_eq(f.destination.as_str(), airport_code) {
                r.push(f);
            }
            i = i + 1;
        }
        proof {
            assert(self.database.flights@.take(n as int) =~= self.database.flights@);
        }
        r
    }

    /// Signs an admin in through the panel; the dataset is untouched.
    pub fn authenticate_admin(&mut self, username: &str, password: &str) -> (r: Result<
        AdminUser,
        AirportError,
    >)
        requires
            old(self).wf(),
        ensures
            final(self).wf(),
            r is Ok <==> spec_valid_credentials(username@, password@),
            r matches Ok(a) ==> {
                &&& a.username@ == username@
                &&& a.level == spec_level_for(username@)
                &&& final(self).admin_panel.current_admin == Some(a)
                &&& final(self).admin_panel.audit_log@.len() == old(self).admin_panel.audit_log@.len() + 1
                &&& final(self).admin_panel.audit_log@.take(
                    old(self).admin_panel.audit_log@.len() as int,
                ) == old(self).admin_panel.audit_log@
                &&& final(self).admin_panel.audit_log@.last().action_type@ == "LOGIN"@
                &&& final(self).admin_panel.audit_log@.last().admin_id == a.id
                &&& final(self).admin_panel.pricing_rules == old(self).admin_panel.pricing_rules
                &&& final(self).admin_panel.system_metrics == old(self).admin_panel.system_metrics
            },
            r is Err ==> *final(self) == *old(self),
            final(self).database == old(self).database,
            final(self).last_simulation_update == old(self).last_simulation_update,
            final(self).next_ticket_sequence == old(self).next_ticket_sequence,
    {
        self.admin_panel.authenticate(username, password)
    }

    /// Whether an admin session is open.
    pub fn is_admin_authenticated(&self) -> (r: bool)
        ensures
            r == (self.admin_panel.current_admin is Some),
    {
        self.admin_panel.is_authenticated()
    }

    /// Signs the current admin out; an open session's end is logged, a
    /// call without one only clears the session.
    pub fn logout_admin(&mut self)
        requires
            old(self).wf(),
        ensures
            final(self).wf(),
            final(self).admin_panel.current_admin is None,
            old(self).admin_panel.current_admin matches Some(a) ==> final(self).admin_panel.audit_log@.len() == old(self).admin_panel.audit_log@.len() + 1 && final(self).admin_panel.audit_log@.take(old(self).admin_panel.audit_log@.len() as int) == old(self).admin_panel.audit_log@ && final(self).admin_panel.audit_log@.last().action_type@
                == "LOGOUT"@ && final(self).admin_panel.audit_log@.last().admin_id == a.id,
            old(self).admin_panel.current_admin is None ==> final(self).admin_panel.audit_log
                == old(self).admin_panel.audit_log,
            final(self).admin_panel.pricing_rules == old(self).admin_panel.pricing_rules,
            final(self).admin_panel.system_metrics == old(self).admin_panel.system_metrics,
            final(self).database == old(self).database,
            final(self).last_simulation_update == old(self).last_simulation_update,
            final(self).next_ticket_sequence == old(self).next_ticket_sequence,
    {
        self.admin_panel.logout();
    }

    /// Sets or clears a delay on a flight, admin-gated: requires a signed
    /// in admin with the flight capability; on success the flight's
    /// status (and, for a positive delay, arrival time) change and the
    /// action is logged. An unauthenticated or under-privileged call
    /// fails with nothing mutated and nothing logged.
    pub fn set_flight_delay(&mut self, flight_number: &str, delay_minutes: i32) -> (r: Result<
        (),
        AirportError,
    >)
        requires
            old(self).wf(),
            delay_minutes > 0 ==> forall|i: int|
                0 <= i < old(self).database.flights@.len() && (
                #[trigger] old(self).database.flights@[i]).flight_number@ == flight_number@ ==> old(self).database.flights@[i].arrival_time + 60 * (delay_minutes as i64) <= MAX_TIMESTAMP,
        ensures
            final(self).wf(),
            r is Err ==> *final(self) == *old(self),
            !(old(self).admin_panel.current_admin matches Some(a) && (a.level is SuperAdmin
                || a.level is FlightManager)) ==> (r matches Err(
                AirportError::InsufficientPermissions { .. },
            )),
            (old(self).admin_panel.current_admin matches Some(a) && (a.level is SuperAdmin
                || a.level is FlightManager) && no_flight_with_number(
                old(self).database.flights@,
                flight_number@,
            )) ==> (r matches Err(AirportError::SystemError { .. })),
            r is Ok <==> ((old(self).admin_panel.current_admin matches Some(a) && (
            a.level is SuperAdmin || a.level is FlightManager)) && !no_flight_with_number(
                old(self).database.flights@,
                flight_number@,
            )),
            forall|i: int|
                old(self).admin_panel.current_admin matches Some(a) ==> ((a.level is SuperAdmin
                    || a.level is FlightManager) && #[trigger] is_first_flight_with_number(
                    old(self).database.flights@,
                    flight_number@,
                    i,
                ) ==> {
                    let f = old(self).database.flights@[i];
                    let entry = final(self).admin_panel.audit_log@.last();
                    &&& final(self).database.flights@ == old(self).database.flights@.update(
                        i,
                        f.spec_set_delay(delay_minutes),
                    )
                    &&& final(self).database.bookings == old(self).database.bookings
                    &&& final(self).database.aircraft == old(self).database.aircraft
                    &&& final(self).database.airports == old(self).database.airports
                    &&& final(self).admin_panel.audit_log@.len() == old(self).admin_panel.audit_log@.len() + 1
                    &&& final(self).admin_panel.audit_log@.take(
                        old(self).admin_panel.audit_log@.len() as int,
                    ) == old(self).admin_panel.audit_log@
                    &&& entry.action_type@ == "SET_DELAY"@
                    &&& entry.admin_id == a.id
                    &&& entry.affected_entity_id == Some(f.id)
                    &&& entry.description@ == "Set delay for flight "@ + flight_number@
                    &&& (entry.old_value matches Some(ov) && ov@
                        == crate::modules::flight::spec_status_display(f.status))
                    &&& (entry.new_value matches Some(nv) && nv@
                        == crate::modules::flight::spec_status_display(
                        f.spec_set_delay(delay_minutes).status,
                    ))
                    &&& final(self).admin_panel.current_admin == old(self).admin_panel.current_admin
                    &&& final(self).admin_panel.pricing_rules == old(self).admin_panel.pricing_rules
                    &&& final(self).admin_panel.system_metrics == old(self).admin_panel.system_metrics
                    &&& final(self).last_simulation_update == old(self).last_simulation_update
                    &&& final(self).next_ticket_sequence == old(self).next_ticket_sequence
                }),
    {
        let (admin_id, allowed) = match &self.admin_panel.current_admin {
            Some(admin) => (admin.id, admin.can_manage_flights()),
            None => {
                return Err(
                    AirportError::InsufficientPermissions {
                        operation: String::from_str("manage flights"),
                    },
                );
            },
        };
        if !allowed {
            return Err(
                AirportError::InsufficientPermissions {
                    operation: String::from_str("manage flights"),
                },
            );
        }

        let n = self.database.flights.len();
        let mut idx: usize = 0;
        let mut found = false;
        while idx < n && !found
            invariant
                0 <= idx <= n,
                n == self.database.flights@.len(),
                forall|j: int|
                    0 <= j < idx ==> (#[trigger] self.database.flights@[j]).flight_number@
                        != flight_number@,
                found ==> idx < n && self.database.flights@[idx as int].flight_number@
                    == flight_number@,
            decreases n - idx + (if found { 0int } else { 1int }),
        {
            if text::str_eq(self.database.flights[idx].flight_number.as_str(), flight_number) {
                found = true;
            } else {
                idx = idx + 1;
            }
        }
        if !found {
            return Err(AirportError::SystemError { message: String::from_str("Flight not found") });
        }
        proof {
            assert(is_first_flight_with_number(
                self.database.flights@,
                flight_number@,
                idx as int,
            ));
            assert(self.database.flights@[idx as int].wf());
        }

        let ghost pre_flights = self.database.flights@;
        let old_status = self.database.flights[idx].get_status_display();
        let flight_id = self.database.flights[idx].id;
        self.database.flights[idx].set_delay(delay_minutes);
        let new_status = self.database.flights[idx].get_status_display();

        let mut description = String::from_str("Set delay for flight ");
        description.append(flight_number);
        self.admin_panel.log_action(
            admin_id,
            String::from_str("SET_DELAY"),
            description,
            Some(flight_id),
            Some(old_status),
            Some(new_status),
        );

        proof {
            let nf = self.database.flights@;
            let nb = self.database.bookings@;
            assert forall|j: int| 0 <= j < nf.len() implies flight_ledger_ok(
                #[trigger] nf[j],
                nb,
            ) by {
                assert(flight_ledger_ok(pre_flights[j], nb));
                assert(nf[j].seat_availability == pre_flights[j].seat_availability);
                assert(nf[j].id == pre_flights[j].id);
                assert(nf[j].total_capacity == pre_flights[j].total_capacity);
            }
        }
        Ok(())
    }

    /// Sets a flight's dynamic price multiplier, admin-gated on the
    /// pricing capability; the change is logged. An unauthenticated or
    /// under-privileged call fails with nothing mutated and nothing
    /// logged.
    pub fn set_dynamic_pricing(&mut self, flight_number: &str, multiplier: u64) -> (r: Result<
        (),
        AirportError,
    >)
        requires
            old(self).wf(),
        ensures
            final(self).wf(),
            r is Err ==> *final(self) == *old(self),
            !(old(self).admin_panel.current_admin matches Some(a) && (a.level is SuperAdmin
                || a.level is FinanceManager)) ==> (r matches Err(
                AirportError::InsufficientPermissions { .. },
            )),
            r is Ok <==> ((old(self).admin_panel.current_admin matches Some(a) && (
            a.level is SuperAdmin || a.level is FinanceManager)) && !no_flight_with_number(
                old(self).database.flights@,
                flight_number@,
            )),
            forall|i: int|
                old(self).admin_panel.current_admin matches Some(a) ==> ((a.level is SuperAdmin
                    || a.level is FinanceManager) && #[trigger] is_first_flight_with_number(
                    old(self).database.flights@,
                    flight_number@,
                    i,
                ) ==> {
                    let f = old(self).database.flights@[i];
                    let entry = final(self).admin_panel.audit_log@.last();
                    &&& final(self).database.flights@ == old(self).database.flights@.update(
                        i,
                        Flight {
                            pricing: crate::modules::flight::FlightPricing {
                                dynamic_multiplier: multiplier,
                                ..f.pricing
                            },
                            ..f
                        },
                    )
                    &&& final(self).database.bookings == old(self).database.bookings
                    &&& final(self).admin_panel.audit_log@.len() == old(self).admin_panel.audit_log@.len() + 1
                    &&& final(self).admin_panel.audit_log@.take(
                        old(self).admin_panel.audit_log@.len() as int,
                    ) == old(self).admin_panel.audit_log@
                    &&& entry.action_type@ == "SET_PRICING"@
                    &&& entry.admin_id == a.id
                    &&& entry.affected_entity_id == Some(f.id)
                    &&& entry.description@ == "Set pricing multiplier for flight "@
                        + flight_number@
                    &&& (entry.old_value matches Some(ov) && ov@ == text::dec_digits(
                        f.pricing.dynamic_multiplier as nat,
                    ))
                    &&& (entry.new_value matches Some(nv) && nv@ == text::dec_digits(
                        multiplier as nat,
                    ))
                    &&& final(self).admin_panel.current_admin == old(self).admin_panel.current_admin
                    &&& final(self).admin_panel.pricing_rules == old(self).admin_panel.pricing_rules
                }),
    {
        let (admin_id, allowed) = match &self.admin_panel.current_admin {
            Some(admin) => (admin.id, admin.can_manage_pricing()),
            None => {
                return Err(
                    AirportError::InsufficientPermissions {
                        operation: String::from_str("manage pricing"),
                    },
                );
            },
        };
        if !allowed {
            return Err(
                AirportError::InsufficientPermissions {
                    operation: String::from_str("manage pricing"),
                },
            );
        }

        let n = self.database.flights.len();
        let mut idx: usize = 0;
        let mut found = false;
        while idx < n && !found
            invariant
                0 <= idx <= n,
                n == self.database.flights@.len(),
                forall|j: int|
                    0 <= j < idx ==> (#[trigger] self.database.flights@[j]).flight_number@
                        != flight_number@,
                found ==> idx < n && self.database.flights@[idx as int].flight_number@
                    == flight_number@,
            decreases n - idx + (if found { 0int } else { 1int }),
        {
            if text::str_eq(self.database.flights[idx].flight_number.as_str(), flight_number) {
                found = true;
            } else {
                idx = idx + 1;
            }
        }
        if !found {
            return Err(AirportError::SystemError { message: String::from_str("Flight not found") });
        }
        proof {
            assert(is_first_flight_with_number(
                self.database.flights@,
                flight_number@,
                idx as int,
            ));
        }

        let ghost pre_flights = self.database.flights@;
        let flight_id = self.database.flights[idx].id;
        let old_multiplier = self.database.flights[idx].pricing.dynamic_multiplier;
        self.database.flights[idx].pricing.dynamic_multiplier = multiplier;

        let mut description = String::from_str("Set pricing multiplier for flight ");
        description.append(flight_number);
        self.admin_panel.log_action(
            admin_id,
            String::from_str("SET_PRICING"),
            description,
            Some(flight_id),
            Some(text::u64_to_dec(old_multiplier)),
            Some(text::u64_to_dec(multiplier)),
        );

        proof {
            let nf = self.database.flights@;
            let nb = self.database.bookings@;
            assert forall|j: int| 0 <= j < nf.len() implies flight_ledger_ok(
                #[trigger] nf[j],
                nb,
            ) by {
                assert(flight_ledger_ok(pre_flights[j], nb));
                assert(nf[j].seat_availability == pre_flights[j].seat_availability);
                assert(nf[j].id == pre_flights[j].id);
                assert(nf[j].total_capacity == pre_flights[j].total_capacity);
            }
        }
        Ok(())
    }

    /// The current metrics.
    pub fn get_system_metrics(&self) -> (m: &SystemMetrics)
        ensures
            *m == self.admin_panel.system_metrics,
    {
        &self.admin_panel.system_metrics
    }

    /// Flight counts: total, on time, delayed, cancelled.
    pub fn get_flight_statistics(&self) -> (r: (u32, u32, u32, u32))
        requires
            self.wf(),
        ensures
            r.0 == self.database.flights@.len(),
            r.1 == count_on_time_flights(self.database.flights@),
            r.2 == crate::modules::admin::count_delayed_flights(self.database.flights@),
            r.3 == crate::modules::admin::count_cancelled_flights(self.database.flights@),
    {
        let n = self.database.flights.len();
        let mut on_time: u32 = 0;
        let mut delayed: u32 = 0;
        let mut cancelled: u32 = 0;
        let mut i: usize = 0;
        proof {
            assert(self.database.flights@.take(0) =~= Seq::<Flight>::empty());
        }
        while i < n
            invariant
                0 <= i <= n,
                n == self.database.flights@.len(),
                n <= u32::MAX,
                on_time == count_on_time_flights(self.database.flights@.take(i as int)),
                delayed == crate::modules::admin::count_delayed_flights(
                    self.database.flights@.take(i as int),
                ),
                cancelled == crate::modules::admin::count_cancelled_flights(
                    self.database.flights@.take(i as int),
                ),
                on_time <= i,
                delayed <= i,
                cancelled <= i,
            decreases n - i,
        {
            proof {
                assert(self.database.flights@.take(i + 1).drop_last() =~= self.database.flights@
                    .take(i as int));
                assert(self.database.flights@.take(i + 1).last() == self.database.flights@[
                    i as int]);
            }
            match self.database.flights[i].status {
                FlightStatus::OnTime => {
                    on_time = on_time + 1;
                },
                FlightStatus::Delayed(_) => {
                    delayed = delayed + 1;
                },
                FlightStatus::Cancelled => {
                    cancelled = cancelled + 1;
                },
                _ => {},
            }
            i = i + 1;
        }
        proof {
            assert(self.database.flights@.take(n as int) =~= self.database.flights@);
        }
        (n as u32, on_time, delayed, cancelled)
    }

    /// Booking counts: total, live (confirmed or checked in), cancelled.
    pub fn get_booking_statistics(&self) -> (r: (u32, u32, u32))
        requires
            self.wf(),
        ensures
            r.0 == self.database.bookings@.len(),
            r.1 == count_live_bookings(self.database.bookings@),
            r.2 == count_cancelled_bookings(self.database.bookings@),
    {
        let n = self.database.bookings.len();
        let mut live: u32 = 0;
        let mut cancelled: u32 = 0;
        let mut i: usize = 0;
        proof {
            assert(self.database.bookings@.take(0) =~= Seq::<Booking>::empty());
        }
        while i < n
            invariant
                0 <= i <= n,
                n == self.database.bookings@.len(),
                n <= u32::MAX,
                live == count_live_bookings(self.database.bookings@.take(i as int)),
                cancelled == count_cancelled_bookings(self.database.bookings@.take(i as int)),
                live <= i,
                cancelled <= i,
            decreases n - i,
        {
            proof {
                assert(self.database.bookings@.take(i + 1).drop_last() =~= self.database.bookings@
                    .take(i as int));
                assert(self.database.bookings@.take(i + 1).last() == self.database.bookings@[
                    i as int]);
            }
            match self.database.bookings[i].status {
                BookingStatus::Confirmed | BookingStatus::CheckedIn => {
                    live = live + 1;
                },
                BookingStatus::Cancelled => {
                    cancelled = cancelled + 1;
                },
                _ => {},
            }
            i = i + 1;
        }
        proof {
            assert(self.database.bookings@.take(n as int) =~= self.database.bookings@);
        }
        (n as u32, live, cancelled)
    }
}


/// The status a flight advances to at time `now`: an upcoming flight
/// within 30 minutes of departure starts boarding; once departure has
/// passed it is departed until the arrival time passes, after which it
/// has arrived. `Cancelled` and `Arrived` are terminal. A flight more
/// than 30 minutes from departure keeps its status.
pub open spec fn spec_next_flight_status(f: Flight, now: i64) -> FlightStatus {
    match f.status {
        FlightStatus::OnTime | FlightStatus::Delayed(_) => {
            if 0 < f.departure_time - now && f.departure_time - now <= 1800 {
                FlightStatus::Boarding
            } else if now - f.departure_time >= 0 && f.arrival_time - now > 0 {
                FlightStatus::Departed
            } else if f.arrival_time - now <= 0 {
                FlightStatus::Arrived
            } else {
                f.status
            }
        },
        FlightStatus::Boarding => {
            if now - f.departure_time >= 0 {
                FlightStatus::Departed
            } else {
                FlightStatus::Boarding
            }
        },
        FlightStatus::Departed => {
            if f.arrival_time - now <= 0 {
                FlightStatus::Arrived
            } else {
                FlightStatus::Departed
            }
        },
        other => other,
    }
}

/// A flight still waiting to board keeps its status: with more than 30
/// minutes to departure and the arrival still in the future, the
/// simulator makes no transition. (A schedule whose arrival already
/// passed is sent to `Arrived` by the transition's own precedence.)
pub proof fn lemma_no_transition_before_boarding_window(f: Flight, now: i64)
    requires
        f.has_bookable_status(),
        f.departure_time - now > 1800,
        f.arrival_time > now,
    ensures
        spec_next_flight_status(f, now) == f.status,
{
}

/// All flights advanced to time `now`, statuses only.
pub open spec fn advance_flights(s: Seq<Flight>, now: i64) -> Seq<Flight> {
    Seq::new(s.len(), |i: int| Flight { status: spec_next_flight_status(s[i], now), ..s[i] })
}

/// Whether flight `f` keeps aircraft `aid` busy: it references it and is
/// boarding or departed.
pub open spec fn flight_keeps_aircraft_busy(f: Flight, aid: u128) -> bool {
    f.aircraft_id == aid && (f.status is Boarding || f.status is Departed)
}

/// Whether any flight keeps aircraft `aid` busy.
pub open spec fn has_busy_flight(s: Seq<Flight>, aid: u128) -> bool {
    exists|i: int| 0 <= i < s.len() && flight_keeps_aircraft_busy(#[trigger] s[i], aid)
}

/// The status an aircraft derives from the flights: `Active` becomes
/// `InFlight` while some flight keeps it busy, and `InFlight` reverts to
/// `Active` when none does; `Maintenance` and `Retired` are never touched.
pub open spec fn spec_next_aircraft_status(a: Aircraft, flights: Seq<Flight>) -> AircraftStatus {
    match a.status {
        AircraftStatus::Active => {
            if has_busy_flight(flights, a.id) {
                AircraftStatus::InFlight
            } else {
                AircraftStatus::Active
            }
        },
        AircraftStatus::InFlight => {
            if !has_busy_flight(flights, a.id) {
                AircraftStatus::Active
            } else {
                AircraftStatus::InFlight
            }
        },
        other => other,
    }
}

/// All aircraft statuses derived from the given flights.
pub open spec fn advance_aircraft(s: Seq<Aircraft>, flights: Seq<Flight>) -> Seq<Aircraft> {
    Seq::new(s.len(), |i: int| Aircraft { status: spec_next_aircraft_status(s[i], flights), ..s[i] })
}

/// Whether advancing to `now` would change any flight or aircraft status.
pub open spec fn simulation_would_change(
    flights: Seq<Flight>,
    aircraft: Seq<Aircraft>,
    now: i64,
) -> bool {
    ||| exists|i: int|
        0 <= i < flights.len() && (#[trigger] flights[i]).status != spec_next_flight_status(
            flights[i],
            now,
        )
    ||| exists|i: int|
        0 <= i < aircraft.len() && (#[trigger] aircraft[i]).status != spec_next_aircraft_status(
            aircraft[i],
            advance_flights(flights, now),
        )
}

fn aircraft_is_busy(flights: &Vec<Flight>, aid: u128) -> (r: bool)
    ensures
        r == has_busy_flight(flights@, aid),
{
    let n = flights.len();
    let mut i: usize = 0;
    while i < n
        invariant
            0 <= i <= n,
            n == flights@.len(),
            forall|j: int| 0 <= j < i ==> !flight_keeps_aircraft_busy(#[trigger] flights@[j], aid),
        decreases n - i,
    {
        let f = &flights[i];
        let busy_status = match f.status {
            FlightStatus::Boarding | FlightStatus::Departed => true,
            _ => false,
        };
        if f.aircraft_id == aid && busy_status {
            return true;
        }
        i = i + 1;
    }
    false
}

impl DataManager {
    /// Runs one simulation step at time `now`: every flight advances per
    /// [`spec_next_flight_status`], every aircraft derives its status from
    /// the advanced flights, and when anything changed the metrics are
    /// recomputed from the full collections. The step is recorded as the
    /// last simulation run.
    pub fn simulate_at(&mut self, now: i64)
        requires
            old(self).wf(),
            0 <= now <= MAX_TIMESTAMP,
        ensures
            final(self).wf(),
            final(self).database.flights@ == advance_flights(old(self).database.flights@, now),
            final(self).database.aircraft@ == advance_aircraft(
                old(self).database.aircraft@,
                advance_flights(old(self).database.flights@, now),
            ),
            final(self).database.bookings == old(self).database.bookings,
            final(self).database.airports == old(self).database.airports,
            final(self).admin_panel.current_admin == old(self).admin_panel.current_admin,
            final(self).admin_panel.audit_log == old(self).admin_panel.audit_log,
            final(self).admin_panel.pricing_rules == old(self).admin_panel.pricing_rules,
            final(self).next_ticket_sequence == old(self).next_ticket_sequence,
            final(self).last_simulation_update == now,
            simulation_would_change(
                old(self).database.flights@,
                old(self).database.aircraft@,
                now,
            ) ==> {
                &&& final(self).admin_panel.system_metrics.total_flights == final(self).database.flights@.len()
                &&& final(self).admin_panel.system_metrics.active_flights
                    == crate::modules::admin::count_active_flights(final(self).database.flights@)
                &&& final(self).admin_panel.system_metrics.delayed_flights
                    == crate::modules::admin::count_delayed_flights(final(self).database.flights@)
                &&& final(self).admin_panel.system_metrics.cancelled_flights
                    == crate::modules::admin::count_cancelled_flights(
                    final(self).database.flights@,
                )
                &&& final(self).admin_panel.system_metrics.total_aircraft == final(self).database.aircraft@.len()
                &&& final(self).admin_panel.system_metrics.active_aircraft
                    == crate::modules::admin::count_active_aircraft(final(self).database.aircraft@)
                &&& final(self).admin_panel.system_metrics.aircraft_in_maintenance
                    == crate::modules::admin::count_maintenance_aircraft(
                    final(self).database.aircraft@,
                )
                &&& final(self).admin_panel.system_metrics.total_bookings == old(self).admin_panel.system_metrics.total_bookings
                &&& final(self).admin_panel.system_metrics.revenue_today == old(self).admin_panel.system_metrics.revenue_today
            },
            !simulation_would_change(
                old(self).database.flights@,
                old(self).database.aircraft@,
                now,
            ) ==> final(self).admin_panel.system_metrics == old(self).admin_panel.system_metrics,
    {
        let ghost pre_flights = self.database.flights@;
        let ghost pre_aircraft = self.database.aircraft@;
        let mut updates_made = false;

        let n = self.database.flights.len();
        let mut i: usize = 0;
        while i < n
            invariant
                0 <= i <= n,
                n == self.database.flights@.len(),
                pre_flights.len() == n,
                0 <= now <= MAX_TIMESTAMP,
                forall|j: int| 0 <= j < n ==> (#[trigger] pre_flights[j]).wf(),
                forall|j: int|
                    i <= j < n ==> (#[trigger] self.database.flights@[j]) == pre_flights[j],
                forall|j: int|
                    0 <= j < i ==> (#[trigger] self.database.flights@[j]) == (Flight {
                        status: spec_next_flight_status(pre_flights[j], now),
                        ..pre_flights[j]
                    }),
                updates_made == (exists|j: int|
                    0 <= j < i && (#[trigger] pre_flights[j]).status != spec_next_flight_status(
                        pre_flights[j],
                        now,
                    )),
                self.database.aircraft == old(self).database.aircraft,
                self.database.bookings == old(self).database.bookings,
                self.database.airports == old(self).database.airports,
                self.admin_panel == old(self).admin_panel,
                self.persistence == old(self).persistence,
                self.last_simulation_update == old(self).last_simulation_update,
                self.next_ticket_sequence == old(self).next_ticket_sequence,
            decreases n - i,
        {
            proof {
                assert(pre_flights[i as int].wf());
            }
            let departure_time = self.database.flights[i].departure_time;
            let arrival_time = self.database.flights[i].arrival_time;
            let status = self.database.flights[i].status;
            let new_status = match status {
                FlightStatus::OnTime | FlightStatus::Delayed(_) => {
                    if 0 < departure_time - now && departure_time - now <= 1800 {
                        FlightStatus::Boarding
                    } else if now - departure_time >= 0 && arrival_time - now > 0 {
                        FlightStatus::Departed
                    } else if arrival_time - now <= 0 {
                        FlightStatus::Arrived
                    } else {
                        status
                    }
                },
                FlightStatus::Boarding => {
                    if now - departure_time >= 0 {
                        FlightStatus::Departed
                    } else {
                        FlightStatus::Boarding
                    }
                },
                FlightStatus::Departed => {
                    if arrival_time - now <= 0 {
                        FlightStatus::Arrived
                    } else {
                        FlightStatus::Departed
                    }
                },
                other => other,
            };
            if !(new_status == status) {
                self.database.flights[i].status = new_status;
                updates_made = true;
            }
            proof {
                assert(self.database.flights@[i as int] == (Flight {
                    status: spec_next_flight_status(pre_flights[i as int], now),
                    ..pre_flights[i as int]
                }));
            }
            i = i + 1;
        }
        proof {
            assert(self.database.flights@ =~= advance_flights(pre_flights, now));
        }
        let ghost mid_flights = self.database.flights@;

        let an = self.database.aircraft.len();
        let mut i: usize = 0;
        while i < an
            invariant
                0 <= i <= an,
                an == self.database.aircraft@.len(),
                pre_aircraft.len() == an,
                mid_flights == self.database.flights@,
                forall|j: int|
                    i <= j < an ==> (#[trigger] self.database.aircraft@[j]) == pre_aircraft[j],
                forall|j: int|
                    0 <= j < i ==> (#[trigger] self.database.aircraft@[j]) == (Aircraft {
                        status: spec_next_aircraft_status(pre_aircraft[j], mid_flights),
                        ..pre_aircraft[j]
                    }),
                updates_made == ((exists|j: int|
                    0 <= j < pre_flights.len() && (#[trigger] pre_flights[j]).status
                        != spec_next_flight_status(pre_flights[j], now)) || (exists|j: int|
                    0 <= j < i && (#[trigger] pre_aircraft[j]).status != spec_next_aircraft_status(
                        pre_aircraft[j],
                        mid_flights,
                    ))),
                self.database.bookings == old(self).database.bookings,
                self.database.airports == old(self).database.airports,
                self.admin_panel == old(self).admin_panel,
                self.persistence == old(self).persistence,
                self.last_simulation_update == old(self).last_simulation_update,
                self.next_ticket_sequence == old(self).next_ticket_sequence,
            decreases an - i,
        {
            let aid = self.database.aircraft[i].id;
            let busy = aircraft_is_busy(&self.database.flights, aid);
            let status = self.database.aircraft[i].status;
            let new_status = match status {
                AircraftStatus::Active => {
                    if busy {
                        AircraftStatus::InFlight
                    } else {
                        AircraftStatus::Active
                    }
                },
                AircraftStatus::InFlight => {
                    if !busy {
                        AircraftStatus::Active
                    } else {
                        AircraftStatus::InFlight
                    }
                },
                other => other,
            };
            if !(new_status == status) {
                self.database.aircraft[i].status = new_status;
                updates_made = true;
            }
            proof {
                assert(self.database.aircraft@[i as int] == (Aircraft {
                    status: spec_next_aircraft_status(pre_aircraft[i as int], mid_flights),
                    ..pre_aircraft[i as int]
                }));
            }
            i = i + 1;
        }
        proof {
            assert(self.database.aircraft@ =~= advance_aircraft(pre_aircraft, mid_flights));
            assert(updates_made == simulation_would_change(pre_flights, pre_aircraft, now));
        }

        if updates_made {
            self.admin_panel.system_metrics.update_flight_metrics(&self.database.flights);
            self.admin_panel.system_metrics.update_aircraft_metrics(&self.database.aircraft);
        }
        self.last_simulation_update = now;

        proof {
            let nf = self.database.flights@;
            let nb = self.database.bookings@;
            assert forall|j: int| 0 <= j < nf.len() implies flight_ledger_ok(
                #[trigger] nf[j],
                nb,
            ) by {
                assert(flight_ledger_ok(pre_flights[j], nb));
                assert(nf[j].seat_availability == pre_flights[j].seat_availability);
                assert(nf[j].id == pre_flights[j].id);
                assert(nf[j].total_capacity == pre_flights[j].total_capacity);
            }
        }
    }

    /// Runs the simulator if at least 60 seconds have passed since the
    /// last run; within the cooldown the call is a no-op and the last-run
    /// time is left untouched, so future ticks are not starved.
    pub fn update_simulation(&mut self)
        requires
            old(self).wf(),
        ensures
            final(self).wf(),
            final(self).database.bookings == old(self).database.bookings,
            final(self).database.airports == old(self).database.airports,
            final(self).admin_panel.current_admin == old(self).admin_panel.current_admin,
            final(self).admin_panel.audit_log == old(self).admin_panel.audit_log,
            final(self).admin_panel.pricing_rules == old(self).admin_panel.pricing_rules,
            exists|now: i64| #[trigger] simulation_tick_ok(*old(self), *final(self), now),
    {
        let now = sys::current_timestamp();
        if now - self.last_simulation_update < 60 {
            proof {
                assert(simulation_tick_ok(*old(self), *self, now));
            }
            return ;
        }
        self.simulate_at(now);
        proof {
            assert(simulation_tick_ok(*old(self), *self, now));
        }
    }
}

/// One simulator tick observed at clock reading `now`: within the
/// 60-second cooldown of the previous run nothing changes at all (the
/// last-run time included, so future ticks are not starved); at or past
/// it, every status advances to `now` and the run is recorded.
pub open spec fn simulation_tick_ok(pre: DataManager, post: DataManager, now: i64) -> bool {
    &&& 0 <= now <= MAX_TIMESTAMP
    &&& (now < pre.last_simulation_update + 60 ==> post == pre)
    &&& (now >= pre.last_simulation_update + 60 ==> {
        &&& post.database.flights@ == advance_flights(pre.database.flights@, now)
        &&& post.database.aircraft@ == advance_aircraft(
            pre.database.aircraft@,
            advance_flights(pre.database.flights@, now),
        )
        &&& post.last_simulation_update == now
    })
}


} // verus!
