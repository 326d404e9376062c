//! The in-memory dataset and its integrity checks. Loading and saving the
//! dataset are the host's concern; the checks over a loaded dataset are
//! the library's.

use vstd::prelude::*;
use vstd::string::*;
use crate::modules::aircraft::Aircraft;
use crate::modules::airport::{string_views, Airport};
use crate::modules::booking::Booking;
use crate::modules::flight::Flight;
use crate::text;

verus! {

/// The complete in-memory dataset.
#[derive(Debug)]
pub struct AirportDatabase {
    pub flights: Vec<Flight>,
    pub aircraft: Vec<Aircraft>,
    pub bookings: Vec<Booking>,
    pub airports: Vec<Airport>,
}

/// Where the dataset is kept on disk. The host performs the reading and
/// writing; this type only fixes the location.
#[derive(Debug)]
pub struct DataPersistence {
    /// Directory the data files live in.
    pub data_dir: String,
}

impl DataPersistence {
    /// The default location, the `data` directory.
    pub fn new() -> (p: DataPersistence)
        ensures
            p.data_dir@ == "data"@,
    {
        DataPersistence { data_dir: String::from_str("data") }
    }
}

/// Whether some aircraft in `s` has the identifier `id`.
pub open spec fn has_aircraft_id(s: Seq<Aircraft>, id: u128) -> bool {
    exists|i: int| 0 <= i < s.len() && s[i].id == id
}

/// Whether some flight in `s` has the identifier `id`.
pub open spec fn has_flight_id(s: Seq<Flight>, id: u128) -> bool {
    exists|i: int| 0 <= i < s.len() && s[i].id == id
}

/// Whether some airport in `s` has the code `code`.
pub open spec fn has_airport_code(s: Seq<Airport>, code: Seq<char>) -> bool {
    exists|i: int| 0 <= i < s.len() && s[i].code@ == code
}

/// The message reporting a flight whose aircraft is missing.
pub open spec fn aircraft_issue_message(f: Flight) -> Seq<char> {
    "Flight "@ + f.flight_number@ + " references non-existent aircraft "@ + text::dec_digits(
        f.aircraft_id as nat,
    )
}

/// The message reporting a booking whose flight is missing.
pub open spec fn booking_issue_message(b: Booking) -> Seq<char> {
    "Booking "@ + b.ticket_number@ + " references non-existent flight "@ + text::dec_digits(
        b.flight_id as nat,
    )
}

/// The message reporting a flight with an unknown origin code.
pub open spec fn origin_issue_message(f: Flight) -> Seq<char> {
    "Flight "@ + f.flight_number@ + " has invalid origin airport: "@ + f.origin@
}

/// The message reporting a flight with an unknown destination code.
pub open spec fn destination_issue_message(f: Flight) -> Seq<char> {
    "Flight "@ + f.flight_number@ + " has invalid destination airport: "@ + f.destination@
}

/// One message per flight whose aircraft is missing, in flight order.
pub open spec fn aircraft_issues(flights: Seq<Flight>, aircraft: Seq<Aircraft>) -> Seq<Seq<char>>
    decreases flights.len(),
{
    if flights.len() == 0 {
        Seq::empty()
    } else {
        let rest = aircraft_issues(flights.drop_last(), aircraft);
        if !has_aircraft_id(aircraft, flights.last().aircraft_id) {
            rest.push(aircraft_issue_message(flights.last()))
        } else {
            rest
        }
    }
}

/// One message per booking whose flight is missing, in booking order.
pub open spec fn booking_issues(bookings: Seq<Booking>, flights: Seq<Flight>) -> Seq<Seq<char>>
    decreases bookings.len(),
{
    if bookings.len() == 0 {
        Seq::empty()
    } else {
        let rest = booking_issues(bookings.drop_last(), flights);
        if !has_flight_id(flights, bookings.last().flight_id) {
            rest.push(booking_issue_message(bookings.last()))
        } else {
            rest
        }
    }
}

/// Origin and destination messages per flight with an unknown airport
/// code, in flight order, origin first.
pub open spec fn airport_code_issues(flights: Seq<Flight>, airports: Seq<Airport>) -> Seq<
    Seq<char>,
>
    decreases flights.len(),
{
    if flights.len() == 0 {
        Seq::empty()
    } else {
        let rest = airport_code_issues(flights.drop_last(), airports);
        let f = flights.last();
        let with_origin = if !has_airport_code(airports, f.origin@) {
            rest.push(origin_issue_message(f))
        } else {
            rest
        };
        if !has_airport_code(airports, f.destination@) {
            with_origin.push(destination_issue_message(f))
        } else {
            with_origin
        }
    }
}

/// All integrity messages of a dataset: missing aircraft, then missing
/// flights, then unknown airport codes.
pub open spec fn integrity_issues(db: AirportDatabase) -> Seq<Seq<char>> {
    aircraft_issues(db.flights@, db.aircraft@) + booking_issues(db.bookings@, db.flights@)
        + airport_code_issues(db.flights@, db.airports@)
}

fn aircraft_id_exists(aircraft: &Vec<Aircraft>, id: u128) -> (r: bool)
    ensures
        r == has_aircraft_id(aircraft@, id),
{
    let n = aircraft.len();
    let mut i: usize = 0;
    while i < n
        invariant
            0 <= i <= n,
            n == aircraft@.len(),
            forall|j: int| 0 <= j < i ==> aircraft@[j].id != id,
        decreases n - i,
    {
        if aircraft[i].id == id {
            return true;
        }
        i = i + 1;
    }
    false
}

fn flight_id_exists(flights: &Vec<Flight>, id: u128) -> (r: bool)
    ensures
        r == has_flight_id(flights@, id),
{
    let n = flights.len();
    let mut i: usize = 0;
    while i < n
        invariant
            0 <= i <= n,
            n == flights@.len(),
            forall|j: int| 0 <= j < i ==> flights@[j].id != id,
        decreases n - i,
    {
        if flights[i].id == id {
            return true;
        }
        i = i + 1;
    }
    false
}

fn airport_code_exists(airports: &Vec<Airport>, code: &str) -> (r: bool)
    ensures
        r == has_airport_code(airports@, code@),
{
    let n = airports.len();
    let mut i: usize = 0;
    while i < n
        invariant
            0 <= i <= n,
            n == airports@.len(),
            forall|j: int| 0 <= j < i ==> airports@[j].code@ != code@,
        decreases n - i,
    {
        if text::str_eq(airports[i].code.as_str(), code) {
            return true;
        }
        i = i + 1;
    }
    false
}

impl AirportDatabase {
    /// Cross-checks the dataset: every flight's aircraft exists, every
    /// booking's flight exists, every flight's origin and destination are
    /// known airport codes. Returns one descriptive message per violation.
    pub fn validate_integrity(&self) -> (issues: Vec<String>)
        ensures
            string_views(issues@) == integrity_issues(*self),
    {
        let mut issues: Vec<String> = Vec::new();

        let n = self.flights.len();
        let mut i: usize = 0;
        proof {
            assert(self.flights@.take(0) =~= Seq::<Flight>::empty());
            assert(string_views(issues@) =~= aircraft_issues(
                self.flights@.take(0),
                self.aircraft@,
            ));
        }
        while i < n
            invariant
                0 <= i <= n,
                n == self.flights@.len(),
                string_views(issues@) == aircraft_issues(
                    self.flights@.take(i as int),
                    self.aircraft@,
                ),
            decreases n - i,
        {
            proof {
                assert(self.flights@.take(i + 1).drop_last() =~= self.flights@.take(i as int));
                assert(self.flights@.take(i + 1).last() == self.flights@[i as int]);
            }
            let f = &self.flights[i];
            if !aircraft_id_exists(&self.aircraft, f.aircraft_id) {
                let mut m = String::from_str("Flight ");
                m.append(f.flight_number.as_str());
                m.append(" references non-existent aircraft ");
                let d = text::u128_to_dec(f.aircraft_id);
                m.append(d.as_str());
                let ghost pre = issues@;
                proof {
                    assert(m@ =~= aircraft_issue_message(self.flights@[i as int]));
                }
                issues.push(m);
                proof {
                    assert(issues@.drop_last() =~= pre);
                }
            }
            i = i + 1;
        }
        proof {
            assert(self.flights@.take(n as int) =~= self.flights@);
        }

        let ghost after_aircraft = issues@;

        let bn = self.bookings.len();
        let mut i: usize = 0;
        proof {
            assert(self.bookings@.take(0) =~= Seq::<Booking>::empty());
            assert(string_views(issues@) =~= string_views(after_aircraft) + booking_issues(
                self.bookings@.take(0),
                self.flights@,
            ));
        }
        while i < bn
            invariant
                0 <= i <= bn,
                bn == self.bookings@.len(),
                string_views(issues@) == string_views(after_aircraft) + booking_issues(
                    self.bookings@.take(i as int),
                    self.flights@,
                ),
            decreases bn - i,
        {
            proof {
                assert(self.bookings@.take(i + 1).drop_last() =~= self.bookings@.take(i as int));
                assert(self.bookings@.take(i + 1).last() == self.bookings@[i as int]);
            }
            let b = &self.bookings[i];
            if !flight_id_exists(&self.flights, b.flight_id) {
                let mut m = String::from_str("Booking ");
                m.append(b.ticket_number.as_str());
                m.append(" references non-existent flight ");
                let d = text::u128_to_dec(b.flight_id);
                m.append(d.as_str());
                let ghost pre = issues@;
                proof {
                    assert(m@ =~= booking_issue_message(self.bookings@[i as int]));
                }
                issues.push(m);
                proof {
                    assert(issues@.drop_last() =~= pre);
                    let a = string_views(after_aircraft);
                    let rest = booking_issues(self.bookings@.take(i as int), self.flights@);
                    assert((a + rest).push(m@) =~= a + rest.push(m@));
                }
            }
            i = i + 1;
        }
        proof {
            assert(self.bookings@.take(bn as int) =~= self.bookings@);
        }

        let ghost after_bookings = issues@;

        let mut i: usize = 0;
        proof {
            assert(self.flights@.take(0) =~= Seq::<Flight>::empty());
            assert(string_views(issues@) =~= string_views(after_bookings) + airport_code_issues(
                self.flights@.take(0),
                self.airports@,
            ));
        }
        while i < n
            invariant
                0 <= i <= n,
                n == self.flights@.len(),
                string_views(issues@) == string_views(after_bookings) + airport_code_issues(
                    self.flights@.take(i as int),
                    self.airports@,
                ),
            decreases n - i,
        {
            proof {
                assert(self.flights@.take(i + 1).drop_last() =~= self.flights@.take(i as int));
                assert(self.flights@.take(i + 1).last() == self.flights@[i as int]);
            }
            let f = &self.flights[i];
            let ghost a = string_views(after_bookings);
            let ghost rest = airport_code_issues(self.flights@.take(i as int), self.airports@);
            if !airport_code_exists(&self.airports, f.origin.as_str()) {
                let mut m = String::from_str("Flight ");
                m.append(f.flight_number.as_str());
                m.append(" has invalid origin airport: ");
                m.append(f.origin.as_str());
                let ghost pre = issues@;
                proof {
                    assert(m@ =~= origin_issue_message(self.flights@[i as int]));
                }
                issues.push(m);
                proof {
                    assert(issues@.drop_last() =~= pre);
                    assert(string_views(issues@) == string_views(pre).push(m@));
                    assert((a + rest).push(m@) =~= a + rest.push(m@));
                    assert(string_views(issues@) == a + rest.push(
                        origin_issue_message(self.flights@[i as int]),
                    ));
                }
            }
            let ghost with_origin = if !has_airport_code(self.airports@, self.flights@[
                i as int
            ].origin@) {
                rest.push(origin_issue_message(self.flights@[i as int]))
            } else {
                rest
            };
            if !airport_code_exists(&self.airports, f.destination.as_str()) {
                let mut m = String::from_str("Flight ");
                m.append(f.flight_number.as_str());
                m.append(" has invalid destination airport: ");
                m.append(f.destination.as_str());
                let ghost pre = issues@;
                proof {
                    assert(m@ =~= destination_issue_message(self.flights@[i as int]));
                }
                issues.push(m);
                proof {
                    assert(issues@.drop_last() =~= pre);
                    assert(string_views(issues@) == string_views(pre).push(m@));
                    assert(string_views(pre) == a + with_origin);
                    assert((a + with_origin).push(m@) =~= a + with_origin.push(m@));
                    assert(string_views(issues@) == a + with_origin.push(
                        destination_issue_message(self.flights@[i as int]),
                    ));
                }
            }
            proof {
                let ts = self.flights@;
                let f2 = ts[i as int];
                let fin = if !has_airport_code(self.airports@, f2.destination@) {
                    with_origin.push(destination_issue_message(f2))
                } else {
                    with_origin
                };
                assert(airport_code_issues(ts.take(i + 1), self.airports@) == fin);
                assert(string_views(issues@) == a + fin);
            }
            i = i + 1;
        }
        proof {
            assert(self.flights@.take(n as int) =~= self.flights@);
        }
        issues
    }
}

} // verus!
