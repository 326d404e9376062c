//! Booking creation, cancellation, and the seat inventory round trip.

use rust_international_airport::data::manager::DataManager;
use rust_international_airport::data::persistence::AirportDatabase;
use rust_international_airport::errors::AirportError;
use rust_international_airport::modules::admin::PricingRule;
use rust_international_airport::modules::booking::{BookingStatus, Passenger, PassengerType};
use rust_international_airport::modules::flight::{Flight, FlightStatus, SeatClass};
use rust_international_airport::utils::format_currency;

/// A departure at 07:30 UTC on an arbitrary day.
const DEPARTURE: i64 = 999993600 + 7 * 3600 + 1800;
/// Two hours before departure.
const NOW: i64 = DEPARTURE - 7200;

fn passenger() -> Passenger {
    Passenger::new(
        String::from("Ada"),
        String::from("Lovelace"),
        String::from("ada@example.com"),
        String::from("555-0100"),
        String::from("1815-12-10"),
        PassengerType::Adult,
    )
}

fn manager_with_flight(number: &str, capacity: u32) -> (DataManager, u128) {
    let flight = Flight::new(
        String::from(number),
        String::from("Rust International Airways"),
        String::from("LAX"),
        String::from("JFK"),
        DEPARTURE,
        DEPARTURE + 8 * 3600,
        42,
        capacity,
    );
    let flight_id = flight.id;
    let db = AirportDatabase {
        flights: vec![flight],
        aircraft: vec![],
        bookings: vec![],
        airports: vec![],
    };
    let mut dm = DataManager::new(db);
    // Start from a clean rule set; tests add the rules they need.
    dm.admin_panel.pricing_rules = Vec::new();
    (dm, flight_id)
}

#[test]
fn booking_round_trip_restores_the_seat() {
    let (mut dm, flight_id) = manager_with_flight("RIA102", 100);
    let before = dm.database.flights[0].get_available_seats(&SeatClass::Economy);
    assert!(before > 0);

    let booking_id = dm
        .create_booking_at(flight_id, passenger(), SeatClass::Economy, NOW)
        .expect("booking should succeed");
    assert_eq!(
        dm.database.flights[0].get_available_seats(&SeatClass::Economy),
        before - 1
    );

    let ticket = dm
        .get_booking_by_id(booking_id)
        .expect("booking should be recorded")
        .ticket_number
        .clone();
    dm.cancel_booking(ticket.as_str()).expect("cancel should succeed");
    assert_eq!(
        dm.database.flights[0].get_available_seats(&SeatClass::Economy),
        before
    );
    assert!(matches!(
        dm.get_booking_by_ticket(ticket.as_str()).unwrap().status,
        BookingStatus::Cancelled
    ));

    // A second cancel fails and credits no second seat.
    let second = dm.cancel_booking(ticket.as_str());
    assert!(matches!(second, Err(AirportError::ValidationError { .. })));
    assert_eq!(
        dm.database.flights[0].get_available_seats(&SeatClass::Economy),
        before
    );
}

#[test]
fn booking_fails_without_seats_and_mutates_nothing() {
    let (mut dm, flight_id) = manager_with_flight("RIA103", 100);
    dm.database.flights[0].seat_availability.first_class = 0;
    let seats_before = dm.database.flights[0].seat_availability;
    let bookings_before = dm.database.bookings.len();

    let r = dm.create_booking_at(flight_id, passenger(), SeatClass::FirstClass, NOW);
    assert!(matches!(
        r,
        Err(AirportError::NoSeatsAvailable { class: SeatClass::FirstClass })
    ));
    assert_eq!(dm.database.flights[0].seat_availability, seats_before);
    assert_eq!(dm.database.bookings.len(), bookings_before);
}

#[test]
fn booking_fails_on_missing_flight() {
    let (mut dm, flight_id) = manager_with_flight("RIA104", 100);
    let other = flight_id.wrapping_add(1);
    let r = dm.create_booking_at(other, passenger(), SeatClass::Economy, NOW);
    assert!(matches!(r, Err(AirportError::FlightNotFound { flight_id: f }) if f == other));
}

#[test]
fn booking_fails_on_unbookable_flight() {
    let (mut dm, flight_id) = manager_with_flight("RIA105", 100);
    dm.database.flights[0].status = FlightStatus::Cancelled;
    let r = dm.create_booking_at(flight_id, passenger(), SeatClass::Economy, NOW);
    assert!(matches!(r, Err(AirportError::FlightNotAvailable { .. })));
    // A flight whose departure has passed is not bookable either.
    dm.database.flights[0].status = FlightStatus::OnTime;
    let r = dm.create_booking_at(flight_id, passenger(), SeatClass::Economy, DEPARTURE + 1);
    assert!(matches!(r, Err(AirportError::FlightNotAvailable { .. })));
}

#[test]
fn cancel_fails_on_unknown_ticket() {
    let (mut dm, _) = manager_with_flight("RIA106", 100);
    let r = dm.cancel_booking("RIA999999");
    assert!(matches!(r, Err(AirportError::BookingNotFound { .. })));
}

#[test]
fn peak_hours_scenario_prices_the_ticket() {
    // Flight RIA101, Economy base price $299.99, one active rule
    // "Peak Hours Premium" (hours 6 through 9, times 1.3) on all routes,
    // booked at departure hour 7.
    let (mut dm, flight_id) = manager_with_flight("RIA101", 100);
    dm.admin_panel.pricing_rules.push(PricingRule::new(
        String::from("Peak Hours Premium"),
        None,
        Some((6, 9)),
        1300,
        7,
    ));
    assert_eq!(dm.database.flights[0].pricing.economy, 299990);
    let economy_before = dm.database.flights[0].get_available_seats(&SeatClass::Economy);

    let booking_id = dm
        .create_booking_at(flight_id, passenger(), SeatClass::Economy, NOW)
        .expect("booking should succeed");

    let amount = dm
        .get_booking_by_id(booking_id)
        .expect("booking should be recorded")
        .payment
        .total_amount;
    // $299.99 * 1.3 = $389.987 exactly, in mills.
    assert_eq!(amount, 389987);
    // The display convention rounds to cents.
    assert_eq!(format_currency(amount, "USD"), "$389.99");
    assert_eq!(
        dm.database.flights[0].get_available_seats(&SeatClass::Economy),
        economy_before - 1
    );
    // Business inventory is untouched.
    assert_eq!(
        dm.database.flights[0].get_available_seats(&SeatClass::Business),
        25
    );
}

#[test]
fn tickets_are_issued_in_sequence_and_stay_unique() {
    let (mut dm, flight_id) = manager_with_flight("RIA108", 100);
    let first = dm
        .create_booking_at(flight_id, passenger(), SeatClass::Economy, NOW)
        .expect("booking should succeed");
    let second = dm
        .create_booking_at(flight_id, passenger(), SeatClass::Economy, NOW)
        .expect("booking should succeed");
    let t1 = dm.get_booking_by_id(first).unwrap().ticket_number.clone();
    let t2 = dm.get_booking_by_id(second).unwrap().ticket_number.clone();
    assert_ne!(t1, t2);
    assert!(t1.starts_with("RIA"));
    assert!(t2.starts_with("RIA"));
    // Cancelling by ticket touches exactly the booking that holds it.
    dm.cancel_booking(t1.as_str()).expect("cancel should succeed");
    assert!(matches!(
        dm.get_booking_by_ticket(t1.as_str()).unwrap().status,
        BookingStatus::Cancelled
    ));
    assert!(matches!(
        dm.get_booking_by_ticket(t2.as_str()).unwrap().status,
        BookingStatus::Confirmed
    ));
}

#[test]
fn booking_metrics_accumulate() {
    let (mut dm, flight_id) = manager_with_flight("RIA107", 100);
    assert_eq!(dm.admin_panel.system_metrics.total_bookings, 0);
    let before_revenue = dm.admin_panel.system_metrics.revenue_today;
    dm.create_booking_at(flight_id, passenger(), SeatClass::Business, NOW)
        .expect("booking should succeed");
    assert_eq!(dm.admin_panel.system_metrics.total_bookings, 1);
    // Business base price is $899.99 with no rules and multiplier 1.0.
    assert_eq!(
        dm.admin_panel.system_metrics.revenue_today,
        before_revenue + 899990
    );
}
