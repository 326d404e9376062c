//! Entity constructors: flights, aircraft, airports, bookings and their
//! displays.

use rust_international_airport::modules::aircraft::{Aircraft, AircraftStatus};
use rust_international_airport::modules::airport::{Airport, AirportSize};
use rust_international_airport::modules::booking::{
    ticket_number_from, Booking, BookingStatus, Passenger, PassengerType, SeatAssignment,
};
use rust_international_airport::modules::flight::{Flight, FlightStatus, SeatClass};

fn sample_flight(capacity: u32) -> Flight {
    Flight::new(
        String::from("RIA401"),
        String::from("Rust International Airways"),
        String::from("LAX"),
        String::from("JFK"),
        1_000_000_000,
        1_000_030_000,
        42,
        capacity,
    )
}

#[test]
fn flight_inventory_splits_seventy_twentyfive_five() {
    let f = sample_flight(100);
    assert_eq!(f.seat_availability.economy, 70);
    assert_eq!(f.seat_availability.business, 25);
    assert_eq!(f.seat_availability.first_class, 5);
    assert_eq!(f.total_capacity, 100);
    assert!(matches!(f.status, FlightStatus::OnTime));
    assert_eq!(f.pricing.economy, 299990);
    assert_eq!(f.pricing.business, 899990);
    assert_eq!(f.pricing.first_class, 1999990);
    assert_eq!(f.pricing.dynamic_multiplier, 1000);
    assert_eq!(f.duration(), 30000);
    // The split always sums to the capacity, remainder to first class.
    let g = sample_flight(853);
    assert_eq!(
        g.seat_availability.economy + g.seat_availability.business
            + g.seat_availability.first_class,
        853
    );
}

#[test]
fn flight_status_displays() {
    let mut f = sample_flight(100);
    assert_eq!(f.get_status_display(), "On Time");
    f.status = FlightStatus::Delayed(30);
    assert_eq!(f.get_status_display(), "Delayed 30 min");
    f.status = FlightStatus::Boarding;
    assert_eq!(f.get_status_display(), "Boarding");
    f.set_gate(String::from("A7"));
    assert_eq!(f.gate.as_deref(), Some("A7"));
}

#[test]
fn set_delay_shifts_arrival_forward_only() {
    let mut f = sample_flight(100);
    let arrival = f.arrival_time;
    f.set_delay(20);
    assert!(matches!(f.status, FlightStatus::Delayed(20)));
    assert_eq!(f.arrival_time, arrival + 1200);
    f.set_delay(0);
    assert!(matches!(f.status, FlightStatus::OnTime));
    assert_eq!(f.arrival_time, arrival + 1200);
}

#[test]
fn aircraft_registry_knows_its_models() {
    let a = Aircraft::new(
        String::from("N123RIA"),
        String::from("Boeing 737-800"),
        String::from("Boeing"),
        2020,
    );
    assert_eq!(a.total_capacity, 28 * 6 + 4 * 4 + 2 * 4);
    assert_eq!(a.performance.range_km, 5665);
    assert!(matches!(a.status, AircraftStatus::Active));
    assert!(a.is_available_for_flight());
    assert_eq!(a.get_age(), 5);
    assert_eq!(a.get_seats_by_class(&SeatClass::Economy), 168);
    assert_eq!(
        a.get_detailed_specs(),
        "Model: Boeing 737-800 | Capacity: 192 seats | Range: 5665 km | Fuel Efficiency: 3.2L/100km"
    );
    let unknown = Aircraft::new(
        String::from("N999RIA"),
        String::from("Custom Jet"),
        String::from("Custom"),
        2024,
    );
    assert_eq!(unknown.total_capacity, 20 * 6 + 3 * 4 + 2 * 4);
}

#[test]
fn aircraft_maintenance_cycle() {
    let mut a = Aircraft::new(
        String::from("N456RIA"),
        String::from("Airbus A320"),
        String::from("Airbus"),
        2019,
    );
    // 100 flown hours (in tenths) trigger maintenance.
    a.add_flight_hours(999);
    assert!(matches!(a.status, AircraftStatus::Active));
    a.add_flight_hours(1);
    assert!(matches!(a.status, AircraftStatus::Maintenance));
    a.perform_maintenance(1000);
    assert!(matches!(a.status, AircraftStatus::Active));
}

#[test]
fn hub_airport_infrastructure() {
    let lax = Airport::new(
        String::from("LAX"),
        String::from("KLAX"),
        String::from("Los Angeles International Airport"),
        String::from("Los Angeles"),
        String::from("United States"),
        String::from("America/Los_Angeles"),
        33_942_500,
        -118_408_100,
        38,
    );
    assert!(matches!(lax.airport_size, AirportSize::Hub));
    assert_eq!(lax.terminals.len(), 3);
    assert_eq!(lax.runways.len(), 3);
    assert_eq!(lax.terminals[0].gates.len(), 30);
    assert_eq!(lax.terminals[0].gates[0], "A1");
    assert_eq!(lax.terminals[1].gates[24], "B25");
    assert_eq!(lax.annual_passengers, 80_000_000);
    assert_eq!(lax.get_all_gates().len(), 75);
    assert_eq!(lax.find_available_gate().as_deref(), Some("A1"));
    assert_eq!(lax.get_terminal_info(), "3 terminals, 75 gates");
    assert_eq!(lax.get_size_display(), "International Hub");
    // Operating hours are inclusive 5 through 23.
    assert!(!lax.is_operating(4));
    assert!(lax.is_operating(5));
    assert!(lax.is_operating(23));
    assert!(lax.can_handle_aircraft(3500));
    assert!(!lax.can_handle_aircraft(5000));

    let small = Airport::new(
        String::from("XYZ"),
        String::from("KXYZ"),
        String::from("Somewhere Regional"),
        String::from("Somewhere"),
        String::from("United States"),
        String::from("America/Chicago"),
        30_000_000,
        -95_000_000,
        100,
    );
    assert!(matches!(small.airport_size, AirportSize::Small));
    assert_eq!(small.terminals.len(), 1);
    assert_eq!(small.terminals[0].gates.len(), 6);
}

#[test]
fn seat_assignment_characteristics() {
    let window_exit = SeatAssignment::new(String::from("12A"), SeatClass::Economy);
    assert!(window_exit.is_window);
    assert!(!window_exit.is_aisle);
    assert!(window_exit.is_emergency_exit);
    assert_eq!(window_exit.get_seat_type(), "Window + Emergency Exit");

    let aisle = SeatAssignment::new(String::from("3C"), SeatClass::Business);
    assert!(aisle.is_aisle);
    assert!(!aisle.is_emergency_exit);
    assert_eq!(aisle.get_seat_type(), "Aisle");

    let middle = SeatAssignment::new(String::from("20B"), SeatClass::Economy);
    assert_eq!(middle.get_seat_type(), "Middle");

    // No leading digits falls back to row 1.
    let odd = SeatAssignment::new(String::from("XF"), SeatClass::Economy);
    assert!(odd.is_window);
    assert!(!odd.is_emergency_exit);
}

#[test]
fn booking_status_machine() {
    let p = Passenger::new(
        String::from("Ada"),
        String::from("Lovelace"),
        String::from("ada@example.com"),
        String::from("555-0100"),
        String::from("1815-12-10"),
        PassengerType::Adult,
    );
    assert_eq!(p.full_name(), "Ada Lovelace");
    let mut b = Booking::new(7, p, SeatClass::Economy, 389987, String::from("Credit Card"));
    assert!(matches!(b.status, BookingStatus::Confirmed));
    assert_eq!(b.baggage_count, 1);
    assert!(b.ticket_number.starts_with("RIA"));
    assert_eq!(b.ticket_number.len(), 9);
    assert!(b.can_be_modified());

    // Boarding before check-in is rejected.
    assert!(b.board().is_err());
    b.check_in().expect("check-in from confirmed");
    assert!(matches!(b.status, BookingStatus::CheckedIn));
    assert!(b.check_in().is_err());
    b.board().expect("board after check-in");
    assert!(matches!(b.status, BookingStatus::Boarded));
    // A boarded booking cannot be cancelled.
    assert!(b.cancel().is_err());
    assert!(!b.can_be_modified());
}

#[test]
fn ticket_numbers_and_summary() {
    assert_eq!(ticket_number_from(5), "RIA000005");
    assert_eq!(ticket_number_from(123456), "RIA123456");
    // Beyond six digits the ticket grows instead of wrapping, so every
    // value keeps a ticket of its own.
    assert_eq!(ticket_number_from(91234567), "RIA91234567");

    let p = Passenger::new(
        String::from("Ada"),
        String::from("Lovelace"),
        String::from("ada@example.com"),
        String::from("555-0100"),
        String::from("1815-12-10"),
        PassengerType::Adult,
    );
    let mut b = Booking::new(7, p, SeatClass::Economy, 389987, String::from("Credit Card"));
    b.assign_seat(String::from("14F"));
    let summary = b.get_ticket_summary();
    assert!(summary.contains("Passenger: Ada Lovelace"));
    assert!(summary.contains("Class: Economy"));
    assert!(summary.contains("Seat: 14F (Window + Emergency Exit)"));
    assert!(summary.contains("Status: Confirmed"));
    assert!(summary.contains("Amount: $389.99"));
}
