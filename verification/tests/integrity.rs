//! Dataset integrity checks and manager queries.

use rust_international_airport::data::manager::DataManager;
use rust_international_airport::data::persistence::{AirportDatabase, DataPersistence};
use rust_international_airport::modules::aircraft::Aircraft;
use rust_international_airport::modules::airport::Airport;
use rust_international_airport::modules::booking::{Passenger, PassengerType};
use rust_international_airport::modules::flight::{Flight, FlightStatus, SeatClass};

fn sample_airport(code: &str) -> Airport {
    Airport::new(
        String::from(code),
        format!("K{}", code),
        format!("{} Airport", code),
        String::from("City"),
        String::from("Country"),
        String::from("UTC"),
        0,
        0,
        0,
    )
}

fn sample_flight(number: &str, origin: &str, destination: &str, aircraft_id: u128) -> Flight {
    Flight::new(
        String::from(number),
        String::from("Rust International Airways"),
        String::from(origin),
        String::from(destination),
        1_000_000_000,
        1_000_030_000,
        aircraft_id,
        180,
    )
}

#[test]
fn integrity_reports_each_violation() {
    let aircraft = Aircraft::new(
        String::from("N123RIA"),
        String::from("Boeing 737-800"),
        String::from("Boeing"),
        2020,
    );
    let aircraft_id = aircraft.id;
    let good = sample_flight("RIA501", "LAX", "JFK", aircraft_id);
    let bad = sample_flight("RIA502", "LAX", "ZZZ", aircraft_id.wrapping_add(1));
    let bad_number = bad.flight_number.clone();
    let db = AirportDatabase {
        flights: vec![good, bad],
        aircraft: vec![aircraft],
        bookings: vec![],
        airports: vec![sample_airport("LAX"), sample_airport("JFK")],
    };
    let issues = db.validate_integrity();
    // One missing aircraft, one unknown destination.
    assert_eq!(issues.len(), 2);
    assert!(issues[0].contains(&bad_number));
    assert!(issues[0].contains("references non-existent aircraft"));
    assert!(issues[1].contains("has invalid destination airport: ZZZ"));
}

#[test]
fn integrity_passes_a_consistent_dataset() {
    let aircraft = Aircraft::new(
        String::from("N123RIA"),
        String::from("Boeing 737-800"),
        String::from("Boeing"),
        2020,
    );
    let f = sample_flight("RIA503", "LAX", "JFK", aircraft.id);
    let db = AirportDatabase {
        flights: vec![f],
        aircraft: vec![aircraft],
        bookings: vec![],
        airports: vec![sample_airport("LAX"), sample_airport("JFK")],
    };
    assert!(db.validate_integrity().is_empty());
}

#[test]
fn persistence_defaults_to_the_data_directory() {
    let p = DataPersistence::new();
    assert_eq!(p.data_dir, "data");
}

#[test]
fn manager_queries_find_their_entities() {
    let aircraft = Aircraft::new(
        String::from("N123RIA"),
        String::from("Boeing 737-800"),
        String::from("Boeing"),
        2020,
    );
    let aircraft_id = aircraft.id;
    let f1 = sample_flight("RIA504", "LAX", "JFK", aircraft_id);
    let f2 = sample_flight("RIA505", "JFK", "LHR", aircraft_id);
    let f1_id = f1.id;
    let db = AirportDatabase {
        flights: vec![f1, f2],
        aircraft: vec![aircraft],
        bookings: vec![],
        airports: vec![sample_airport("LAX"), sample_airport("JFK"), sample_airport("LHR")],
    };
    let dm = DataManager::new(db);

    assert_eq!(dm.get_flight_by_id(f1_id).unwrap().flight_number, "RIA504");
    assert!(dm.get_flight_by_id(f1_id.wrapping_add(99)).is_none());
    assert_eq!(dm.get_flight_by_number("RIA505").unwrap().destination, "LHR");
    assert!(dm.get_flight_by_number("RIA999").is_none());
    assert_eq!(dm.get_aircraft_by_id(aircraft_id).unwrap().model, "Boeing 737-800");
    assert_eq!(dm.get_aircraft_for_flight(f1_id).unwrap().registration, "N123RIA");
    assert_eq!(dm.get_airport_by_code("LHR").unwrap().name, "LHR Airport");
    assert!(dm.get_airport_by_code("ZZZ").is_none());
    assert_eq!(dm.get_all_airports().len(), 3);

    assert_eq!(dm.get_departures_from_airport("LAX").len(), 1);
    assert_eq!(dm.get_departures_from_airport("JFK").len(), 1);
    assert_eq!(dm.get_arrivals_to_airport("JFK").len(), 1);
    assert_eq!(dm.get_arrivals_to_airport("CDG").len(), 0);

    let by_origin = dm.search_flights(Some("JFK"), None, None);
    assert_eq!(by_origin.len(), 1);
    assert_eq!(by_origin[0].flight_number, "RIA505");
    let by_both = dm.search_flights(Some("LAX"), Some("JFK"), None);
    assert_eq!(by_both.len(), 1);
    let same_day = dm.search_flights(None, None, Some(1_000_000_500));
    assert_eq!(same_day.len(), 2);
    let other_day = dm.search_flights(None, None, Some(1_000_000_000 + 5 * 86400));
    assert_eq!(other_day.len(), 0);
}

#[test]
fn statistics_count_by_status() {
    let mut f1 = sample_flight("RIA506", "LAX", "JFK", 1);
    let mut f2 = sample_flight("RIA507", "LAX", "JFK", 1);
    let f3 = sample_flight("RIA508", "LAX", "JFK", 1);
    f1.status = FlightStatus::Delayed(10);
    f2.status = FlightStatus::Cancelled;
    let db = AirportDatabase {
        flights: vec![f1, f2, f3],
        aircraft: vec![],
        bookings: vec![],
        airports: vec![],
    };
    let mut dm = DataManager::new(db);
    assert_eq!(dm.get_flight_statistics(), (3, 1, 1, 1));

    let flight_id = dm.database.flights[2].id;
    let p = Passenger::new(
        String::from("Ada"),
        String::from("Lovelace"),
        String::from("ada@example.com"),
        String::from("555-0100"),
        String::from("1815-12-10"),
        PassengerType::Adult,
    );
    let booking_id = dm
        .create_booking_at(flight_id, p, SeatClass::Economy, 999_999_000)
        .expect("booking should succeed");
    assert_eq!(dm.get_booking_statistics(), (1, 1, 0));
    let ticket = dm.get_booking_by_id(booking_id).unwrap().ticket_number.clone();
    dm.cancel_booking(ticket.as_str()).expect("cancel should succeed");
    assert_eq!(dm.get_booking_statistics(), (1, 0, 1));
}
