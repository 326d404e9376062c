//! The flight and aircraft status simulator.

use rust_international_airport::data::manager::DataManager;
use rust_international_airport::data::persistence::AirportDatabase;
use rust_international_airport::modules::aircraft::{Aircraft, AircraftStatus};
use rust_international_airport::modules::flight::{Flight, FlightStatus};

const NOW: i64 = 1_000_000_000;

fn flight_departing_in(number: &str, seconds: i64, aircraft_id: u128) -> Flight {
    Flight::new(
        String::from(number),
        String::from("Rust International Airways"),
        String::from("LAX"),
        String::from("JFK"),
        NOW + seconds,
        NOW + seconds + 8 * 3600,
        aircraft_id,
        180,
    )
}

#[test]
fn flight_twenty_minutes_out_starts_boarding() {
    let near = flight_departing_in("RIA201", 20 * 60, 1);
    let far = flight_departing_in("RIA202", 40 * 60, 2);
    let db = AirportDatabase {
        flights: vec![near, far],
        aircraft: vec![],
        bookings: vec![],
        airports: vec![],
    };
    let mut dm = DataManager::new(db);
    dm.simulate_at(NOW);
    assert!(matches!(dm.database.flights[0].status, FlightStatus::Boarding));
    assert!(matches!(dm.database.flights[1].status, FlightStatus::OnTime));
}

#[test]
fn departed_and_arrived_transitions() {
    // Departure has passed, arrival has not: the flight is departed.
    let in_air = flight_departing_in("RIA203", -3600, 1);
    // Arrival has passed as well: the flight has arrived.
    let landed = flight_departing_in("RIA204", -10 * 3600, 2);
    // A delayed flight twenty minutes out boards like an on-time one.
    let mut delayed = flight_departing_in("RIA205", 20 * 60, 3);
    delayed.status = FlightStatus::Delayed(15);
    // Cancelled flights never advance.
    let mut cancelled = flight_departing_in("RIA206", -10 * 3600, 4);
    cancelled.status = FlightStatus::Cancelled;
    let db = AirportDatabase {
        flights: vec![in_air, landed, delayed, cancelled],
        aircraft: vec![],
        bookings: vec![],
        airports: vec![],
    };
    let mut dm = DataManager::new(db);
    dm.simulate_at(NOW);
    assert!(matches!(dm.database.flights[0].status, FlightStatus::Departed));
    assert!(matches!(dm.database.flights[1].status, FlightStatus::Arrived));
    assert!(matches!(dm.database.flights[2].status, FlightStatus::Boarding));
    assert!(matches!(dm.database.flights[3].status, FlightStatus::Cancelled));
}

#[test]
fn boarding_departs_once_departure_passes() {
    let mut f = flight_departing_in("RIA207", 600, 1);
    f.status = FlightStatus::Boarding;
    let db = AirportDatabase {
        flights: vec![f],
        aircraft: vec![],
        bookings: vec![],
        airports: vec![],
    };
    let mut dm = DataManager::new(db);
    dm.simulate_at(NOW);
    assert!(matches!(dm.database.flights[0].status, FlightStatus::Boarding));
    dm.simulate_at(NOW + 700);
    assert!(matches!(dm.database.flights[0].status, FlightStatus::Departed));
}

#[test]
fn aircraft_follow_their_flights() {
    let aircraft = Aircraft::new(
        String::from("N123RIA"),
        String::from("Boeing 737-800"),
        String::from("Boeing"),
        2020,
    );
    let aircraft_id = aircraft.id;
    let maintenance = {
        let mut a = Aircraft::new(
            String::from("N456RIA"),
            String::from("Airbus A320"),
            String::from("Airbus"),
            2019,
        );
        a.status = AircraftStatus::Maintenance;
        a
    };
    // Boarding in twenty minutes, referencing the active aircraft.
    let f = flight_departing_in("RIA208", 20 * 60, aircraft_id);
    let db = AirportDatabase {
        flights: vec![f],
        aircraft: vec![aircraft, maintenance],
        bookings: vec![],
        airports: vec![],
    };
    let mut dm = DataManager::new(db);

    dm.simulate_at(NOW);
    assert!(matches!(dm.database.flights[0].status, FlightStatus::Boarding));
    assert!(matches!(dm.database.aircraft[0].status, AircraftStatus::InFlight));
    // Maintenance aircraft are never touched by the simulator.
    assert!(matches!(dm.database.aircraft[1].status, AircraftStatus::Maintenance));

    // Boarding advances to departed first, keeping the aircraft busy.
    dm.simulate_at(NOW + 20 * 3600);
    assert!(matches!(dm.database.flights[0].status, FlightStatus::Departed));
    assert!(matches!(dm.database.aircraft[0].status, AircraftStatus::InFlight));

    // Once the flight has arrived, the aircraft reverts to active.
    dm.simulate_at(NOW + 21 * 3600);
    assert!(matches!(dm.database.flights[0].status, FlightStatus::Arrived));
    assert!(matches!(dm.database.aircraft[0].status, AircraftStatus::Active));
}

#[test]
fn simulation_recomputes_metrics() {
    let f = flight_departing_in("RIA209", -10 * 3600, 1);
    let db = AirportDatabase {
        flights: vec![f],
        aircraft: vec![],
        bookings: vec![],
        airports: vec![],
    };
    let mut dm = DataManager::new(db);
    assert_eq!(dm.admin_panel.system_metrics.active_flights, 1);
    dm.simulate_at(NOW);
    // The flight arrived; it no longer counts as active.
    assert_eq!(dm.admin_panel.system_metrics.active_flights, 0);
    assert_eq!(dm.admin_panel.system_metrics.total_flights, 1);
}

#[test]
fn update_simulation_runs_without_error() {
    let db = AirportDatabase {
        flights: vec![],
        aircraft: vec![],
        bookings: vec![],
        airports: vec![],
    };
    let mut dm = DataManager::new(db);
    dm.update_simulation();
    dm.update_simulation();
}
