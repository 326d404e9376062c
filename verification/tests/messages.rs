//! Error messages and small record mutators.

use rust_international_airport::errors::AirportError;
use rust_international_airport::modules::booking::{Booking, Passenger, PassengerType};
use rust_international_airport::modules::flight::SeatClass;

fn passenger() -> Passenger {
    Passenger::new(
        String::from("Grace"),
        String::from("Hopper"),
        String::from("grace@example.com"),
        String::from("555-0101"),
        String::from("1906-12-09"),
        PassengerType::Senior,
    )
}

#[test]
fn error_messages_render() {
    assert_eq!(
        AirportError::FlightNotFound { flight_id: 42 }.message(),
        "Flight not found: 42"
    );
    assert_eq!(
        AirportError::AircraftNotFound { aircraft_id: 7 }.message(),
        "Aircraft not found: 7"
    );
    assert_eq!(
        AirportError::BookingNotFound { ticket_number: String::from("RIA000001") }.message(),
        "Booking not found: RIA000001"
    );
    assert_eq!(
        AirportError::AirportNotFound { code: String::from("ZZZ") }.message(),
        "Airport not found: ZZZ"
    );
    assert_eq!(
        AirportError::NoSeatsAvailable { class: SeatClass::Economy }.message(),
        "No seats available in the selected class"
    );
    assert_eq!(
        AirportError::FlightNotAvailable { flight_number: String::from("RIA101") }.message(),
        "Flight RIA101 is not available for booking"
    );
    assert_eq!(
        AirportError::InsufficientPermissions { operation: String::from("manage flights") }
            .message(),
        "Insufficient permissions for operation: manage flights"
    );
    assert_eq!(
        AirportError::AuthenticationFailed { username: String::from("mallory") }.message(),
        "Authentication failed for user: mallory"
    );
    assert_eq!(
        AirportError::ValidationError { message: String::from("bad data") }.message(),
        "Data validation failed: bad data"
    );
    assert_eq!(
        AirportError::SystemError { message: String::from("Flight not found") }.message(),
        "System error: Flight not found"
    );
}

#[test]
fn passenger_records_requirements_once() {
    let mut p = passenger();
    p.add_special_requirement(String::from("Wheelchair"));
    p.add_special_requirement(String::from("Vegetarian meal"));
    p.add_special_requirement(String::from("Wheelchair"));
    assert_eq!(p.special_requirements, vec!["Wheelchair", "Vegetarian meal"]);
    p.set_passport(String::from("P1234567"));
    assert_eq!(p.passport_number.as_deref(), Some("P1234567"));
}

#[test]
fn booking_mutators() {
    let mut b = Booking::new(3, passenger(), SeatClass::Business, 899990, String::from("PayPal"));
    assert_eq!(b.payment.currency, "USD");
    assert_eq!(b.payment.payment_method, "PayPal");
    b.add_baggage(2);
    assert_eq!(b.baggage_count, 3);
    b.add_special_service(String::from("Priority boarding"));
    b.add_special_service(String::from("Priority boarding"));
    assert_eq!(b.special_services, vec!["Priority boarding"]);
    assert_eq!(b.get_status_display(), "Confirmed");
}
