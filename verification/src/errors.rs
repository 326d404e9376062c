//! Error taxonomy for the airport system. Every failure is an explicit
//! result value; no operation partially applies a mutation and then fails.

use vstd::prelude::*;
use vstd::string::*;
use crate::modules::flight::SeatClass;
use crate::text;

verus! {

/// Errors surfaced by the airport system's operations.
#[derive(Debug)]
pub enum AirportError {
    /// No flight with the given identifier.
    FlightNotFound { flight_id: u128 },
    /// No aircraft with the given identifier.
    AircraftNotFound { aircraft_id: u128 },
    /// No booking with the given ticket number.
    BookingNotFound { ticket_number: String },
    /// No airport with the given code.
    AirportNotFound { code: String },
    /// The requested seat class is sold out.
    NoSeatsAvailable { class: SeatClass },
    /// The flight is not open for booking.
    FlightNotAvailable { flight_number: String },
    /// The authenticated admin lacks the capability for this operation.
    InsufficientPermissions { operation: String },
    /// Authentication failed for the given user.
    AuthenticationFailed { username: String },
    /// A booking is not in a state that permits the requested transition.
    ValidationError { message: String },
    /// Any other system failure.
    SystemError { message: String },
}

/// The rendering of an error as a human-readable message.
pub open spec fn spec_error_message(e: AirportError) -> Seq<char> {
    match e {
        AirportError::FlightNotFound { flight_id } => "Flight not found: "@ + text::dec_digits(
            flight_id as nat,
        ),
        AirportError::AircraftNotFound { aircraft_id } => "Aircraft not found: "@
            + text::dec_digits(aircraft_id as nat),
        AirportError::BookingNotFound { ticket_number } => "Booking not found: "@
            + ticket_number@,
        AirportError::AirportNotFound { code } => "Airport not found: "@ + code@,
        AirportError::NoSeatsAvailable { class: _ } => "No seats available in the selected class"@,
        AirportError::FlightNotAvailable { flight_number } => "Flight "@ + flight_number@
            + " is not available for booking"@,
        AirportError::InsufficientPermissions { operation } => "Insufficient permissions for operation: "@
            + operation@,
        AirportError::AuthenticationFailed { username } => "Authentication failed for user: "@
            + username@,
        AirportError::ValidationError { message } => "Data validation failed: "@ + message@,
        AirportError::SystemError { message } => "System error: "@ + message@,
    }
}

impl AirportError {
    /// The human-readable message for this error.
    pub fn message(&self) -> (r: String)
        ensures
            r@ == spec_error_message(*self),
    {
        match self {
            AirportError::FlightNotFound { flight_id } => {
                let mut s = String::from_str("Flight not found: ");
                let d = text::u128_to_dec(*flight_id);
                s.append(d.as_str());
                s
            },
            AirportError::AircraftNotFound { aircraft_id } => {
                let mut s = String::from_str("Aircraft not found: ");
                let d = text::u128_to_dec(*aircraft_id);
                s.append(d.as_str());
                s
            },
            AirportError::BookingNotFound { ticket_number } => {
                let mut s = String::from_str("Booking not found: ");
                s.append(ticket_number.as_str());
                s
            },
            AirportError::AirportNotFound { code } => {
                let mut s = String::from_str("Airport not found: ");
                s.append(code.as_str());
                s
            },
            AirportError::NoSeatsAvailable { class: _ } => {
                String::from_str("No seats available in the selected class")
            },
            AirportError::FlightNotAvailable { flight_number } => {
                let mut s = String::from_str("Flight ");
                s.append(flight_number.as_str());
                s.append(" is not available for booking");
                s
            },
            AirportError::InsufficientPermissions { operation } => {
                let mut s = String::from_str("Insufficient permissions for operation: ");
                s.append(operation.as_str());
                s
            },
            AirportError::AuthenticationFailed { username } => {
                let mut s = String::from_str("Authentication failed for user: ");
                s.append(username.as_str());
                s
            },
            AirportError::ValidationError { message } => {
                let mut s = String::from_str("Data validation failed: ");
                s.append(message.as_str());
                s
            },
            AirportError::SystemError { message } => {
                let mut s = String::from_str("System error: ");
                s.append(message.as_str());
                s
            },
        }
    }
}

} // verus!
