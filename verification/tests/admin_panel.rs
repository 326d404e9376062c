//! Admin authentication, capability gating, and the audit log.

use rust_international_airport::data::manager::DataManager;
use rust_international_airport::data::persistence::AirportDatabase;
use rust_international_airport::errors::AirportError;
use rust_international_airport::modules::admin::{AdminAction, AdminLevel, AdminPanel, AdminUser, PricingRule};
use rust_international_airport::modules::flight::{Flight, FlightStatus, SeatClass};

fn manager_with_flight(number: &str) -> DataManager {
    let flight = Flight::new(
        String::from(number),
        String::from("Rust International Airways"),
        String::from("LAX"),
        String::from("JFK"),
        1_000_000_000,
        1_000_030_000,
        42,
        180,
    );
    let db = AirportDatabase {
        flights: vec![flight],
        aircraft: vec![],
        bookings: vec![],
        airports: vec![],
    };
    DataManager::new(db)
}

fn viewer() -> AdminUser {
    AdminUser::new(
        String::from("viewer"),
        String::from("Read Only"),
        String::from("viewer@rust-airport.com"),
        AdminLevel::Viewer,
    )
}

#[test]
fn viewer_cannot_set_flight_delay_and_nothing_is_logged() {
    let mut dm = manager_with_flight("RIA301");
    dm.admin_panel.current_admin = Some(viewer());
    let audit_before = dm.admin_panel.audit_log.len();

    let r = dm.set_flight_delay("RIA301", 30);
    assert!(matches!(r, Err(AirportError::InsufficientPermissions { .. })));
    assert_eq!(dm.admin_panel.audit_log.len(), audit_before);
    assert!(matches!(dm.database.flights[0].status, FlightStatus::OnTime));
}

#[test]
fn unauthenticated_delay_call_fails() {
    let mut dm = manager_with_flight("RIA302");
    let r = dm.set_flight_delay("RIA302", 30);
    assert!(matches!(r, Err(AirportError::InsufficientPermissions { .. })));
}

#[test]
fn flight_manager_sets_and_clears_delay() {
    let mut dm = manager_with_flight("RIA303");
    dm.authenticate_admin("flight_mgr", "flight123")
        .expect("authentication should succeed");
    let arrival_before = dm.database.flights[0].arrival_time;
    let audit_before = dm.admin_panel.audit_log.len();

    dm.set_flight_delay("RIA303", 45).expect("delay should be set");
    assert!(matches!(dm.database.flights[0].status, FlightStatus::Delayed(45)));
    assert_eq!(dm.database.flights[0].arrival_time, arrival_before + 45 * 60);
    assert_eq!(dm.admin_panel.audit_log.len(), audit_before + 1);
    assert_eq!(dm.admin_panel.audit_log.last().unwrap().action_type, "SET_DELAY");

    // Clearing the delay resets the status but never rolls the arrival
    // time back: only forward shifts are applied.
    dm.set_flight_delay("RIA303", 0).expect("delay should clear");
    assert!(matches!(dm.database.flights[0].status, FlightStatus::OnTime));
    assert_eq!(dm.database.flights[0].arrival_time, arrival_before + 45 * 60);
}

#[test]
fn delay_on_unknown_flight_fails() {
    let mut dm = manager_with_flight("RIA304");
    dm.authenticate_admin("admin", "admin123").expect("authentication should succeed");
    let r = dm.set_flight_delay("RIA999", 30);
    assert!(matches!(r, Err(AirportError::SystemError { .. })));
}

#[test]
fn authentication_accepts_known_credentials_only() {
    let mut panel = AdminPanel::new();
    let admin = panel.authenticate("admin", "admin123").expect("should sign in");
    assert!(matches!(admin.level, AdminLevel::SuperAdmin));
    assert!(panel.is_authenticated());
    assert_eq!(panel.audit_log.last().unwrap().action_type, "LOGIN");

    let r = panel.authenticate("admin", "wrong");
    assert!(matches!(r, Err(AirportError::AuthenticationFailed { .. })));

    panel.logout();
    assert!(!panel.is_authenticated());
    assert_eq!(panel.audit_log.last().unwrap().action_type, "LOGOUT");
    assert_eq!(panel.current_admin_name(), "Not logged in");
}

#[test]
fn pricing_rules_are_gated_on_the_pricing_capability() {
    let mut panel = AdminPanel::new();
    let rule = PricingRule::new(String::from("Test"), None, None, 1100, 7);
    let r = panel.add_pricing_rule(rule);
    assert!(matches!(r, Err(AirportError::InsufficientPermissions { .. })));
    assert_eq!(panel.pricing_rules.len(), 0);

    // A flight manager lacks the pricing capability.
    panel.authenticate("flight_mgr", "flight123").expect("should sign in");
    let rule = PricingRule::new(String::from("Test"), None, None, 1100, 7);
    assert!(matches!(
        panel.add_pricing_rule(rule),
        Err(AirportError::InsufficientPermissions { .. })
    ));

    // The super admin has every capability.
    panel.authenticate("admin", "admin123").expect("should sign in");
    let rule = PricingRule::new(String::from("Test"), None, None, 1100, 7);
    panel.add_pricing_rule(rule).expect("rule should be added");
    assert_eq!(panel.pricing_rules.len(), 1);
    assert_eq!(panel.audit_log.last().unwrap().action_type, "ADD_PRICING_RULE");
}

#[test]
fn manager_logout_is_logged_and_leaves_the_rest_alone() {
    let mut dm = manager_with_flight("RIA306");
    dm.authenticate_admin("admin", "admin123").expect("should sign in");
    let actor = dm.admin_panel.current_admin.as_ref().unwrap().id;
    let rules_before = dm.admin_panel.pricing_rules.len();
    let audit_before = dm.admin_panel.audit_log.len();

    dm.logout_admin();
    assert!(!dm.is_admin_authenticated());
    assert_eq!(dm.admin_panel.audit_log.len(), audit_before + 1);
    let last = dm.admin_panel.audit_log.last().unwrap();
    assert_eq!(last.action_type, "LOGOUT");
    assert_eq!(last.admin_id, actor);
    assert_eq!(dm.admin_panel.pricing_rules.len(), rules_before);

    // Without an open session nothing is logged.
    dm.logout_admin();
    assert_eq!(dm.admin_panel.audit_log.len(), audit_before + 1);
}

#[test]
fn set_dynamic_pricing_updates_the_flight() {
    let mut dm = manager_with_flight("RIA305");
    dm.authenticate_admin("admin", "admin123").expect("should sign in");
    dm.set_dynamic_pricing("RIA305", 1500).expect("pricing should be set");
    assert_eq!(dm.database.flights[0].pricing.dynamic_multiplier, 1500);
    assert_eq!(dm.admin_panel.audit_log.last().unwrap().action_type, "SET_PRICING");
    // Economy $299.99 at multiplier 1.5.
    assert_eq!(dm.database.flights[0].get_price(&SeatClass::Economy), 449985);
}

#[test]
fn capabilities_by_level() {
    let v = viewer();
    assert!(!v.can_manage_flights());
    assert!(!v.can_manage_aircraft());
    assert!(!v.can_manage_pricing());
    assert!(v.can_view_reports());
    let s = AdminUser::new(
        String::from("root"),
        String::from("Root"),
        String::from("root@rust-airport.com"),
        AdminLevel::SuperAdmin,
    );
    assert!(s.can_manage_flights());
    assert!(s.can_manage_aircraft());
    assert!(s.can_manage_pricing());
    assert_eq!(s.get_level_display(), "Super Admin");
}

#[test]
fn audit_log_formats_and_reads_in_reverse() {
    let mut panel = AdminPanel::new();
    panel.log_action(1, String::from("FIRST"), String::from("one"), None, None, None);
    panel.log_action(1, String::from("SECOND"), String::from("two"), None, None, None);
    let recent = panel.get_recent_actions(1);
    assert_eq!(recent.len(), 1);
    assert_eq!(recent[0].action_type, "SECOND");
    let all = panel.get_recent_actions(10);
    assert_eq!(all.len(), 2);
    assert_eq!(all[0].action_type, "SECOND");
    assert_eq!(all[1].action_type, "FIRST");

    // The log line for a fixed timestamp, relying on the date-time
    // rendering (2015-05-15 00:00:00 UTC is 1431648000).
    let mut action = AdminAction::new(
        1,
        String::from("SET_DELAY"),
        String::from("Set delay for flight RIA301"),
        None,
        Some(String::from("On Time")),
        Some(String::from("Delayed 30 min")),
    );
    action.timestamp = 1431648000;
    assert_eq!(
        action.format_for_log(),
        "[2015-05-15 00:00:00] SET_DELAY - Set delay for flight RIA301 (Changed from 'On Time' to 'Delayed 30 min')"
    );
}

#[test]
fn metrics_summary_renders() {
    let mut panel = AdminPanel::new();
    panel.system_metrics.active_flights = 3;
    panel.system_metrics.delayed_flights = 1;
    panel.system_metrics.active_aircraft = 2;
    panel.system_metrics.aircraft_in_maintenance = 1;
    panel.system_metrics.revenue_today = 389987;
    assert_eq!(
        panel.system_metrics.get_summary(),
        "Flights: 3 active, 1 delayed | Aircraft: 2 active, 1 maintenance | Revenue: $389.99 today"
    );
}
