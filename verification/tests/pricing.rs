//! Pricing rules: wildcard route matching, hour ranges, and the folded
//! multiplier.

use rust_international_airport::modules::admin::{AdminPanel, PricingRule};

fn rule(pattern: Option<&str>, period: Option<(u8, u8)>, multiplier: u64) -> PricingRule {
    PricingRule::new(
        String::from("rule"),
        pattern.map(|p| String::from(p)),
        period,
        multiplier,
        7,
    )
}

#[test]
fn wildcard_suffix_pattern() {
    let r = rule(Some("*-LHR"), None, 1200);
    assert!(r.applies_to_route("JFK", "LHR"));
    assert!(!r.applies_to_route("JFK", "CDG"));
}

#[test]
fn wildcard_prefix_pattern() {
    let r = rule(Some("LAX-*"), None, 1100);
    assert!(r.applies_to_route("LAX", "JFK"));
    assert!(!r.applies_to_route("JFK", "LAX"));
}

#[test]
fn wildcard_contains_pattern() {
    let r = rule(Some("*LAX*"), None, 1100);
    assert!(r.applies_to_route("LAX", "JFK"));
    assert!(r.applies_to_route("JFK", "LAX"));
    assert!(!r.applies_to_route("JFK", "CDG"));
}

#[test]
fn exact_pattern_and_middle_star() {
    let exact = rule(Some("LAX-JFK"), None, 1100);
    assert!(exact.applies_to_route("LAX", "JFK"));
    assert!(!exact.applies_to_route("LAX", "CDG"));
    // A `*` only in the middle never matches.
    let middle = rule(Some("LAX*JFK"), None, 1100);
    assert!(!middle.applies_to_route("LAX", "JFK"));
    assert!(!middle.applies_to_route("LAXJFK", ""));
}

#[test]
fn absent_pattern_matches_all_routes() {
    let r = rule(None, None, 1100);
    assert!(r.applies_to_route("AAA", "BBB"));
}

#[test]
fn hour_range_is_inclusive_without_wraparound() {
    let r = rule(None, Some((6, 9)), 1300);
    assert!(!r.applies_to_time(5));
    assert!(r.applies_to_time(6));
    assert!(r.applies_to_time(7));
    assert!(r.applies_to_time(9));
    assert!(!r.applies_to_time(10));
    // An overnight range like (22, 4) never matches.
    let overnight = rule(None, Some((22, 4)), 1300);
    assert!(!overnight.applies_to_time(23));
    assert!(!overnight.applies_to_time(2));
}

#[test]
fn multiplier_is_one_with_no_rules() {
    let panel = AdminPanel::new();
    assert_eq!(panel.get_applicable_multiplier("LAX", "JFK", 7), 1000);
}

#[test]
fn multiplier_folds_matching_rules_in_order() {
    let mut panel = AdminPanel::new();
    panel.pricing_rules.push(rule(None, Some((6, 9)), 1300));
    panel.pricing_rules.push(rule(None, None, 900));
    panel.pricing_rules.push(rule(Some("*-LHR"), None, 1200));
    // At hour 7 to LHR all three match: 1.3 * 0.9 * 1.2.
    assert_eq!(panel.get_applicable_multiplier("JFK", "LHR", 7), 1404);
    // At hour 12 to CDG only the unconditional discount matches.
    assert_eq!(panel.get_applicable_multiplier("JFK", "CDG", 12), 900);
}

#[test]
fn inactive_rules_contribute_nothing() {
    let mut panel = AdminPanel::new();
    let mut r = rule(None, None, 2000);
    r.is_active = false;
    panel.pricing_rules.push(r);
    assert_eq!(panel.get_applicable_multiplier("LAX", "JFK", 12), 1000);
}
