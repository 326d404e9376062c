//! Administration: role-gated capabilities, the append-only audit log,
//! pricing rules with wildcard route patterns, and system metrics.

use vstd::prelude::*;
use vstd::string::*;
use crate::errors::AirportError;
use crate::modules::aircraft::{Aircraft, AircraftStatus};
use crate::modules::flight::{
    spec_apply_multiplier, Flight, FlightStatus, MULTIPLIER_SCALE,
};
use crate::sys;
use crate::sys::MAX_TIMESTAMP;
use crate::text;

verus! {

/// Admin roles, from full access down to read-only.
#[derive(Debug, Clone, Copy, PartialEq, Eq, Structural)]
pub enum AdminLevel {
    SuperAdmin,
    FlightManager,
    AircraftManager,
    FinanceManager,
    Viewer,
}

/// An administrative user.
#[derive(Debug)]
pub struct AdminUser {
    pub id: u128,
    pub username: String,
    pub full_name: String,
    pub email: String,
    pub level: AdminLevel,
    /// Seconds since the Unix epoch.
    pub created_date: i64,
    pub last_login: Option<i64>,
    pub is_active: bool,
}

/// One record of the append-only audit log.
#[derive(Debug)]
pub struct AdminAction {
    pub id: u128,
    pub admin_id: u128,
    pub action_type: String,
    pub description: String,
    /// Seconds since the Unix epoch.
    pub timestamp: i64,
    pub affected_entity_id: Option<u128>,
    pub old_value: Option<String>,
    pub new_value: Option<String>,
}

/// Aggregate counters over the current collections. Revenue is in mills.
#[derive(Debug, Clone, Copy, PartialEq, Eq, Structural)]
pub struct SystemMetrics {
    pub total_flights: u32,
    pub active_flights: u32,
    pub delayed_flights: u32,
    pub cancelled_flights: u32,
    pub total_aircraft: u32,
    pub active_aircraft: u32,
    pub aircraft_in_maintenance: u32,
    pub total_bookings: u32,
    pub revenue_today: u64,
    pub revenue_month: u64,
    /// Percentage of seats filled, in hundredths of a percent.
    pub average_load_factor: u64,
    pub last_updated: i64,
}

/// A pricing rule: an optional route pattern (wildcards with `*`), an
/// optional inclusive hour range, and a fixed-point multiplier.
#[derive(Debug)]
pub struct PricingRule {
    pub id: u128,
    pub rule_name: String,
    /// e.g. `LAX-*`, `*-JFK`, `LAX-JFK`.
    pub route_pattern: Option<String>,
    /// Inclusive `(start, end)` hour range; `(22, 4)` never matches — no
    /// overnight wraparound.
    pub time_period: Option<(u8, u8)>,
    /// Scaled by [`MULTIPLIER_SCALE`].
    pub multiplier: u64,
    pub is_active: bool,
    pub created_by: u128,
    pub created_date: i64,
}

/// The admin panel: current session, audit log, pricing rules, metrics.
#[derive(Debug)]
pub struct AdminPanel {
    pub current_admin: Option<AdminUser>,
    pub audit_log: Vec<AdminAction>,
    pub pricing_rules: Vec<PricingRule>,
    pub system_metrics: SystemMetrics,
}

impl AdminUser {
    /// Creates an active admin with a fresh identifier and no login yet.
    pub fn new(username: String, full_name: String, email: String, level: AdminLevel) -> (a:
        AdminUser)
        ensures
            a.username == username,
            a.full_name == full_name,
            a.email == email,
            a.level == level,
            0 <= a.created_date <= MAX_TIMESTAMP,
            a.last_login is None,
            a.is_active,
    {
        AdminUser {
            id: sys::fresh_id(),
            username,
            full_name,
            email,
            level,
            created_date: sys::current_timestamp(),
            last_login: None,
            is_active: true,
        }
    }

    /// Whether this role may manage flights.
    pub fn can_manage_flights(&self) -> (r: bool)
        ensures
            r == (self.level is SuperAdmin || self.level is FlightManager),
    {
        match self.level {
            AdminLevel::SuperAdmin | AdminLevel::FlightManager => true,
            _ => false,
        }
    }

    /// Whether this role may manage aircraft.
    pub fn can_manage_aircraft(&self) -> (r: bool)
        ensures
            r == (self.level is SuperAdmin || self.level is AircraftManager),
    {
        match self.level {
            AdminLevel::SuperAdmin | AdminLevel::AircraftManager => true,
            _ => false,
        }
    }

    /// Whether this role may manage pricing.
    pub fn can_manage_pricing(&self) -> (r: bool)
        ensures
            r == (self.level is SuperAdmin || self.level is FinanceManager),
    {
        match self.level {
            AdminLevel::SuperAdmin | AdminLevel::FinanceManager => true,
            _ => false,
        }
    }

    /// Every role may view reports.
    pub fn can_view_reports(&self) -> (r: bool)
        ensures
            r,
    {
        true
    }

    /// Records the current time as the last login.
    pub fn login(&mut self)
        ensures
            final(self).last_login matches Some(t) && 0 <= t <= MAX_TIMESTAMP,
            *final(self) == (AdminUser { last_login: final(self).last_login, ..*old(self) }),
    {
        self.last_login = Some(sys::current_timestamp());
    }

    /// The human-readable role label.
    pub fn get_level_display(&self) -> (r: String)
        ensures
            r@ == spec_level_display(self.level),
    {
        match self.level {
            AdminLevel::SuperAdmin => String::from_str("Super Admin"),
            AdminLevel::FlightManager => String::from_str("Flight Manager"),
            AdminLevel::AircraftManager => String::from_str("Aircraft Manager"),
            AdminLevel::FinanceManager => String::from_str("Finance Manager"),
            AdminLevel::Viewer => String::from_str("Viewer"),
        }
    }
}

/// The human-readable label of an admin role.
pub open spec fn spec_level_display(level: AdminLevel) -> Seq<char> {
    match level {
        AdminLevel::SuperAdmin => "Super Admin"@,
        AdminLevel::FlightManager => "Flight Manager"@,
        AdminLevel::AircraftManager => "Aircraft Manager"@,
        AdminLevel::FinanceManager => "Finance Manager"@,
        AdminLevel::Viewer => "Viewer"@,
    }
}

impl AdminAction {
    /// The timestamp lies in the representable date range.
    pub open spec fn wf(self) -> bool {
        0 <= self.timestamp <= MAX_TIMESTAMP
    }

    /// Creates an audit record stamped with the current time.
    pub fn new(
        admin_id: u128,
        action_type: String,
        description: String,
        affected_entity_id: Option<u128>,
        old_value: Option<String>,
        new_value: Option<String>,
    ) -> (a: AdminAction)
        ensures
            a.wf(),
            a.admin_id == admin_id,
            a.action_type == action_type,
            a.description == description,
            a.affected_entity_id == affected_entity_id,
            a.old_value == old_value,
            a.new_value == new_value,
    {
        AdminAction {
            id: sys::fresh_id(),
            admin_id,
            action_type,
            description,
            timestamp: sys::current_timestamp(),
            affected_entity_id,
            old_value,
            new_value,
        }
    }

    /// Renders the record for the audit log display.
    pub fn format_for_log(&self) -> (r: String)
        requires
            self.wf(),
        ensures
            r@ == spec_log_line(*self),
    {
        let mut s = String::from_str("[");
        let ts = sys::format_timestamp(self.timestamp);
        s.append(ts.as_str());
        s.append("] ");
        s.append(self.action_type.as_str());
        s.append(" - ");
        s.append(self.description.as_str());
        match (&self.old_value, &self.new_value) {
            (Some(o), Some(n)) => {
                s.append(" (Changed from '");
                s.append(o.as_str());
                s.append("' to '");
                s.append(n.as_str());
                s.append("')");
            },
            (None, Some(n)) => {
                s.append(" (Set to '");
                s.append(n.as_str());
                s.append("')");
            },
            (Some(o), None) => {
                s.append(" (Removed '");
                s.append(o.as_str());
                s.append("')");
            },
            (None, None) => {},
        }
        proof {
            assert(s@ =~= spec_log_line(*self));
        }
        s
    }
}

/// The change portion of an audit log line.
pub open spec fn spec_change_info(old_value: Option<String>, new_value: Option<String>) -> Seq<
    char,
> {
    match (old_value, new_value) {
        (Some(o), Some(n)) => " (Changed from '"@ + o@ + "' to '"@ + n@ + "')"@,
        (None, Some(n)) => " (Set to '"@ + n@ + "')"@,
        (Some(o), None) => " (Removed '"@ + o@ + "')"@,
        (None, None) => Seq::empty(),
    }
}

/// The audit log line of a record.
pub open spec fn spec_log_line(a: AdminAction) -> Seq<char> {
    "["@ + sys::timestamp_display_of(a.timestamp as int) + "] "@ + a.action_type@ + " - "@
        + a.description@ + spec_change_info(a.old_value, a.new_value)
}

/// The combined route string `origin-destination`.
pub open spec fn route_of(origin: Seq<char>, destination: Seq<char>) -> Seq<char> {
    origin + seq!['-'] + destination
}

/// Whether `p` begins with a wildcard.
pub open spec fn starts_with_star(p: Seq<char>) -> bool {
    p.len() > 0 && p[0] == '*'
}

/// Whether `p` ends with a wildcard.
pub open spec fn ends_with_star(p: Seq<char>) -> bool {
    p.len() > 0 && p[p.len() - 1] == '*'
}

/// `p` with all leading wildcards removed.
pub open spec fn trim_leading_stars(p: Seq<char>) -> Seq<char>
    decreases p.len(),
{
    if p.len() > 0 && p[0] == '*' {
        trim_leading_stars(p.drop_first())
    } else {
        p
    }
}

/// `p` with all trailing wildcards removed.
pub open spec fn trim_trailing_stars(p: Seq<char>) -> Seq<char>
    decreases p.len(),
{
    if p.len() > 0 && p[p.len() - 1] == '*' {
        trim_trailing_stars(p.drop_last())
    } else {
        p
    }
}

/// `p` with all leading and trailing wildcards removed.
pub open spec fn trim_stars(p: Seq<char>) -> Seq<char> {
    trim_trailing_stars(trim_leading_stars(p))
}

/// How a route pattern matches a combined route string: wildcards at both
/// ends ask for a substring, a leading wildcard for a suffix, a trailing
/// wildcard for a prefix; a `*` only in the middle never matches; without
/// any `*` the match is exact.
pub open spec fn pattern_matches_route(p: Seq<char>, route: Seq<char>) -> bool {
    if text::has_char(p, '*') {
        if starts_with_star(p) && ends_with_star(p) {
            text::has_seq(route, trim_stars(p))
        } else if starts_with_star(p) {
            p.drop_first().is_suffix_of(route)
        } else if ends_with_star(p) {
            p.drop_last().is_prefix_of(route)
        } else {
            false
        }
    } else {
        p == route
    }
}

proof fn lemma_trim_leading(p: Seq<char>, a: int)
    requires
        0 <= a <= p.len(),
        forall|j: int| 0 <= j < a ==> p[j] == '*',
        a < p.len() ==> p[a] != '*',
    ensures
        trim_leading_stars(p) == p.skip(a),
    decreases a,
{
    if a == 0 {
        assert(p.skip(0) =~= p);
    } else {
        let t = p.drop_first();
        assert(forall|j: int| 0 <= j < a - 1 ==> t[j] == p[j + 1] && t[j] == '*');
        if a - 1 < t.len() {
            assert(t[a - 1] == p[a]);
        }
        lemma_trim_leading(t, a - 1);
        assert(t.skip(a - 1) =~= p.skip(a));
    }
}

proof fn lemma_trim_trailing(q: Seq<char>, b: int)
    requires
        0 <= b <= q.len(),
        forall|j: int| b <= j < q.len() ==> q[j] == '*',
        b > 0 ==> q[b - 1] != '*',
    ensures
        trim_trailing_stars(q) == q.take(b),
    decreases q.len() - b,
{
    if b == q.len() {
        assert(q.take(b) =~= q);
    } else {
        assert(q[q.len() - 1] == '*');
        let t = q.drop_last();
        assert(forall|j: int| b <= j < t.len() ==> t[j] == q[j] && t[j] == '*');
        lemma_trim_trailing(t, b);
        assert(t.take(b) =~= q.take(b));
    }
}

impl PricingRule {
    /// Creates an active rule stamped with the current time.
    pub fn new(
        rule_name: String,
        route_pattern: Option<String>,
        time_period: Option<(u8, u8)>,
        multiplier: u64,
        created_by: u128,
    ) -> (r: PricingRule)
        ensures
            r.rule_name == rule_name,
            r.route_pattern == route_pattern,
            r.time_period == time_period,
            r.multiplier == multiplier,
            r.is_active,
            r.created_by == created_by,
    {
        PricingRule {
            id: sys::fresh_id(),
            rule_name,
            route_pattern,
            time_period,
            multiplier,
            is_active: true,
            created_by,
            created_date: sys::current_timestamp(),
        }
    }

    /// Whether this rule applies to the given route.
    pub open spec fn spec_applies_to_route(
        self,
        origin: Seq<char>,
        destination: Seq<char>,
    ) -> bool {
        match self.route_pattern {
            Some(p) => pattern_matches_route(p@, route_of(origin, destination)),
            None => true,
        }
    }

    /// Whether this rule applies at the given hour.
    pub open spec fn spec_applies_to_time(self, hour: u8) -> bool {
        match self.time_period {
            Some((start, end)) => start <= hour && hour <= end,
            None => true,
        }
    }

    /// Whether this rule applies to the given route.
    pub fn applies_to_route(&self, origin: &str, destination: &str) -> (r: bool)
        ensures
            r == self.spec_applies_to_route(origin@, destination@),
    {
        match &self.route_pattern {
            Some(pattern) => {
                let mut route = String::from_str(origin);
                proof {
                    reveal_strlit("-");
                    assert("-"@ =~= seq!['-']);
                }
                route.append("-");
                route.append(destination);
                proof {
                    assert(route@ =~= route_of(origin@, destination@));
                }
                let p = pattern.as_str();
                if text::str_has_char(p, '*') {
                    let n = p.unicode_len();
                    let starts = p.get_char(0) == '*';
                    let ends = p.get_char(n - 1) == '*';
                    if starts && ends {
                        let mut a: usize = 0;
                        while a < n && p.get_char(a) == '*'
                            invariant
                                0 <= a <= n,
                                n == p@.len(),
                                forall|j: int| 0 <= j < a ==> p@[j] == '*',
                            decreases n - a,
                        {
                            a = a + 1;
                        }
                        let mut b: usize = n;
                        while b > a && p.get_char(b - 1) == '*'
                            invariant
                                a <= b <= n,
                                n == p@.len(),
                                forall|j: int| b <= j < n ==> p@[j] == '*',
                            decreases b,
                        {
                            b = b - 1;
                        }
                        let middle = p.substring_char(a, b);
                        proof {
                            lemma_trim_leading(p@, a as int);
                            let q = p@.skip(a as int);
                            assert(forall|j: int|
                                b - a <= j < q.len() ==> q[j] == p@[j + a] && q[j] == '*');
                            if b > a {
                                assert(q[b - a - 1] == p@[b - 1]);
                            }
                            lemma_trim_trailing(q, b - a);
                            assert(q.take(b - a) =~= p@.subrange(a as int, b as int));
                            assert(middle@ == trim_stars(p@));
                        }
                        text::str_contains(route.as_str(), middle)
                    } else if starts {
                        let suffix = p.substring_char(1, n);
                        proof {
                            assert(suffix@ =~= p@.drop_first());
                        }
                        text::str_ends_with(route.as_str(), suffix)
                    } else if ends {
                        let prefix = p.substring_char(0, n - 1);
                        proof {
                            assert(prefix@ =~= p@.drop_last());
                        }
                        text::str_starts_with(route.as_str(), prefix)
                    } else {
                        false
                    }
                } else {
                    text::str_eq(route.as_str(), p)
                }
            },
            None => true,
        }
    }

    /// Whether this rule applies at the given hour (inclusive bounds, no
    /// overnight wraparound).
    pub fn applies_to_time(&self, hour: u8) -> (r: bool)
        ensures
            r == self.spec_applies_to_time(hour),
    {
        match self.time_period {
            Some((start, end)) => hour >= start && hour <= end,
            None => true,
        }
    }
}

/// Whether a rule takes part in pricing the given route and hour: it is
/// active, matches the route, and matches the hour.
pub open spec fn rule_matches(
    r: PricingRule,
    origin: Seq<char>,
    destination: Seq<char>,
    hour: u8,
) -> bool {
    r.is_active && r.spec_applies_to_route(origin, destination) && r.spec_applies_to_time(hour)
}

/// The multiplier the rules yield for a route and hour: starting from
/// one, the multipliers of the matching rules are applied in registration
/// order (fixed-point, rounding down at each step, saturating at
/// `u64::MAX`). With no matching rule it is exactly [`MULTIPLIER_SCALE`].
pub open spec fn multiplier_fold(
    rules: Seq<PricingRule>,
    origin: Seq<char>,
    destination: Seq<char>,
    hour: u8,
) -> u64
    decreases rules.len(),
{
    if rules.len() == 0 {
        MULTIPLIER_SCALE
    } else {
        let prev = multiplier_fold(rules.drop_last(), origin, destination, hour);
        if rule_matches(rules.last(), origin, destination, hour) {
            spec_apply_multiplier(prev, rules.last().multiplier)
        } else {
            prev
        }
    }
}

impl Clone for AdminUser {
    /// A clone equals the original.
    fn clone(&self) -> (r: Self)
        ensures
            r == *self,
    {
        AdminUser {
            id: self.id,
            username: self.username.clone(),
            full_name: self.full_name.clone(),
            email: self.email.clone(),
            level: self.level,
            created_date: self.created_date,
            last_login: self.last_login,
            is_active: self.is_active,
        }
    }
}

impl Clone for AdminAction {
    /// A clone equals the original.
    fn clone(&self) -> (r: Self)
        ensures
            r == *self,
    {
        AdminAction {
            id: self.id,
            admin_id: self.admin_id,
            action_type: self.action_type.clone(),
            description: self.description.clone(),
            timestamp: self.timestamp,
            affected_entity_id: self.affected_entity_id,
            old_value: match &self.old_value {
                Some(v) => Some(v.clone()),
                None => None,
            },
            new_value: match &self.new_value {
                Some(v) => Some(v.clone()),
                None => None,
            },
        }
    }
}

impl Clone for PricingRule {
    /// A clone equals the original.
    fn clone(&self) -> (r: Self)
        ensures
            r == *self,
    {
        PricingRule {
            id: self.id,
            rule_name: self.rule_name.clone(),
            route_pattern: match &self.route_pattern {
                Some(p) => Some(p.clone()),
                None => None,
            },
            time_period: self.time_period,
            multiplier: self.multiplier,
            is_active: self.is_active,
            created_by: self.created_by,
            created_date: self.created_date,
        }
    }
}

/// Whether a flight counts as active for the metrics (on time or
/// delayed).
pub open spec fn is_active_flight(f: Flight) -> bool {
    f.status is OnTime || f.status is Delayed
}

/// Whether a flight counts as delayed.
pub open spec fn is_delayed_flight(f: Flight) -> bool {
    f.status is Delayed
}

/// Whether a flight is cancelled.
pub open spec fn is_cancelled_flight(f: Flight) -> bool {
    f.status is Cancelled
}

/// Whether an aircraft counts as active for the metrics (active or in
/// flight).
pub open spec fn is_counted_active_aircraft(a: Aircraft) -> bool {
    a.status is Active || a.status is InFlight
}

/// Whether an aircraft is in maintenance.
pub open spec fn is_maintenance_aircraft(a: Aircraft) -> bool {
    a.status is Maintenance
}

/// How many flights of `s` are active.
pub open spec fn count_active_flights(s: Seq<Flight>) -> nat
    decreases s.len(),
{
    if s.len() == 0 {
        0
    } else {
        count_active_flights(s.drop_last()) + if is_active_flight(s.last()) {
            1nat
        } else {
            0nat
        }
    }
}

/// How many flights of `s` are delayed.
pub open spec fn count_delayed_flights(s: Seq<Flight>) -> nat
    decreases s.len(),
{
    if s.len() == 0 {
        0
    } else {
        count_delayed_flights(s.drop_last()) + if is_delayed_flight(s.last()) {
            1nat
        } else {
            0nat
        }
    }
}

/// How many flights of `s` are cancelled.
pub open spec fn count_cancelled_flights(s: Seq<Flight>) -> nat
    decreases s.len(),
{
    if s.len() == 0 {
        0
    } else {
        count_cancelled_flights(s.drop_last()) + if is_cancelled_flight(s.last()) {
            1nat
        } else {
            0nat
        }
    }
}

/// How many aircraft of `s` count as active.
pub open spec fn count_active_aircraft(s: Seq<Aircraft>) -> nat
    decreases s.len(),
{
    if s.len() == 0 {
        0
    } else {
        count_active_aircraft(s.drop_last()) + if is_counted_active_aircraft(s.last()) {
            1nat
        } else {
            0nat
        }
    }
}

/// How many aircraft of `s` are in maintenance.
pub open spec fn count_maintenance_aircraft(s: Seq<Aircraft>) -> nat
    decreases s.len(),
{
    if s.len() == 0 {
        0
    } else {
        count_maintenance_aircraft(s.drop_last()) + if is_maintenance_aircraft(s.last()) {
            1nat
        } else {
            0nat
        }
    }
}

impl SystemMetrics {
    /// All counters zero, stamped with the current time.
    pub fn new() -> (m: SystemMetrics)
        ensures
            m.total_flights == 0,
            m.active_flights == 0,
            m.delayed_flights == 0,
            m.cancelled_flights == 0,
            m.total_aircraft == 0,
            m.active_aircraft == 0,
            m.aircraft_in_maintenance == 0,
            m.total_bookings == 0,
            m.revenue_today == 0,
            m.revenue_month == 0,
            m.average_load_factor == 0,
            0 <= m.last_updated <= MAX_TIMESTAMP,
    {
        SystemMetrics {
            total_flights: 0,
            active_flights: 0,
            delayed_flights: 0,
            cancelled_flights: 0,
            total_aircraft: 0,
            active_aircraft: 0,
            aircraft_in_maintenance: 0,
            total_bookings: 0,
            revenue_today: 0,
            revenue_month: 0,
            average_load_factor: 0,
            last_updated: sys::current_timestamp(),
        }
    }

    /// Recomputes the flight counters from the full collection.
    pub fn update_flight_metrics(&mut self, flights: &Vec<Flight>)
        requires
            flights@.len() <= u32::MAX,
        ensures
            final(self).total_flights == flights@.len(),
            final(self).active_flights == count_active_flights(flights@),
            final(self).delayed_flights == count_delayed_flights(flights@),
            final(self).cancelled_flights == count_cancelled_flights(flights@),
            0 <= final(self).last_updated <= MAX_TIMESTAMP,
            final(self).total_aircraft == old(self).total_aircraft,
            final(self).active_aircraft == old(self).active_aircraft,
            final(self).aircraft_in_maintenance == old(self).aircraft_in_maintenance,
            final(self).total_bookings == old(self).total_bookings,
            final(self).revenue_today == old(self).revenue_today,
            final(self).revenue_month == old(self).revenue_month,
            final(self).average_load_factor == old(self).average_load_factor,
    {
        let n = flights.len();
        let mut active: u32 = 0;
        let mut delayed: u32 = 0;
        let mut cancelled: u32 = 0;
        let mut i: usize = 0;
        proof {
            assert(flights@.take(0) =~= Seq::<Flight>::empty());
        }
        while i < n
            invariant
                0 <= i <= n,
                n == flights@.len(),
                n <= u32::MAX,
                active == count_active_flights(flights@.take(i as int)),
                delayed == count_delayed_flights(flights@.take(i as int)),
                cancelled == count_cancelled_flights(flights@.take(i as int)),
                active <= i,
                delayed <= i,
                cancelled <= i,
            decreases n - i,
        {
            proof {
                assert(flights@.take(i + 1).drop_last() =~= flights@.take(i as int));
                assert(flights@.take(i + 1).last() == flights@[i as int]);
            }
            let f = &flights[i];
            match f.status {
                FlightStatus::OnTime | FlightStatus::Delayed(_) => {
                    active = active + 1;
                },
                _ => {},
            }
            match f.status {
                FlightStatus::Delayed(_) => {
                    delayed = delayed + 1;
                },
                _ => {},
            }
            match f.status {
                FlightStatus::Cancelled => {
                    cancelled = cancelled + 1;
                },
                _ => {},
            }
            i = i + 1;
        }
        proof {
            assert(flights@.take(n as int) =~= flights@);
        }
        self.total_flights = n as u32;
        self.active_flights = active;
        self.delayed_flights = delayed;
        self.cancelled_flights = cancelled;
        self.last_updated = sys::current_timestamp();
    }

    /// Recomputes the aircraft counters from the full collection.
    pub fn update_aircraft_metrics(&mut self, aircraft: &Vec<Aircraft>)
        requires
            aircraft@.len() <= u32::MAX,
        ensures
            final(self).total_aircraft == aircraft@.len(),
            final(self).active_aircraft == count_active_aircraft(aircraft@),
            final(self).aircraft_in_maintenance == count_maintenance_aircraft(aircraft@),
            0 <= final(self).last_updated <= MAX_TIMESTAMP,
            final(self).total_flights == old(self).total_flights,
            final(self).active_flights == old(self).active_flights,
            final(self).delayed_flights == old(self).delayed_flights,
            final(self).cancelled_flights == old(self).cancelled_flights,
            final(self).total_bookings == old(self).total_bookings,
            final(self).revenue_today == old(self).revenue_today,
            final(self).revenue_month == old(self).revenue_month,
            final(self).average_load_factor == old(self).average_load_factor,
    {
        let n = aircraft.len();
        let mut active: u32 = 0;
        let mut maintenance: u32 = 0;
        let mut i: usize = 0;
        proof {
            assert(aircraft@.take(0) =~= Seq::<Aircraft>::empty());
        }
        while i < n
            invariant
                0 <= i <= n,
                n == aircraft@.len(),
                n <= u32::MAX,
                active == count_active_aircraft(aircraft@.take(i as int)),
                maintenance == count_maintenance_aircraft(aircraft@.take(i as int)),
                active <= i,
                maintenance <= i,
            decreases n - i,
        {
            proof {
                assert(aircraft@.take(i + 1).drop_last() =~= aircraft@.take(i as int));
                assert(aircraft@.take(i + 1).last() == aircraft@[i as int]);
            }
            let a = &aircraft[i];
            match a.status {
                AircraftStatus::Active | AircraftStatus::InFlight => {
                    active = active + 1;
                },
                _ => {},
            }
            match a.status {
                AircraftStatus::Maintenance => {
                    maintenance = maintenance + 1;
                },
                _ => {},
            }
            i = i + 1;
        }
        proof {
            assert(aircraft@.take(n as int) =~= aircraft@);
        }
        self.total_aircraft = n as u32;
        self.active_aircraft = active;
        self.aircraft_in_maintenance = maintenance;
        self.last_updated = sys::current_timestamp();
    }

    /// One-line summary of the key counters.
    pub fn get_summary(&self) -> (r: String)
        ensures
            r@ == "Flights: "@ + text::dec_digits(self.active_flights as nat) + " active, "@
                + text::dec_digits(self.delayed_flights as nat) + " delayed | Aircraft: "@
                + text::dec_digits(self.active_aircraft as nat) + " active, "@ + text::dec_digits(
                self.aircraft_in_maintenance as nat,
            ) + " maintenance | Revenue: $"@ + text::amount_chars(self.revenue_today as nat)
                + " today"@,
    {
        let mut s = String::from_str("Flights: ");
        let a = text::u64_to_dec(self.active_flights as u64);
        s.append(a.as_str());
        s.append(" active, ");
        let d = text::u64_to_dec(self.delayed_flights as u64);
        s.append(d.as_str());
        s.append(" delayed | Aircraft: ");
        let aa = text::u64_to_dec(self.active_aircraft as u64);
        s.append(aa.as_str());
        s.append(" active, ");
        let m = text::u64_to_dec(self.aircraft_in_maintenance as u64);
        s.append(m.as_str());
        s.append(" maintenance | Revenue: $");
        let rev = text::amount_to_dec(self.revenue_today);
        s.append(rev.as_str());
        s.append(" today");
        proof {
            assert(s@ =~= "Flights: "@ + text::dec_digits(self.active_flights as nat) + " active, "@
                + text::dec_digits(self.delayed_flights as nat) + " delayed | Aircraft: "@
                + text::dec_digits(self.active_aircraft as nat) + " active, "@ + text::dec_digits(
                self.aircraft_in_maintenance as nat,
            ) + " maintenance | Revenue: $"@ + text::amount_chars(self.revenue_today as nat)
                + " today"@);
        }
        s
    }
}

/// Whether the username and password are a known credential pair.
pub open spec fn spec_valid_credentials(username: Seq<char>, password: Seq<char>) -> bool {
    ||| (username == "admin"@ && password == "admin123"@)
    ||| (username == "flight_mgr"@ && password == "flight123"@)
    ||| (username == "aircraft_mgr"@ && password == "aircraft123"@)
}

/// The role a known username signs in with.
pub open spec fn spec_level_for(username: Seq<char>) -> AdminLevel {
    if username == "admin"@ {
        AdminLevel::SuperAdmin
    } else if username == "flight_mgr"@ {
        AdminLevel::FlightManager
    } else {
        AdminLevel::AircraftManager
    }
}

impl AdminPanel {
    /// Every audit record's timestamp lies in the representable range.
    pub open spec fn wf(self) -> bool {
        forall|i: int| 0 <= i < self.audit_log@.len() ==> (#[trigger] self.audit_log@[i]).wf()
    }

    /// An empty panel: nobody signed in, empty audit log, no rules,
    /// zeroed metrics.
    pub fn new() -> (p: AdminPanel)
        ensures
            p.wf(),
            p.current_admin is None,
            p.audit_log@.len() == 0,
            p.pricing_rules@.len() == 0,
            p.system_metrics.total_bookings == 0,
            p.system_metrics.revenue_today == 0,
            p.system_metrics.revenue_month == 0,
    {
        AdminPanel {
            current_admin: None,
            audit_log: Vec::new(),
            pricing_rules: Vec::new(),
            system_metrics: SystemMetrics::new(),
        }
    }

    /// Signs an admin in if the credentials are known: the session is set,
    /// the login is logged, and the signed-in admin is returned. Unknown
    /// credentials fail without mutation.
    pub fn authenticate(&mut self, username: &str, password: &str) -> (r: Result<
        AdminUser,
        AirportError,
    >)
        requires
            old(self).wf(),
        ensures
            final(self).wf(),
            r is Ok <==> spec_valid_credentials(username@, password@),
            r matches Ok(a) ==> {
                &&& a.username@ == username@
                &&& a.level == spec_level_for(username@)
                &&& a.is_active
                &&& a.last_login is Some
                &&& final(self).current_admin == Some(a)
                &&& final(self).audit_log@.len() == old(self).audit_log@.len() + 1
                &&& final(self).audit_log@.take(old(self).audit_log@.len() as int) == old(self).audit_log@
                &&& final(self).audit_log@.last().action_type@ == "LOGIN"@
                &&& final(self).audit_log@.last().admin_id == a.id
                &&& final(self).pricing_rules == old(self).pricing_rules
                &&& final(self).system_metrics == old(self).system_metrics
            },
            r is Err ==> *final(self) == *old(self),
            r matches Err(e) ==> (e matches AirportError::AuthenticationFailed { username: u }
                && u@ == username@),
    {
        proof {
            reveal_strlit("admin");
            reveal_strlit("flight_mgr");
            reveal_strlit("aircraft_mgr");
        }
        let level = if text::str_eq(username, "admin") && text::str_eq(password, "admin123") {
            AdminLevel::SuperAdmin
        } else if text::str_eq(username, "flight_mgr") && text::str_eq(password, "flight123") {
            AdminLevel::FlightManager
        } else if text::str_eq(username, "aircraft_mgr") && text::str_eq(password, "aircraft123") {
            AdminLevel::AircraftManager
        } else {
            return Err(
                AirportError::AuthenticationFailed { username: String::from_str(username) },
            );
        };
        let full_name = match level {
            AdminLevel::SuperAdmin => String::from_str("System Administrator"),
            AdminLevel::FlightManager => String::from_str("Flight Manager"),
            _ => String::from_str("Aircraft Manager"),
        };
        let email = match level {
            AdminLevel::SuperAdmin => String::from_str("admin@rust-airport.com"),
            AdminLevel::FlightManager => String::from_str("flights@rust-airport.com"),
            _ => String::from_str("aircraft@rust-airport.com"),
        };
        let mut admin = AdminUser::new(String::from_str(username), full_name, email, level);
        admin.login();
        let admin_id = admin.id;
        self.current_admin = Some(admin.clone());
        let mut description = String::from_str("User ");
        description.append(username);
        description.append(" logged into admin panel");
        self.log_action(admin_id, String::from_str("LOGIN"), description, None, None, None);
        Ok(admin)
    }

    /// Signs the current admin out, logging the logout first; signing out
    /// with no session only clears the session.
    pub fn logout(&mut self)
        requires
            old(self).wf(),
        ensures
            final(self).wf(),
            final(self).current_admin is None,
            old(self).current_admin matches Some(a) ==> final(self).audit_log@.len() == old(self).audit_log@.len() + 1 && final(self).audit_log@.take(
                old(self).audit_log@.len() as int,
            ) == old(self).audit_log@ && final(self).audit_log@.last().action_type@ == "LOGOUT"@
                && final(self).audit_log@.last().admin_id == a.id,
            old(self).current_admin is None ==> final(self).audit_log == old(self).audit_log,
            final(self).pricing_rules == old(self).pricing_rules,
            final(self).system_metrics == old(self).system_metrics,
    {
        let (admin_id, username) = match &self.current_admin {
            Some(admin) => (admin.id, admin.username.clone()),
            None => {
                self.current_admin = None;
                return ;
            },
        };
        let mut description = String::from_str("User ");
        description.append(username.as_str());
        description.append(" logged out of admin panel");
        self.log_action(admin_id, String::from_str("LOGOUT"), description, None, None, None);
        self.current_admin = None;
    }

    /// Appends one record to the audit log; nothing else changes.
    pub fn log_action(
        &mut self,
        admin_id: u128,
        action_type: String,
        description: String,
        affected_entity_id: Option<u128>,
        old_value: Option<String>,
        new_value: Option<String>,
    )
        requires
            old(self).wf(),
        ensures
            final(self).wf(),
            final(self).audit_log@.len() == old(self).audit_log@.len() + 1,
            final(self).audit_log@.take(old(self).audit_log@.len() as int) == old(self).audit_log@,
            final(self).audit_log@.last().admin_id == admin_id,
            final(self).audit_log@.last().action_type == action_type,
            final(self).audit_log@.last().description == description,
            final(self).audit_log@.last().affected_entity_id == affected_entity_id,
            final(self).audit_log@.last().old_value == old_value,
            final(self).audit_log@.last().new_value == new_value,
            final(self).audit_log@.last().wf(),
            final(self).current_admin == old(self).current_admin,
            final(self).pricing_rules == old(self).pricing_rules,
            final(self).system_metrics == old(self).system_metrics,
    {
        let action = AdminAction::new(
            admin_id,
            action_type,
            description,
            affected_entity_id,
            old_value,
            new_value,
        );
        let ghost pre = self.audit_log@;
        self.audit_log.push(action);
        proof {
            assert(self.audit_log@.take(pre.len() as int) =~= pre);
        }
    }

    /// Adds a pricing rule if an admin with the pricing capability is
    /// signed in, logging the addition; otherwise fails without mutation.
    pub fn add_pricing_rule(&mut self, rule: PricingRule) -> (r: Result<(), AirportError>)
        requires
            old(self).wf(),
        ensures
            final(self).wf(),
            r is Ok <==> (old(self).current_admin matches Some(a) && (a.level is SuperAdmin
                || a.level is FinanceManager)),
            r is Ok ==> {
                &&& final(self).pricing_rules@ == old(self).pricing_rules@.push(rule)
                &&& final(self).audit_log@.len() == old(self).audit_log@.len() + 1
                &&& final(self).audit_log@.take(old(self).audit_log@.len() as int) == old(self).audit_log@
                &&& final(self).audit_log@.last().action_type@ == "ADD_PRICING_RULE"@
                &&& (old(self).current_admin matches Some(a) ==> final(self).audit_log@.last().admin_id == a.id)
                &&& final(self).audit_log@.last().affected_entity_id == Some(rule.id)
                &&& final(self).audit_log@.last().description@ == "Added pricing rule: "@
                    + rule.rule_name@
                &&& final(self).audit_log@.last().old_value is None
                &&& (final(self).audit_log@.last().new_value matches Some(nv) && nv@
                    == "Multiplier: "@ + text::dec_digits(rule.multiplier as nat))
                &&& final(self).current_admin == old(self).current_admin
                &&& final(self).system_metrics == old(self).system_metrics
            },
            r is Err ==> *final(self) == *old(self),
            r matches Err(e) ==> e matches AirportError::InsufficientPermissions { .. },
    {
        let (admin_id, allowed) = match &self.current_admin {
            Some(admin) => (admin.id, admin.can_manage_pricing()),
            None => {
                return Err(
                    AirportError::InsufficientPermissions {
                        operation: String::from_str("manage pricing"),
                    },
                );
            },
        };
        if !allowed {
            return Err(
                AirportError::InsufficientPermissions {
                    operation: String::from_str("manage pricing"),
                },
            );
        }
        let mut description = String::from_str("Added pricing rule: ");
        description.append(rule.rule_name.as_str());
        let mut new_value = String::from_str("Multiplier: ");
        let m = text::u64_to_dec(rule.multiplier);
        new_value.append(m.as_str());
        let rule_id = rule.id;
        self.log_action(
            admin_id,
            String::from_str("ADD_PRICING_RULE"),
            description,
            Some(rule_id),
            None,
            Some(new_value),
        );
        self.pricing_rules.push(rule);
        Ok(())
    }

    /// The combined multiplier of all active rules matching the route and
    /// hour, folded in registration order.
    pub fn get_applicable_multiplier(&self, origin: &str, destination: &str, hour: u8) -> (m: u64)
        ensures
            m == multiplier_fold(self.pricing_rules@, origin@, destination@, hour),
    {
        let n = self.pricing_rules.len();
        let mut acc: u64 = MULTIPLIER_SCALE;
        let mut i: usize = 0;
        proof {
            assert(self.pricing_rules@.take(0) =~= Seq::<PricingRule>::empty());
        }
        while i < n
            invariant
                0 <= i <= n,
                n == self.pricing_rules@.len(),
                acc == multiplier_fold(
                    self.pricing_rules@.take(i as int),
                    origin@,
                    destination@,
                    hour,
                ),
            decreases n - i,
        {
            proof {
                assert(self.pricing_rules@.take(i + 1).drop_last() =~= self.pricing_rules@.take(
                    i as int,
                ));
                assert(self.pricing_rules@.take(i + 1).last() == self.pricing_rules@[i as int]);
            }
            let rule = &self.pricing_rules[i];
            if rule.is_active && rule.applies_to_route(origin, destination) && rule.applies_to_time(
                hour,
            ) {
                acc = crate::modules::flight::apply_multiplier(acc, rule.multiplier);
            }
            i = i + 1;
        }
        proof {
            assert(self.pricing_rules@.take(n as int) =~= self.pricing_rules@);
        }
        acc
    }

    /// The most recent `limit` audit records, newest first.
    pub fn get_recent_actions(&self, limit: usize) -> (v: Vec<AdminAction>)
        ensures
            v@.len() == if limit <= self.audit_log@.len() {
                limit as int
            } else {
                self.audit_log@.len() as int
            },
            forall|i: int|
                0 <= i < v@.len() ==> v@[i] == self.audit_log@[self.audit_log@.len() - 1 - i],
    {
        let n = self.audit_log.len();
        let count = if limit <= n {
            limit
        } else {
            n
        };
        let mut v: Vec<AdminAction> = Vec::new();
        let mut i: usize = 0;
        while i < count
            invariant
                0 <= i <= count,
                count <= n,
                n == self.audit_log@.len(),
                v@.len() == i,
                forall|j: int| 0 <= j < i ==> v@[j] == self.audit_log@[n - 1 - j],
            decreases count - i,
        {
            v.push(self.audit_log[n - 1 - i].clone());
            i = i + 1;
        }
        v
    }

    /// Whether an admin session is open.
    pub fn is_authenticated(&self) -> (r: bool)
        ensures
            r == (self.current_admin is Some),
    {
        match &self.current_admin {
            Some(_) => true,
            None => false,
        }
    }

    /// The signed-in admin's full name, or a placeholder.
    pub fn current_admin_name(&self) -> (r: String)
        ensures
            match self.current_admin {
                Some(a) => r@ == a.full_name@,
                None => r@ == "Not logged in"@,
            },
    {
        match &self.current_admin {
            Some(admin) => admin.full_name.clone(),
            None => String::from_str("Not logged in"),
        }
    }
}

/// The multiplier law: folding over all rules equals folding over exactly
/// the matching rules — inactive rules and rules whose route or hour does
/// not match contribute nothing.
pub proof fn lemma_multiplier_counts_only_matching_rules(
    rules: Seq<PricingRule>,
    origin: Seq<char>,
    destination: Seq<char>,
    hour: u8,
)
    ensures
        multiplier_fold(rules, origin, destination, hour) == multiplier_fold(
            rules.filter(|r: PricingRule| rule_matches(r, origin, destination, hour)),
            origin,
            destination,
            hour,
        ),
    decreases rules.len(),
{
    let pred = |r: PricingRule| rule_matches(r, origin, destination, hour);
    if rules.len() == 0 {
        assert(rules.filter(pred) =~= rules);
    } else {
        lemma_multiplier_counts_only_matching_rules(rules.drop_last(), origin, destination, hour);
        reveal_with_fuel(Seq::filter, 2);
        if pred(rules.last()) {
            assert(rules.filter(pred) == rules.drop_last().filter(pred).push(rules.last()));
            assert(rules.filter(pred).drop_last() =~= rules.drop_last().filter(pred));
            assert(rules.filter(pred).last() == rules.last());
        } else {
            assert(rules.filter(pred) == rules.drop_last().filter(pred));
        }
    }
}

/// The multiplier law, empty case: with no matching rule the multiplier
/// is exactly one (the fixed-point scale).
pub proof fn lemma_multiplier_one_without_matching_rules(
    rules: Seq<PricingRule>,
    origin: Seq<char>,
    destination: Seq<char>,
    hour: u8,
)
    requires
        forall|i: int| 0 <= i < rules.len() ==> !rule_matches(#[trigger] rules[i], origin, destination, hour),
    ensures
        multiplier_fold(rules, origin, destination, hour) == MULTIPLIER_SCALE,
    decreases rules.len(),
{
    if rules.len() > 0 {
        assert(!rule_matches(rules[rules.len() - 1], origin, destination, hour));
        lemma_multiplier_one_without_matching_rules(
            rules.drop_last(),
            origin,
            destination,
            hour,
        );
    }
}

} // verus!
