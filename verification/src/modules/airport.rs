//! Airports: static reference data — terminals, runways, coordinates and
//! operating hours. Coordinates are fixed-point microdegrees.

use vstd::prelude::*;
use vstd::string::*;
use crate::sys;
use crate::text;

verus! {

/// Size classification by annual passenger volume.
#[derive(Debug, Clone, Copy, PartialEq, Eq, Structural)]
pub enum AirportSize {
    Small,
    Medium,
    Large,
    Hub,
}

/// A terminal and its gates.
#[derive(Debug)]
pub struct Terminal {
    pub id: String,
    pub name: String,
    pub gates: Vec<String>,
    pub amenities: Vec<String>,
    pub is_international: bool,
}

/// A runway.
#[derive(Debug)]
pub struct Runway {
    pub id: String,
    pub length_meters: u32,
    pub width_meters: u32,
    /// e.g. `Asphalt`, `Concrete`.
    pub surface_type: String,
    pub is_active: bool,
}

/// A geographic position in microdegrees (degrees times one million).
#[derive(Debug, Clone, Copy, PartialEq, Eq, Structural)]
pub struct Coordinates {
    pub latitude: i64,
    pub longitude: i64,
}

/// An airport: static reference data, never mutated by the simulator.
#[derive(Debug)]
pub struct Airport {
    pub id: u128,
    /// IATA code, e.g. `LAX`.
    pub code: String,
    /// ICAO code, e.g. `KLAX`.
    pub icao_code: String,
    pub name: String,
    pub city: String,
    pub country: String,
    /// e.g. `America/Los_Angeles`.
    pub timezone: String,
    pub coordinates: Coordinates,
    pub elevation_meters: i32,
    pub airport_size: AirportSize,
    pub terminals: Vec<Terminal>,
    pub runways: Vec<Runway>,
    pub annual_passengers: u64,
    pub cargo_capacity_tonnes: u32,
    /// `(start_hour, end_hour)`, inclusive, in 24h format.
    pub operating_hours: (u8, u8),
    pub services: Vec<String>,
    pub is_international: bool,
    pub customs_available: bool,
}

/// The size classification of well-known airport codes.
pub open spec fn spec_determine_size(code: Seq<char>) -> AirportSize {
    if code == "LAX"@ || code == "JFK"@ || code == "LHR"@ || code == "CDG"@ || code == "DXB"@
        || code == "ATL"@ || code == "ORD"@ || code == "DFW"@ {
        AirportSize::Hub
    } else if code == "SFO"@ || code == "MIA"@ || code == "BOS"@ || code == "SEA"@ || code
        == "DEN"@ || code == "LAS"@ || code == "PHX"@ || code == "IAH"@ {
        AirportSize::Large
    } else if code == "AUS"@ || code == "SAN"@ || code == "MSP"@ || code == "DTW"@ || code
        == "PHL"@ || code == "CLT"@ || code == "BWI"@ || code == "MDW"@ {
        AirportSize::Medium
    } else {
        AirportSize::Small
    }
}

/// The annual passenger estimate for a size class.
pub open spec fn spec_annual_passengers(size: AirportSize) -> u64 {
    match size {
        AirportSize::Small => 500_000u64,
        AirportSize::Medium => 5_000_000u64,
        AirportSize::Large => 25_000_000u64,
        AirportSize::Hub => 80_000_000u64,
    }
}

/// Whether `t` is the terminal with the given identity, gate series
/// (`letter` followed by 1-based gate numbers, `count` gates), amenities
/// and international flag.
pub open spec fn terminal_is(
    t: Terminal,
    id: Seq<char>,
    name: Seq<char>,
    letter: Seq<char>,
    count: int,
    amenities: Seq<Seq<char>>,
    intl: bool,
) -> bool {
    &&& t.id@ == id
    &&& t.name@ == name
    &&& t.gates@.len() == count
    &&& (forall|i: int| 0 <= i < count ==> t.gates@[i]@ == letter + text::dec_digits((i + 1) as nat))
    &&& t.amenities@.len() == amenities.len()
    &&& (forall|i: int| 0 <= i < amenities.len() ==> t.amenities@[i]@ == amenities[i])
    &&& t.is_international == intl
}

/// Whether `r` is the runway with the given identity and dimensions.
pub open spec fn runway_is(
    r: Runway,
    id: Seq<char>,
    length_meters: u32,
    width_meters: u32,
    surface: Seq<char>,
    active: bool,
) -> bool {
    &&& r.id@ == id
    &&& r.length_meters == length_meters
    &&& r.width_meters == width_meters
    &&& r.surface_type@ == surface
    &&& r.is_active == active
}

/// The default infrastructure generated for each size class.
pub open spec fn infrastructure_ok(
    size: AirportSize,
    terminals: Seq<Terminal>,
    runways: Seq<Runway>,
) -> bool {
    match size {
        AirportSize::Hub => {
            &&& terminals.len() == 3
            &&& terminal_is(
                terminals[0],
                "T1"@,
                "Terminal 1 - International"@,
                "A"@,
                30,
                seq!["Duty Free"@, "Lounges"@, "Restaurants"@],
                true,
            )
            &&& terminal_is(
                terminals[1],
                "T2"@,
                "Terminal 2 - Domestic"@,
                "B"@,
                25,
                seq!["Fast Food"@, "Shops"@, "Business Center"@],
                false,
            )
            &&& terminal_is(
                terminals[2],
                "T3"@,
                "Terminal 3 - Mixed"@,
                "C"@,
                20,
                seq!["Restaurants"@, "Shopping"@],
                true,
            )
            &&& runways.len() == 3
            &&& runway_is(runways[0], "07L/25R"@, 4000, 60, "Concrete"@, true)
            &&& runway_is(runways[1], "07R/25L"@, 3800, 60, "Concrete"@, true)
            &&& runway_is(runways[2], "06L/24R"@, 3500, 45, "Asphalt"@, true)
        },
        AirportSize::Large => {
            &&& terminals.len() == 2
            &&& terminal_is(
                terminals[0],
                "T1"@,
                "Terminal 1"@,
                "A"@,
                20,
                seq!["Restaurants"@, "Shops"@, "Lounges"@],
                true,
            )
            &&& terminal_is(
                terminals[1],
                "T2"@,
                "Terminal 2"@,
                "B"@,
                15,
                seq!["Fast Food"@, "Shopping"@],
                false,
            )
            &&& runways.len() == 2
            &&& runway_is(runways[0], "09/27"@, 3500, 45, "Concrete"@, true)
            &&& runway_is(runways[1], "04/22"@, 3200, 45, "Asphalt"@, true)
        },
        AirportSize::Medium => {
            &&& terminals.len() == 1
            &&& terminal_is(
                terminals[0],
                "T1"@,
                "Main Terminal"@,
                "A"@,
                12,
                seq!["Restaurants"@, "Shops"@],
                true,
            )
            &&& runways.len() == 1
            &&& runway_is(runways[0], "12/30"@, 2800, 45, "Asphalt"@, true)
        },
        AirportSize::Small => {
            &&& terminals.len() == 1
            &&& terminal_is(
                terminals[0],
                "T1"@,
                "Terminal"@,
                "A"@,
                6,
                seq!["Cafe"@, "Gift Shop"@],
                false,
            )
            &&& runways.len() == 1
            &&& runway_is(runways[0], "18/36"@, 2000, 30, "Asphalt"@, true)
        },
    }
}

/// One gate label per number from 1 to `count`, prefixed with the letter.
fn make_gates(letter: &str, count: u64) -> (v: Vec<String>)
    ensures
        v@.len() == count,
        forall|i: int| 0 <= i < count ==> v@[i]@ == letter@ + text::dec_digits((i + 1) as nat),
{
    let mut v: Vec<String> = Vec::new();
    let mut i: u64 = 0;
    while i < count
        invariant
            0 <= i <= count,
            v@.len() == i,
            forall|j: int| 0 <= j < i ==> v@[j]@ == letter@ + text::dec_digits((j + 1) as nat),
        decreases count - i,
    {
        let mut g = String::from_str(letter);
        let d = text::u64_to_dec(i + 1);
        g.append(d.as_str());
        v.push(g);
        i = i + 1;
    }
    v
}

impl Airport {
    /// Creates an airport: the code determines the size class, which in
    /// turn determines the default terminals, runways and passenger
    /// volume. Coordinates are in microdegrees.
    pub fn new(
        code: String,
        icao_code: String,
        name: String,
        city: String,
        country: String,
        timezone: String,
        latitude: i64,
        longitude: i64,
        elevation_meters: i32,
    ) -> (a: Airport)
        ensures
            a.code == code,
            a.icao_code == icao_code,
            a.name == name,
            a.city == city,
            a.country == country,
            a.timezone == timezone,
            a.coordinates == (Coordinates { latitude, longitude }),
            a.elevation_meters == elevation_meters,
            a.airport_size == spec_determine_size(code@),
            infrastructure_ok(a.airport_size, a.terminals@, a.runways@),
            a.annual_passengers == spec_annual_passengers(a.airport_size),
            a.cargo_capacity_tonnes == 100_000,
            a.operating_hours == (5u8, 23u8),
            a.services@.len() == 8,
            a.is_international,
            a.customs_available,
    {
        let airport_size = Self::determine_size(code.as_str());
        let (terminals, runways) = Self::generate_infrastructure(&airport_size, code.as_str());
        let annual_passengers: u64 = match airport_size {
            AirportSize::Small => 500_000,
            AirportSize::Medium => 5_000_000,
            AirportSize::Large => 25_000_000,
            AirportSize::Hub => 80_000_000,
        };
        let mut services: Vec<String> = Vec::new();
        services.push(String::from_str("Car Rental"));
        services.push(String::from_str("Taxi Service"));
        services.push(String::from_str("Parking"));
        services.push(String::from_str("Dining"));
        services.push(String::from_str("Shopping"));
        services.push(String::from_str("WiFi"));
        services.push(String::from_str("ATM"));
        services.push(String::from_str("Lost & Found"));

        Airport {
            id: sys::fresh_id(),
            code,
            icao_code,
            name,
            city,
            country,
            timezone,
            coordinates: Coordinates { latitude, longitude },
            elevation_meters,
            airport_size,
            terminals,
            runways,
            annual_passengers,
            cargo_capacity_tonnes: 100_000,
            operating_hours: (5, 23),
            services,
            is_international: true,
            customs_available: true,
        }
    }

    /// Classifies an airport code into a size class.
    fn determine_size(code: &str) -> (size: AirportSize)
        ensures
            size == spec_determine_size(code@),
    {
        if text::str_eq(code, "LAX") || text::str_eq(code, "JFK") || text::str_eq(code, "LHR")
            || text::str_eq(code, "CDG") || text::str_eq(code, "DXB") || text::str_eq(code, "ATL")
            || text::str_eq(code, "ORD") || text::str_eq(code, "DFW") {
            AirportSize::Hub
        } else if text::str_eq(code, "SFO") || text::str_eq(code, "MIA") || text::str_eq(
            code,
            "BOS",
        ) || text::str_eq(code, "SEA") || text::str_eq(code, "DEN") || text::str_eq(code, "LAS")
            || text::str_eq(code, "PHX") || text::str_eq(code, "IAH") {
            AirportSize::Large
        } else if text::str_eq(code, "AUS") || text::str_eq(code, "SAN") || text::str_eq(
            code,
            "MSP",
        ) || text::str_eq(code, "DTW") || text::str_eq(code, "PHL") || text::str_eq(code, "CLT")
            || text::str_eq(code, "BWI") || text::str_eq(code, "MDW") {
            AirportSize::Medium
        } else {
            AirportSize::Small
        }
    }

    /// Builds the default terminals and runways for a size class.
    fn generate_infrastructure(size: &AirportSize, _code: &str) -> (r: (Vec<Terminal>, Vec<Runway>))
        ensures
            infrastructure_ok(*size, r.0@, r.1@),
    {
        let mut terminals: Vec<Terminal> = Vec::new();
        let mut runways: Vec<Runway> = Vec::new();
        match size {
            AirportSize::Hub => {
                let mut am1: Vec<String> = Vec::new();
                am1.push(String::from_str("Duty Free"));
                am1.push(String::from_str("Lounges"));
                am1.push(String::from_str("Restaurants"));
                terminals.push(
                    Terminal {
                        id: String::from_str("T1"),
                        name: String::from_str("Terminal 1 - International"),
                        gates: make_gates("A", 30),
                        amenities: am1,
                        is_international: true,
                    },
                );
                let mut am2: Vec<String> = Vec::new();
                am2.push(String::from_str("Fast Food"));
                am2.push(String::from_str("Shops"));
                am2.push(String::from_str("Business Center"));
                terminals.push(
                    Terminal {
                        id: String::from_str("T2"),
                        name: String::from_str("Terminal 2 - Domestic"),
                        gates: make_gates("B", 25),
                        amenities: am2,
                        is_international: false,
                    },
                );
                let mut am3: Vec<String> = Vec::new();
                am3.push(String::from_str("Restaurants"));
                am3.push(String::from_str("Shopping"));
                terminals.push(
                    Terminal {
                        id: String::from_str("T3"),
                        name: String::from_str("Terminal 3 - Mixed"),
                        gates: make_gates("C", 20),
                        amenities: am3,
                        is_international: true,
                    },
                );
                runways.push(
                    Runway {
                        id: String::from_str("07L/25R"),
                        length_meters: 4000,
                        width_meters: 60,
                        surface_type: String::from_str("Concrete"),
                        is_active: true,
                    },
                );
                runways.push(
                    Runway {
                        id: String::from_str("07R/25L"),
                        length_meters: 3800,
                        width_meters: 60,
                        surface_type: String::from_str("Concrete"),
                        is_active: true,
                    },
                );
                runways.push(
                    Runway {
                        id: String::from_str("06L/24R"),
                        length_meters: 3500,
                        width_meters: 45,
                        surface_type: String::from_str("Asphalt"),
                        is_active: true,
                    },
                );
            },
            AirportSize::Large => {
                let mut am1: Vec<String> = Vec::new();
                am1.push(String::from_str("Restaurants"));
                am1.push(String::from_str("Shops"));
                am1.push(String::from_str("Lounges"));
                terminals.push(
                    Terminal {
                        id: String::from_str("T1"),
                        name: String::from_str("Terminal 1"),
                        gates: make_gates("A", 20),
                        amenities: am1,
                        is_international: true,
                    },
                );
                let mut am2: Vec<String> = Vec::new();
                am2.push(String::from_str("Fast Food"));
                am2.push(String::from_str("Shopping"));
                terminals.push(
                    Terminal {
                        id: String::from_str("T2"),
                        name: String::from_str("Terminal 2"),
                        gates: make_gates("B", 15),
                        amenities: am2,
                        is_international: false,
                    },
                );
                runways.push(
                    Runway {
                        id: String::from_str("09/27"),
                        length_meters: 3500,
                        width_meters: 45,
                        surface_type: String::from_str("Concrete"),
                        is_active: true,
                    },
                );
                runways.push(
                    Runway {
                        id: String::from_str("04/22"),
                        length_meters: 3200,
                        width_meters: 45,
                        surface_type: String::from_str("Asphalt"),
                        is_active: true,
                    },
                );
            },
            AirportSize::Medium => {
                let mut am1: Vec<String> = Vec::new();
                am1.push(String::from_str("Restaurants"));
                am1.push(String::from_str("Shops"));
                terminals.push(
                    Terminal {
                        id: String::from_str("T1"),
                        name: String::from_str("Main Terminal"),
                        gates: make_gates("A", 12),
                        amenities: am1,
                        is_international: true,
                    },
                );
                runways.push(
                    Runway {
                        id: String::from_str("12/30"),
                        length_meters: 2800,
                        width_meters: 45,
                        surface_type: String::from_str("Asphalt"),
                        is_active: true,
                    },
                );
            },
            AirportSize::Small => {
                let mut am1: Vec<String> = Vec::new();
                am1.push(String::from_str("Cafe"));
                am1.push(String::from_str("Gift Shop"));
                terminals.push(
                    Terminal {
                        id: String::from_str("T1"),
                        name: String::from_str("Terminal"),
                        gates: make_gates("A", 6),
                        amenities: am1,
                        is_international: false,
                    },
                );
                runways.push(
                    Runway {
                        id: String::from_str("18/36"),
                        length_meters: 2000,
                        width_meters: 30,
                        surface_type: String::from_str("Asphalt"),
                        is_active: true,
                    },
                );
            },
        }
        (terminals, runways)
    }

    /// All gate labels across all terminals, in terminal order.
    pub fn get_all_gates(&self) -> (v: Vec<String>)
        ensures
            string_views(v@) == all_gates_view(self.terminals@),
    {
        let mut v: Vec<String> = Vec::new();
        let n = self.terminals.len();
        let mut i: usize = 0;
        proof {
            assert(self.terminals@.take(0) =~= Seq::<Terminal>::empty());
            assert(string_views(v@) =~= all_gates_view(self.terminals@.take(0)));
        }
        while i < n
            invariant
                0 <= i <= n,
                n == self.terminals@.len(),
                string_views(v@) == all_gates_view(self.terminals@.take(i as int)),
            decreases n - i,
        {
            let t = &self.terminals[i];
            let m = t.gates.len();
            let mut j: usize = 0;
            proof {
                lemma_string_views_props(t.gates@);
                assert(string_views(t.gates@).take(0) =~= Seq::<Seq<char>>::empty());
                assert(string_views(v@) =~= all_gates_view(self.terminals@.take(i as int))
                    + string_views(t.gates@).take(0));
            }
            while j < m
                invariant
                    0 <= j <= m,
                    0 <= i < n,
                    n == self.terminals@.len(),
                    m == self.terminals@[i as int].gates@.len(),
                    *t == self.terminals@[i as int],
                    string_views(v@) == all_gates_view(self.terminals@.take(i as int))
                        + string_views(t.gates@).take(j as int),
                decreases m - j,
            {
                let c = t.gates[j].clone();
                let ghost vpre = v@;
                v.push(c);
                proof {
                    lemma_string_views_props(t.gates@);
                    let gvs = string_views(t.gates@);
                    assert(v@.drop_last() =~= vpre);
                    assert(string_views(v@) == string_views(vpre).push(v@.last()@));
                    assert(gvs.take(j + 1) =~= gvs.take(j as int).push(gvs[j as int]));
                    assert(string_views(v@) =~= all_gates_view(self.terminals@.take(i as int))
                        + gvs.take(j + 1));
                }
                j = j + 1;
            }
            proof {
                lemma_string_views_props(t.gates@);
                let ts = self.terminals@;
                assert(string_views(t.gates@).take(m as int) =~= string_views(t.gates@));
                assert(ts.take(i + 1).drop_last() =~= ts.take(i as int));
                assert(ts.take(i + 1).last() == ts[i as int]);
            }
            i = i + 1;
        }
        proof {
            assert(self.terminals@.take(n as int) =~= self.terminals@);
        }
        v
    }

    /// The first gate of the first terminal, if any.
    pub fn find_available_gate(&self) -> (r: Option<String>)
        ensures
            match r {
                Some(g) => self.terminals@.len() > 0 && self.terminals@[0].gates@.len() > 0 && g@
                    == self.terminals@[0].gates@[0]@,
                None => self.terminals@.len() == 0 || self.terminals@[0].gates@.len() == 0,
            },
    {
        if self.terminals.len() > 0 {
            let t = &self.terminals[0];
            if t.gates.len() > 0 {
                Some(t.gates[0].clone())
            } else {
                None
            }
        } else {
            None
        }
    }

    /// Whether the airport operates at the given hour (inclusive bounds,
    /// no overnight wraparound).
    pub fn is_operating(&self, hour: u8) -> (r: bool)
        ensures
            r == (self.operating_hours.0 <= hour && hour <= self.operating_hours.1),
    {
        hour >= self.operating_hours.0 && hour <= self.operating_hours.1
    }

    /// Whether some active runway is at least `aircraft_length` long.
    pub fn can_handle_aircraft(&self, aircraft_length: u32) -> (r: bool)
        ensures
            r == exists|i: int|
                0 <= i < self.runways@.len() && self.runways@[i].is_active
                    && self.runways@[i].length_meters >= aircraft_length,
    {
        let n = self.runways.len();
        let mut i: usize = 0;
        while i < n
            invariant
                0 <= i <= n,
                n == self.runways@.len(),
                forall|j: int|
                    0 <= j < i ==> !(self.runways@[j].is_active && self.runways@[j].length_meters
                        >= aircraft_length),
            decreases n - i,
        {
            let rw = &self.runways[i];
            if rw.is_active && rw.length_meters >= aircraft_length {
                return true;
            }
            i = i + 1;
        }
        false
    }

    /// Terminal and gate counts, e.g. `3 terminals, 75 gates`.
    pub fn get_terminal_info(&self) -> (r: String)
        requires
            total_gate_count(self.terminals@) <= u64::MAX,
        ensures
            r@ == text::dec_digits(self.terminals@.len()) + " terminals, "@ + text::dec_digits(
                total_gate_count(self.terminals@),
            ) + " gates"@,
    {
        let n = self.terminals.len();
        let mut gate_count: u64 = 0;
        let mut i: usize = 0;
        while i < n
            invariant
                0 <= i <= n,
                n == self.terminals@.len(),
                gate_count == total_gate_count(self.terminals@.take(i as int)),
                total_gate_count(self.terminals@) <= u64::MAX,
            decreases n - i,
        {
            proof {
                assert(self.terminals@.take(i + 1).drop_last() =~= self.terminals@.take(i as int));
                lemma_total_prefix_le(self.terminals@, i + 1);
            }
            gate_count = gate_count + self.terminals[i].gates.len() as u64;
            i = i + 1;
        }
        proof {
            assert(self.terminals@.take(n as int) =~= self.terminals@);
        }
        let mut s = text::u64_to_dec(n as u64);
        s.append(" terminals, ");
        let g = text::u64_to_dec(gate_count);
        s.append(g.as_str());
        s.append(" gates");
        proof {
            assert(s@ =~= text::dec_digits(self.terminals@.len()) + " terminals, "@
                + text::dec_digits(total_gate_count(self.terminals@)) + " gates"@);
        }
        s
    }

    /// The human-readable size label.
    pub fn get_size_display(&self) -> (r: String)
        ensures
            r@ == spec_size_display(self.airport_size),
    {
        match self.airport_size {
            AirportSize::Small => String::from_str("Regional Airport"),
            AirportSize::Medium => String::from_str("City Airport"),
            AirportSize::Large => String::from_str("Major Airport"),
            AirportSize::Hub => String::from_str("International Hub"),
        }
    }
}

/// The views of a sequence of strings, in order.
pub open spec fn string_views(gs: Seq<String>) -> Seq<Seq<char>>
    decreases gs.len(),
{
    if gs.len() == 0 {
        Seq::empty()
    } else {
        string_views(gs.drop_last()).push(gs.last()@)
    }
}

proof fn lemma_string_views_props(gs: Seq<String>)
    ensures
        string_views(gs).len() == gs.len(),
        forall|i: int| 0 <= i < gs.len() ==> string_views(gs)[i] == gs[i]@,
    decreases gs.len(),
{
    if gs.len() > 0 {
        lemma_string_views_props(gs.drop_last());
    }
}

/// The views of all gate labels of a terminal sequence, in order.
pub open spec fn all_gates_view(ts: Seq<Terminal>) -> Seq<Seq<char>>
    decreases ts.len(),
{
    if ts.len() == 0 {
        Seq::empty()
    } else {
        all_gates_view(ts.drop_last()) + string_views(ts.last().gates@)
    }
}

/// The total number of gates of a terminal sequence.
pub open spec fn total_gate_count(ts: Seq<Terminal>) -> nat
    decreases ts.len(),
{
    if ts.len() == 0 {
        0
    } else {
        total_gate_count(ts.drop_last()) + ts.last().gates@.len()
    }
}

proof fn lemma_total_prefix_le(ts: Seq<Terminal>, i: int)
    requires
        0 <= i <= ts.len(),
    ensures
        total_gate_count(ts.take(i)) <= total_gate_count(ts),
    decreases ts.len() - i,
{
    if i == ts.len() {
        assert(ts.take(i) =~= ts);
    } else {
        assert(ts.take(i + 1).drop_last() =~= ts.take(i));
        lemma_total_prefix_le(ts, i + 1);
    }
}

/// The human-readable label of an airport size class.
pub open spec fn spec_size_display(size: AirportSize) -> Seq<char> {
    match size {
        AirportSize::Small => "Regional Airport"@,
        AirportSize::Medium => "City Airport"@,
        AirportSize::Large => "Major Airport"@,
        AirportSize::Hub => "International Hub"@,
    }
}

} // verus!
