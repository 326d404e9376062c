//! Bookings: passengers, seat assignments, payments, and the booking
//! status machine (`Confirmed → CheckedIn → Boarded → Completed`, with
//! cancellation from `Confirmed` or `CheckedIn` only).

use vstd::prelude::*;
use vstd::string::*;
use crate::errors::AirportError;
use crate::modules::flight::SeatClass;
use crate::sys;
use crate::sys::MAX_TIMESTAMP;
use crate::text;

verus! {

/// Where a booking stands in its lifecycle.
#[derive(Debug, Clone, Copy, PartialEq, Eq, Structural)]
pub enum BookingStatus {
    Confirmed,
    CheckedIn,
    Boarded,
    Completed,
    Cancelled,
    NoShow,
}

/// Fare category of a passenger.
#[derive(Debug, Clone, Copy, PartialEq, Eq, Structural)]
pub enum PassengerType {
    Adult,
    Child,
    Infant,
    Senior,
}

/// A passenger record.
#[derive(Debug)]
pub struct Passenger {
    pub id: u128,
    pub first_name: String,
    pub last_name: String,
    pub email: String,
    pub phone: String,
    pub passport_number: Option<String>,
    /// Format: `YYYY-MM-DD`.
    pub date_of_birth: String,
    pub passenger_type: PassengerType,
    /// e.g. `Wheelchair`, `Vegetarian meal`.
    pub special_requirements: Vec<String>,
}

/// A seat assigned to a booking, e.g. `12A`.
#[derive(Debug)]
pub struct SeatAssignment {
    pub seat_number: String,
    pub seat_class: SeatClass,
    pub is_window: bool,
    pub is_aisle: bool,
    pub is_emergency_exit: bool,
}

/// Payment details of a booking. `total_amount` is in mills.
#[derive(Debug)]
pub struct BookingPayment {
    pub total_amount: u64,
    pub currency: String,
    pub payment_method: String,
    pub transaction_id: String,
    /// Seconds since the Unix epoch.
    pub payment_date: i64,
}

/// A passenger's booking on one flight.
#[derive(Debug)]
pub struct Booking {
    pub id: u128,
    /// Human-readable ticket number, e.g. `RIA123456`.
    pub ticket_number: String,
    pub flight_id: u128,
    pub passenger: Passenger,
    pub seat_assignment: Option<SeatAssignment>,
    pub seat_class: SeatClass,
    /// Seconds since the Unix epoch.
    pub booking_date: i64,
    pub status: BookingStatus,
    pub payment: BookingPayment,
    pub baggage_count: u32,
    /// e.g. `Extra legroom`, `Priority boarding`.
    pub special_services: Vec<String>,
    pub check_in_time: Option<i64>,
    pub boarding_time: Option<i64>,
}

impl Passenger {
    /// Creates a passenger with a fresh identifier, no passport on file
    /// and no special requirements.
    pub fn new(
        first_name: String,
        last_name: String,
        email: String,
        phone: String,
        date_of_birth: String,
        passenger_type: PassengerType,
    ) -> (p: Passenger)
        ensures
            p.first_name == first_name,
            p.last_name == last_name,
            p.email == email,
            p.phone == phone,
            p.passport_number is None,
            p.date_of_birth == date_of_birth,
            p.passenger_type == passenger_type,
            p.special_requirements@ =~= Seq::<String>::empty(),
    {
        Passenger {
            id: sys::fresh_id(),
            first_name,
            last_name,
            email,
            phone,
            passport_number: None,
            date_of_birth,
            passenger_type,
            special_requirements: Vec::new(),
        }
    }

    /// First and last name separated by a space.
    pub fn full_name(&self) -> (r: String)
        ensures
            r@ == self.first_name@ + seq![' '] + self.last_name@,
    {
        let mut s = self.first_name.clone();
        proof {
            reveal_strlit(" ");
            assert(" "@ =~= seq![' ']);
        }
        s.append(" ");
        s.append(self.last_name.as_str());
        s
    }

    /// Records a special requirement unless it is already on file.
    pub fn add_special_requirement(&mut self, requirement: String)
        ensures
            final(self).special_requirements@ == if text::has_string(
                old(self).special_requirements@,
                requirement@,
            ) {
                old(self).special_requirements@
            } else {
                old(self).special_requirements@.push(requirement)
            },
            final(self).id == old(self).id,
            final(self).first_name == old(self).first_name,
            final(self).last_name == old(self).last_name,
            final(self).email == old(self).email,
            final(self).phone == old(self).phone,
            final(self).passport_number == old(self).passport_number,
            final(self).date_of_birth == old(self).date_of_birth,
            final(self).passenger_type == old(self).passenger_type,
    {
        if !text::vec_contains_string(&self.special_requirements, &requirement) {
            self.special_requirements.push(requirement);
        }
    }

    /// Puts a passport number on file.
    pub fn set_passport(&mut self, passport_number: String)
        ensures
            *final(self) == (Passenger { passport_number: Some(passport_number), ..*old(self) }),
    {
        self.passport_number = Some(passport_number);
    }
}

/// Whether `c` is a decimal digit.
pub open spec fn is_digit(c: char) -> bool {
    '0' <= c <= '9'
}

/// The value of a digit character; `0` for any other character.
pub open spec fn digit_value(c: char) -> nat {
    if is_digit(c) {
        (c as nat - 48) as nat
    } else {
        0
    }
}

/// The number of leading decimal digits of `s`.
pub open spec fn digit_prefix_len(s: Seq<char>) -> nat
    decreases s.len(),
{
    if s.len() > 0 && is_digit(s[0]) {
        1 + digit_prefix_len(s.drop_first())
    } else {
        0
    }
}

/// The decimal value of the first `k` characters of `s`.
pub open spec fn prefix_value(s: Seq<char>, k: int) -> nat
    decreases k,
{
    if k <= 0 {
        0
    } else {
        prefix_value(s, k - 1) * 10 + digit_value(s[k - 1])
    }
}

/// The row number encoded by the leading digits of a seat number; `1`
/// when there are no leading digits or the value does not fit in `u32`.
pub open spec fn spec_row_number(s: Seq<char>) -> u32 {
    let k = digit_prefix_len(s) as int;
    let v = prefix_value(s, k);
    if k == 0 || v > u32::MAX {
        1
    } else {
        v as u32
    }
}

proof fn lemma_digit_prefix_len_eq(s: Seq<char>, k: int)
    requires
        0 <= k <= s.len(),
        forall|j: int| 0 <= j < k ==> is_digit(s[j]),
        k < s.len() ==> !is_digit(s[k]),
    ensures
        digit_prefix_len(s) == k,
    decreases s.len(),
{
    if k == 0 {
    } else {
        assert(is_digit(s[0]));
        let t = s.drop_first();
        assert forall|j: int| 0 <= j < k - 1 implies is_digit(t[j]) by {
            assert(t[j] == s[j + 1]);
        }
        if k - 1 < t.len() {
            assert(t[k - 1] == s[k]);
        }
        lemma_digit_prefix_len_eq(t, k - 1);
    }
}

proof fn lemma_prefix_value_monotone(s: Seq<char>, i: int, j: int)
    requires
        0 <= i <= j,
    ensures
        prefix_value(s, i) <= prefix_value(s, j),
    decreases j - i,
{
    if i < j {
        lemma_prefix_value_monotone(s, i, j - 1);
        assert(prefix_value(s, j) == prefix_value(s, j - 1) * 10 + digit_value(s[j - 1]));
        assert(prefix_value(s, j - 1) <= prefix_value(s, j - 1) * 10) by (nonlinear_arith);
    }
}

/// Whether the last character of `s` is `c`.
pub open spec fn last_char_is(s: Seq<char>, c: char) -> bool {
    s.len() > 0 && s[s.len() - 1] == c
}

impl SeatAssignment {
    /// Derives seat characteristics from the seat number: `A`/`F` are
    /// window seats, `C`/`D` aisle seats, and rows 12 through 15 are
    /// emergency exit rows.
    pub fn new(seat_number: String, seat_class: SeatClass) -> (a: SeatAssignment)
        ensures
            a.seat_number == seat_number,
            a.seat_class == seat_class,
            a.is_window == (last_char_is(seat_number@, 'A') || last_char_is(seat_number@, 'F')),
            a.is_aisle == (last_char_is(seat_number@, 'C') || last_char_is(seat_number@, 'D')),
            a.is_emergency_exit == (12 <= spec_row_number(seat_number@) <= 15),
    {
        let s = seat_number.as_str();
        let n = s.unicode_len();
        let is_window = if n > 0 {
            let c = s.get_char(n - 1);
            c == 'A' || c == 'F'
        } else {
            false
        };
        let is_aisle = if n > 0 {
            let c = s.get_char(n - 1);
            c == 'C' || c == 'D'
        } else {
            false
        };
        let row_number = row_number_of(s);
        let is_emergency_exit = 12 <= row_number && row_number <= 15;
        SeatAssignment { seat_number, seat_class, is_window, is_aisle, is_emergency_exit }
    }

    /// The seat's position description, e.g. `Window + Emergency Exit`.
    pub fn get_seat_type(&self) -> (r: String)
        ensures
            r@ == spec_seat_type(*self),
    {
        let mut s = if self.is_window {
            String::from_str("Window")
        } else if self.is_aisle {
            String::from_str("Aisle")
        } else {
            String::from_str("Middle")
        };
        if self.is_emergency_exit {
            s.append(" + Emergency Exit");
        }
        s
    }
}

/// The seat position description of an assignment.
pub open spec fn spec_seat_type(a: SeatAssignment) -> Seq<char> {
    let base = if a.is_window {
        "Window"@
    } else if a.is_aisle {
        "Aisle"@
    } else {
        "Middle"@
    };
    if a.is_emergency_exit {
        base + " + Emergency Exit"@
    } else {
        base
    }
}

/// The ticket number built from `n`: the airline prefix followed by the
/// last six decimal digits of `n`, zero-padded.
pub open spec fn ticket_chars(n: nat) -> Seq<char> {
    "RIA"@ + if n < 1000000 {
        text::dec_digits_pad(n, 6)
    } else {
        text::dec_digits(n)
    }
}

/// Builds the ticket number encoding `n`. Distinct values give distinct
/// ticket numbers ([`lemma_ticket_chars_injective`]).
pub fn ticket_number_from(n: u64) -> (t: String)
    ensures
        t@ == ticket_chars(n as nat),
{
    let mut s = String::from_str("RIA");
    if n < 1000000 {
        let d = text::u64_to_dec_pad(n, 6);
        s.append(d.as_str());
    } else {
        let d = text::u64_to_dec(n);
        s.append(d.as_str());
    }
    proof {
        assert(s@ =~= ticket_chars(n as nat));
    }
    s
}

proof fn lemma_pow10_six()
    ensures
        text::pow10(6) == 1000000,
{
    assert(text::pow10(0) == 1);
    assert(text::pow10(1) == 10);
    assert(text::pow10(2) == 100);
    assert(text::pow10(3) == 1000);
    assert(text::pow10(4) == 10000);
    assert(text::pow10(5) == 100000);
    assert(text::pow10(6) == 1000000);
}

proof fn lemma_prefix_value_push(d: Seq<char>, c: char, k: int)
    requires
        0 <= k <= d.len(),
    ensures
        prefix_value(d.push(c), k) == prefix_value(d, k),
    decreases k,
{
    if k > 0 {
        lemma_prefix_value_push(d, c, k - 1);
        assert(d.push(c)[k - 1] == d[k - 1]);
    }
}

proof fn lemma_dec_digits_value(n: nat)
    ensures
        prefix_value(text::dec_digits(n), text::dec_digits(n).len() as int) == n,
    decreases n,
{
    let d = text::dec_digits(n);
    if n < 10 {
        assert(d[0] == text::digit_char(n));
        assert(digit_value(text::digit_char(n)) == n);
        assert(prefix_value(d, 1) == prefix_value(d, 0) * 10 + digit_value(d[0]));
    } else {
        let rest = text::dec_digits(n / 10);
        lemma_dec_digits_value(n / 10);
        assert(d == rest.push(text::digit_char(n % 10)));
        assert(d[d.len() - 1] == text::digit_char(n % 10));
        assert(digit_value(text::digit_char(n % 10)) == n % 10);
        lemma_prefix_value_push(rest, text::digit_char(n % 10), rest.len() as int);
        assert(prefix_value(d, d.len() as int) == prefix_value(d, rest.len() as int) * 10
            + digit_value(d[d.len() - 1]));
    }
}

proof fn lemma_dec_digits_pad_value(n: nat, w: nat)
    requires
        n < text::pow10(w),
    ensures
        prefix_value(text::dec_digits_pad(n, w), w as int) == n,
    decreases w,
{
    if w == 0 {
        assert(text::pow10(0) == 1);
    } else {
        let d = text::dec_digits_pad(n, w);
        let rest = text::dec_digits_pad(n / 10, (w - 1) as nat);
        text::lemma_dec_digits_pad_len(n / 10, (w - 1) as nat);
        assert(text::pow10(w) == 10 * text::pow10((w - 1) as nat));
        assert(n / 10 < text::pow10((w - 1) as nat));
        lemma_dec_digits_pad_value(n / 10, (w - 1) as nat);
        assert(d == rest.push(text::digit_char(n % 10)));
        assert(d[w - 1] == text::digit_char(n % 10));
        assert(digit_value(text::digit_char(n % 10)) == n % 10);
        lemma_prefix_value_push(rest, text::digit_char(n % 10), (w - 1) as int);
        assert(prefix_value(d, w as int) == prefix_value(d, w - 1) * 10 + digit_value(d[w - 1]));
    }
}

/// The shape of every ticket number: at least nine characters, the
/// airline prefix, then decimal digits only.
pub proof fn lemma_ticket_chars_shape(m: u64)
    ensures
        ticket_chars(m as nat).len() >= 9,
        ticket_chars(m as nat)[0] == 'R',
        ticket_chars(m as nat)[1] == 'I',
        ticket_chars(m as nat)[2] == 'A',
        forall|i: int|
            3 <= i < ticket_chars(m as nat).len() ==> is_digit(
                #[trigger] ticket_chars(m as nat)[i],
            ),
{
    reveal_strlit("RIA");
    lemma_pow10_six();
    let t = ticket_chars(m as nat);
    if (m as nat) < 1000000 {
        text::lemma_dec_digits_pad_len(m as nat, 6);
        text::lemma_dec_digits_pad_all_digits(m as nat, 6);
    } else {
        text::lemma_dec_digits_len_ge(m as nat, 6);
        text::lemma_dec_digits_all_digits(m as nat);
    }
}

/// The value a ticket number encodes: reading the digits after the
/// prefix in decimal gives back exactly the encoded value.
pub proof fn lemma_ticket_chars_value(m: u64)
    ensures
        prefix_value(
            ticket_chars(m as nat).skip(3),
            ticket_chars(m as nat).len() - 3,
        ) == m,
{
    reveal_strlit("RIA");
    lemma_pow10_six();
    let t = ticket_chars(m as nat);
    if (m as nat) < 1000000 {
        let d = text::dec_digits_pad(m as nat, 6);
        text::lemma_dec_digits_pad_len(m as nat, 6);
        assert(t.skip(3) =~= d);
        lemma_dec_digits_pad_value(m as nat, 6);
    } else {
        let d = text::dec_digits(m as nat);
        assert(t.skip(3) =~= d);
        lemma_dec_digits_value(m as nat);
    }
}

/// The ticket-uniqueness law: distinct values encode distinct ticket
/// numbers, so a generator that never reuses a value never reuses a
/// ticket.
pub proof fn lemma_ticket_chars_injective(n1: u64, n2: u64)
    requires
        n1 != n2,
    ensures
        ticket_chars(n1 as nat) != ticket_chars(n2 as nat),
{
    if ticket_chars(n1 as nat) == ticket_chars(n2 as nat) {
        lemma_ticket_chars_value(n1);
        lemma_ticket_chars_value(n2);
    }
}

/// An upper bound on every value this ticket number could encode; the
/// value itself when the ticket is of the generated shape, zero when it
/// could not have been generated at all.
pub fn ticket_sequence_bound(t: &str) -> (b: u64)
    ensures
        forall|m: u64| t@ == ticket_chars(m as nat) ==> m <= b,
{
    let n = t.unicode_len();
    if n < 9 {
        proof {
            assert forall|m: u64| t@ != ticket_chars(m as nat) by {
                lemma_ticket_chars_shape(m);
            }
        }
        return 0;
    }
    if !(t.get_char(0) == 'R' && t.get_char(1) == 'I' && t.get_char(2) == 'A') {
        proof {
            assert forall|m: u64| t@ != ticket_chars(m as nat) by {
                lemma_ticket_chars_shape(m);
            }
        }
        return 0;
    }
    let mut i: usize = 3;
    let mut acc: u64 = 0;
    let mut sat = false;
    while i < n
        invariant
            3 <= i <= n,
            n == t@.len(),
            forall|j: int| 3 <= j < i ==> is_digit(#[trigger] t@[j]),
            !sat ==> acc == prefix_value(t@.skip(3), i - 3),
            sat ==> prefix_value(t@.skip(3), i - 3) > u64::MAX,
        decreases n - i,
    {
        let c = t.get_char(i);
        if c < '0' || c > '9' {
            proof {
                assert forall|m: u64| t@ != ticket_chars(m as nat) by {
                    lemma_ticket_chars_shape(m);
                    if t@ == ticket_chars(m as nat) {
                        assert(is_digit(ticket_chars(m as nat)[i as int]));
                    }
                }
            }
            return 0;
        }
        proof {
            assert(t@.skip(3)[i - 3] == t@[i as int]);
            assert(digit_value(t@[i as int]) == c as nat - 48);
        }
        let d = (c as u32) - 48;
        if !sat {
            let next: u128 = acc as u128 * 10 + d as u128;
            if next > u64::MAX as u128 {
                sat = true;
                proof {
                    assert(prefix_value(t@.skip(3), i + 1 - 3) == acc * 10 + digit_value(
                        t@[i as int],
                    ));
                }
            } else {
                acc = next as u64;
            }
        } else {
            proof {
                lemma_prefix_value_monotone(t@.skip(3), i - 3, i + 1 - 3);
            }
        }
        i = i + 1;
    }
    proof {
        assert forall|m: u64| t@ == ticket_chars(m as nat) implies m <= (if sat {
            u64::MAX
        } else {
            acc
        }) by {
            lemma_ticket_chars_value(m);
            assert(t@.skip(3) == ticket_chars(m as nat).skip(3));
        }
    }
    if sat {
        u64::MAX
    } else {
        acc
    }
}

impl Booking {
    /// Timestamps lie in the representable date range.
    pub open spec fn wf(self) -> bool {
        &&& 0 <= self.booking_date <= MAX_TIMESTAMP
        &&& 0 <= self.payment.payment_date <= MAX_TIMESTAMP
        &&& (self.check_in_time matches Some(t) ==> 0 <= t <= MAX_TIMESTAMP)
        &&& (self.boarding_time matches Some(t) ==> 0 <= t <= MAX_TIMESTAMP)
    }

    /// Creates a confirmed booking with a fresh identifier, a generated
    /// ticket number, one bag, payment in dollars, and no seat assigned.
    pub fn new(
        flight_id: u128,
        passenger: Passenger,
        seat_class: SeatClass,
        total_amount: u64,
        payment_method: String,
    ) -> (b: Booking)
        ensures
            b.wf(),
            exists|n: nat| n < 1000000 && b.ticket_number@ == ticket_chars(n),
            b.ticket_number@.len() == 9,
            b.flight_id == flight_id,
            b.passenger == passenger,
            b.seat_assignment is None,
            b.seat_class == seat_class,
            b.status == BookingStatus::Confirmed,
            b.payment.total_amount == total_amount,
            b.payment.currency@ == "USD"@,
            b.payment.payment_method == payment_method,
            b.baggage_count == 1,
            b.special_services@ =~= Seq::<String>::empty(),
            b.check_in_time is None,
            b.boarding_time is None,
    {
        let booking_id = sys::fresh_id();
        let ticket_number = generate_ticket_number();
        let now = sys::current_timestamp();
        let transaction = sys::fresh_id();

        let payment = BookingPayment {
            total_amount,
            currency: String::from_str("USD"),
            payment_method,
            transaction_id: text::u128_to_dec(transaction),
            payment_date: now,
        };

        Booking {
            id: booking_id,
            ticket_number,
            flight_id,
            passenger,
            seat_assignment: None,
            seat_class,
            booking_date: now,
            status: BookingStatus::Confirmed,
            payment,
            baggage_count: 1,
            special_services: Vec::new(),
            check_in_time: None,
            boarding_time: None,
        }
    }

    /// Assigns a seat, deriving its characteristics from the seat number.
    pub fn assign_seat(&mut self, seat_number: String)
        ensures
            final(self).seat_assignment matches Some(a) && a.seat_number == seat_number
                && a.seat_class == old(self).seat_class,
            unchanged_except_seat(*old(self), *final(self)),
    {
        let a = SeatAssignment::new(seat_number, self.seat_class);
        self.seat_assignment = Some(a);
    }

    /// Checks the passenger in at time `now`: allowed only from
    /// `Confirmed`, setting the check-in timestamp; otherwise fails
    /// without mutation.
    pub fn check_in_at(&mut self, now: i64) -> (r: Result<(), AirportError>)
        ensures
            r is Ok <==> old(self).status == BookingStatus::Confirmed,
            r is Ok ==> final(self).status == BookingStatus::CheckedIn && final(self).check_in_time == Some(now) && unchanged_except_check_in(*old(self), *final(self)),
            r is Err ==> *final(self) == *old(self),
            r matches Err(e) ==> (e matches AirportError::ValidationError { message }
                && message@ == "Cannot check in - booking not in confirmed status"@),
    {
        match self.status {
            BookingStatus::Confirmed => {
                self.status = BookingStatus::CheckedIn;
                self.check_in_time = Some(now);
                Ok(())
            },
            _ => Err(
                AirportError::ValidationError {
                    message: String::from_str("Cannot check in - booking not in confirmed status"),
                },
            ),
        }
    }

    /// Checks the passenger in now. Succeeds exactly from `Confirmed`.
    pub fn check_in(&mut self) -> (r: Result<(), AirportError>)
        ensures
            r is Ok <==> old(self).status == BookingStatus::Confirmed,
            r is Ok ==> final(self).status == BookingStatus::CheckedIn && final(self).check_in_time is Some && unchanged_except_check_in(*old(self), *final(self)),
            r is Err ==> *final(self) == *old(self),
    {
        let now = sys::current_timestamp();
        self.check_in_at(now)
    }

    /// Boards the passenger at time `now`: allowed only from `CheckedIn`,
    /// setting the boarding timestamp; otherwise fails without mutation.
    pub fn board_at(&mut self, now: i64) -> (r: Result<(), AirportError>)
        ensures
            r is Ok <==> old(self).status == BookingStatus::CheckedIn,
            r is Ok ==> final(self).status == BookingStatus::Boarded && final(self).boarding_time
                == Some(now) && unchanged_except_boarding(*old(self), *final(self)),
            r is Err ==> *final(self) == *old(self),
            r matches Err(e) ==> (e matches AirportError::ValidationError { message }
                && message@ == "Cannot board - must be checked in first"@),
    {
        match self.status {
            BookingStatus::CheckedIn => {
                self.status = BookingStatus::Boarded;
                self.boarding_time = Some(now);
                Ok(())
            },
            _ => Err(
                AirportError::ValidationError {
                    message: String::from_str("Cannot board - must be checked in first"),
                },
            ),
        }
    }

    /// Boards the passenger now. Succeeds exactly from `CheckedIn`.
    pub fn board(&mut self) -> (r: Result<(), AirportError>)
        ensures
            r is Ok <==> old(self).status == BookingStatus::CheckedIn,
            r is Ok ==> final(self).status == BookingStatus::Boarded && final(self).boarding_time is Some && unchanged_except_boarding(*old(self), *final(self)),
            r is Err ==> *final(self) == *old(self),
    {
        let now = sys::current_timestamp();
        self.board_at(now)
    }

    /// Cancels the booking: allowed only from `Confirmed` or `CheckedIn`;
    /// from `Boarded` or `Completed` (and any other state) it fails
    /// without mutation.
    pub fn cancel(&mut self) -> (r: Result<(), AirportError>)
        ensures
            r is Ok <==> (old(self).status == BookingStatus::Confirmed || old(self).status
                == BookingStatus::CheckedIn),
            r is Ok ==> final(self).status == BookingStatus::Cancelled && unchanged_except_status(
                *old(self),
                *final(self),
            ),
            r is Err ==> *final(self) == *old(self),
            (old(self).status == BookingStatus::Boarded || old(self).status
                == BookingStatus::Completed) ==> (r matches Err(
                AirportError::ValidationError { message },
            ) && message@ == "Cannot cancel - flight already boarded or completed"@),
            (old(self).status == BookingStatus::Cancelled || old(self).status
                == BookingStatus::NoShow) ==> (r matches Err(
                AirportError::ValidationError { message },
            ) && message@ == "Booking already cancelled or invalid status"@),
    {
        match self.status {
            BookingStatus::Confirmed | BookingStatus::CheckedIn => {
                self.status = BookingStatus::Cancelled;
                Ok(())
            },
            BookingStatus::Boarded | BookingStatus::Completed => Err(
                AirportError::ValidationError {
                    message: String::from_str(
                        "Cannot cancel - flight already boarded or completed",
                    ),
                },
            ),
            _ => Err(
                AirportError::ValidationError {
                    message: String::from_str("Booking already cancelled or invalid status"),
                },
            ),
        }
    }

    /// Adds checked bags.
    pub fn add_baggage(&mut self, count: u32)
        requires
            old(self).baggage_count + count <= u32::MAX,
        ensures
            final(self).baggage_count == old(self).baggage_count + count,
            unchanged_except_baggage(*old(self), *final(self)),
    {
        self.baggage_count = self.baggage_count + count;
    }

    /// Records a special service unless it is already on file.
    pub fn add_special_service(&mut self, service: String)
        ensures
            final(self).special_services@ == if text::has_string(
                old(self).special_services@,
                service@,
            ) {
                old(self).special_services@
            } else {
                old(self).special_services@.push(service)
            },
            unchanged_except_services(*old(self), *final(self)),
    {
        if !text::vec_contains_string(&self.special_services, &service) {
            self.special_services.push(service);
        }
    }

    /// The human-readable status label.
    pub fn get_status_display(&self) -> (r: String)
        ensures
            r@ == spec_booking_status_display(self.status),
    {
        match self.status {
            BookingStatus::Confirmed => String::from_str("Confirmed"),
            BookingStatus::CheckedIn => String::from_str("Checked In"),
            BookingStatus::Boarded => String::from_str("Boarded"),
            BookingStatus::Completed => String::from_str("Completed"),
            BookingStatus::Cancelled => String::from_str("Cancelled"),
            BookingStatus::NoShow => String::from_str("No Show"),
        }
    }

    /// One-line summary of the ticket.
    pub fn get_ticket_summary(&self) -> (r: String)
        ensures
            r@ == spec_ticket_summary(*self),
    {
        let mut s = String::from_str("Ticket: ");
        s.append(self.ticket_number.as_str());
        s.append(" | Passenger: ");
        let name = self.passenger.full_name();
        s.append(name.as_str());
        s.append(" | Class: ");
        s.append(seat_class_name(&self.seat_class));
        s.append(" | ");
        match &self.seat_assignment {
            Some(seat) => {
                s.append("Seat: ");
                s.append(seat.seat_number.as_str());
                s.append(" (");
                let t = seat.get_seat_type();
                s.append(t.as_str());
                s.append(")");
            },
            None => {
                s.append("Seat: Not assigned");
            },
        }
        s.append(" | Status: ");
        let st = self.get_status_display();
        s.append(st.as_str());
        s.append(" | Amount: $");
        let amt = text::amount_to_dec(self.payment.total_amount);
        s.append(amt.as_str());
        proof {
            assert(s@ =~= spec_ticket_summary(*self));
        }
        s
    }

    /// Whether the booking can still be modified (checked in or earlier).
    pub fn can_be_modified(&self) -> (r: bool)
        ensures
            r == (self.status == BookingStatus::Confirmed || self.status
                == BookingStatus::CheckedIn),
    {
        match self.status {
            BookingStatus::Confirmed | BookingStatus::CheckedIn => true,
            _ => false,
        }
    }
}

/// The name of a seat class.
pub open spec fn spec_seat_class_name(c: SeatClass) -> Seq<char> {
    match c {
        SeatClass::Economy => "Economy"@,
        SeatClass::Business => "Business"@,
        SeatClass::FirstClass => "FirstClass"@,
    }
}

/// The name of a seat class.
pub fn seat_class_name(c: &SeatClass) -> (r: &'static str)
    ensures
        r@ == spec_seat_class_name(*c),
{
    match c {
        SeatClass::Economy => "Economy",
        SeatClass::Business => "Business",
        SeatClass::FirstClass => "FirstClass",
    }
}

/// The human-readable label of a booking status.
pub open spec fn spec_booking_status_display(status: BookingStatus) -> Seq<char> {
    match status {
        BookingStatus::Confirmed => "Confirmed"@,
        BookingStatus::CheckedIn => "Checked In"@,
        BookingStatus::Boarded => "Boarded"@,
        BookingStatus::Completed => "Completed"@,
        BookingStatus::Cancelled => "Cancelled"@,
        BookingStatus::NoShow => "No Show"@,
    }
}

/// The seat portion of a ticket summary.
pub open spec fn spec_seat_info(b: Booking) -> Seq<char> {
    match b.seat_assignment {
        Some(seat) => "Seat: "@ + seat.seat_number@ + " ("@ + spec_seat_type(seat) + ")"@,
        None => "Seat: Not assigned"@,
    }
}

/// The one-line summary of a ticket.
pub open spec fn spec_ticket_summary(b: Booking) -> Seq<char> {
    "Ticket: "@ + b.ticket_number@ + " | Passenger: "@ + b.passenger.first_name@ + seq![' ']
        + b.passenger.last_name@ + " | Class: "@ + spec_seat_class_name(b.seat_class) + " | "@
        + spec_seat_info(b) + " | Status: "@ + spec_booking_status_display(b.status)
        + " | Amount: $"@ + text::amount_chars(b.payment.total_amount as nat)
}

/// All fields equal but the seat assignment.
pub open spec fn unchanged_except_seat(a: Booking, b: Booking) -> bool {
    b == Booking { seat_assignment: b.seat_assignment, ..a }
}

/// All fields equal but status and check-in time.
pub open spec fn unchanged_except_check_in(a: Booking, b: Booking) -> bool {
    b == Booking { status: b.status, check_in_time: b.check_in_time, ..a }
}

/// All fields equal but status and boarding time.
pub open spec fn unchanged_except_boarding(a: Booking, b: Booking) -> bool {
    b == Booking { status: b.status, boarding_time: b.boarding_time, ..a }
}

/// All fields equal but the status.
pub open spec fn unchanged_except_status(a: Booking, b: Booking) -> bool {
    b == Booking { status: b.status, ..a }
}

/// All fields equal but the baggage count.
pub open spec fn unchanged_except_baggage(a: Booking, b: Booking) -> bool {
    b == Booking { baggage_count: b.baggage_count, ..a }
}

/// All fields equal but the special services.
pub open spec fn unchanged_except_services(a: Booking, b: Booking) -> bool {
    b == Booking { special_services: b.special_services, ..a }
}

/// Equality of passengers up to the identity of the requirements vector:
/// every field agrees, the requirement lists element for element.
pub open spec fn passenger_eq(a: Passenger, b: Passenger) -> bool {
    &&& a.id == b.id
    &&& a.first_name == b.first_name
    &&& a.last_name == b.last_name
    &&& a.email == b.email
    &&& a.phone == b.phone
    &&& a.passport_number == b.passport_number
    &&& a.date_of_birth == b.date_of_birth
    &&& a.passenger_type == b.passenger_type
    &&& a.special_requirements@ == b.special_requirements@
}

/// Equality of bookings up to the identity of the contained vectors:
/// every field agrees, the service lists element for element.
pub open spec fn booking_eq(a: Booking, b: Booking) -> bool {
    &&& a.id == b.id
    &&& a.ticket_number == b.ticket_number
    &&& a.flight_id == b.flight_id
    &&& passenger_eq(a.passenger, b.passenger)
    &&& a.seat_assignment == b.seat_assignment
    &&& a.seat_class == b.seat_class
    &&& a.booking_date == b.booking_date
    &&& a.status == b.status
    &&& a.payment == b.payment
    &&& a.baggage_count == b.baggage_count
    &&& a.special_services@ == b.special_services@
    &&& a.check_in_time == b.check_in_time
    &&& a.boarding_time == b.boarding_time
}

/// Generates a placeholder ticket number for a standalone booking: the
/// airline prefix and six digits drawn from entropy. The manager replaces
/// it with a ticket from its own sequence, which is what keeps tickets
/// unique across the dataset.
fn generate_ticket_number() -> (t: String)
    ensures
        exists|n: nat| n < 1000000 && t@ == ticket_chars(n),
        t@.len() == 9,
{
    let n = sys::random() % 1000000;
    let t = ticket_number_from(n);
    proof {
        assert(t@ == ticket_chars(n as nat));
        reveal_strlit("RIA");
        text::lemma_dec_digits_pad_len(n as nat, 6);
    }
    t
}

impl Clone for Passenger {
    /// A clone agrees with the original in every field.
    fn clone(&self) -> (r: Self)
        ensures
            passenger_eq(*self, r),
    {
        let mut reqs: Vec<String> = Vec::new();
        let n = self.special_requirements.len();
        let mut i: usize = 0;
        while i < n
            invariant
                0 <= i <= n,
                n == self.special_requirements@.len(),
                reqs@.len() == i,
                forall|j: int| 0 <= j < i ==> reqs@[j] == self.special_requirements@[j],
            decreases n - i,
        {
            reqs.push(self.special_requirements[i].clone());
            i = i + 1;
        }
        proof {
            assert(reqs@ =~= self.special_requirements@);
        }
        Passenger {
            id: self.id,
            first_name: self.first_name.clone(),
            last_name: self.last_name.clone(),
            email: self.email.clone(),
            phone: self.phone.clone(),
            passport_number: match &self.passport_number {
                Some(p) => Some(p.clone()),
                None => None,
            },
            date_of_birth: self.date_of_birth.clone(),
            passenger_type: self.passenger_type,
            special_requirements: reqs,
        }
    }
}

impl Clone for SeatAssignment {
    /// A clone equals the original.
    fn clone(&self) -> (r: Self)
        ensures
            r == *self,
    {
        SeatAssignment {
            seat_number: self.seat_number.clone(),
            seat_class: self.seat_class,
            is_window: self.is_window,
            is_aisle: self.is_aisle,
            is_emergency_exit: self.is_emergency_exit,
        }
    }
}

impl Clone for BookingPayment {
    /// A clone equals the original.
    fn clone(&self) -> (r: Self)
        ensures
            r == *self,
    {
        BookingPayment {
            total_amount: self.total_amount,
            currency: self.currency.clone(),
            payment_method: self.payment_method.clone(),
            transaction_id: self.transaction_id.clone(),
            payment_date: self.payment_date,
        }
    }
}

impl Clone for Booking {
    /// A clone agrees with the original in every field.
    fn clone(&self) -> (r: Self)
        ensures
            booking_eq(*self, r),
    {
        let mut services: Vec<String> = Vec::new();
        let n = self.special_services.len();
        let mut i: usize = 0;
        while i < n
            invariant
                0 <= i <= n,
                n == self.special_services@.len(),
                services@.len() == i,
                forall|j: int| 0 <= j < i ==> services@[j] == self.special_services@[j],
            decreases n - i,
        {
            services.push(self.special_services[i].clone());
            i = i + 1;
        }
        proof {
            assert(services@ =~= self.special_services@);
        }
        Booking {
            id: self.id,
            ticket_number: self.ticket_number.clone(),
            flight_id: self.flight_id,
            passenger: self.passenger.clone(),
            seat_assignment: match &self.seat_assignment {
                Some(a) => Some(a.clone()),
                None => None,
            },
            seat_class: self.seat_class,
            booking_date: self.booking_date,
            status: self.status,
            payment: self.payment.clone(),
            baggage_count: self.baggage_count,
            special_services: services,
            check_in_time: self.check_in_time,
            boarding_time: self.boarding_time,
        }
    }
}

/// Reads the row number from the leading digits of a seat number.
fn row_number_of(s: &str) -> (row: u32)
    ensures
        row == spec_row_number(s@),
{
    let n = s.unicode_len();
    let mut i: usize = 0;
    let mut acc: u64 = 0;
    let mut overflowed = false;
    let mut hit_non_digit = false;
    while i < n && !hit_non_digit
        invariant
            0 <= i <= n,
            n == s@.len(),
            forall|j: int| 0 <= j < i ==> is_digit(s@[j]),
            hit_non_digit ==> i < n && !is_digit(s@[i as int]),
            !overflowed ==> acc <= u32::MAX && acc == prefix_value(s@, i as int),
            overflowed ==> prefix_value(s@, i as int) > u32::MAX,
        decreases n - i + (if hit_non_digit { 0int } else { 1int }),
    {
        let c = s.get_char(i);
        if c < '0' || c > '9' {
            hit_non_digit = true;
        } else {
            let d = (c as u32) - 48;
            proof {
                assert(digit_value(s@[i as int]) == d);
            }
            if !overflowed {
                let next = acc * 10 + d as u64;
                if next > u32::MAX as u64 {
                    overflowed = true;
                    proof {
                        assert(prefix_value(s@, i + 1) == acc * 10 + d);
                    }
                } else {
                    acc = next;
                }
            } else {
                proof {
                    lemma_prefix_value_monotone(s@, i as int, i + 1);
                }
            }
            i = i + 1;
        }
    }
    proof {
        lemma_digit_prefix_len_eq(s@, i as int);
    }
    if i == 0 || overflowed {
        1
    } else {
        acc as u32
    }
}

} // verus!
