//! Utility functions: input validation, seat labels, and display
//! formatting over the library's fixed-point amounts.

use vstd::prelude::*;
use vstd::string::*;
use crate::text;

verus! {

/// Whether `s` is an airport code: exactly three uppercase ASCII letters.
pub open spec fn is_valid_airport_code(s: Seq<char>) -> bool {
    s.len() == 3 && forall|i: int| 0 <= i < s.len() ==> 'A' <= #[trigger] s[i] <= 'Z'
}

/// Validates an airport code (three uppercase ASCII letters).
pub fn validate_airport_code(code: &str) -> (r: bool)
    ensures
        r == is_valid_airport_code(code@),
{
    let n = code.unicode_len();
    if n != 3 {
        return false;
    }
    let mut i: usize = 0;
    while i < 3
        invariant
            0 <= i <= 3,
            code@.len() == 3,
            forall|j: int| 0 <= j < i ==> 'A' <= #[trigger] code@[j] <= 'Z',
        decreases 3 - i,
    {
        let c = code.get_char(i);
        if c < 'A' || c > 'Z' {
            return false;
        }
        i = i + 1;
    }
    true
}

/// Validates an email address, loosely: it contains `@` past the first
/// character, contains `.`, and is longer than five bytes.
pub fn validate_email(email: &str) -> (r: bool)
    ensures
        r == ((exists|i: int| 1 <= i < email@.len() && email@[i] == '@') && text::has_char(
            email@,
            '.',
        ) && email.len() > 5),
{
    if email.len() <= 5 {
        return false;
    }
    if !text::str_has_char(email, '.') {
        return false;
    }
    let n = email.unicode_len();
    let mut i: usize = 1;
    while i < n
        invariant
            1 <= i <= n,
            n == email@.len(),
            text::has_char(email@, '.'),
            email.len() > 5,
            forall|j: int| 1 <= j < i ==> email@[j] != '@',
        decreases n - i,
    {
        if email.get_char(i) == '@' {
            proof {
                assert(email@[i as int] == '@');
                assert(exists|j: int| 1 <= j < email@.len() && email@[j] == '@');
            }
            return true;
        }
        i = i + 1;
    }
    false
}

/// The letter of the seat at the given index of the letter cycle.
pub open spec fn seat_letter(i: int) -> char {
    if i == 0 {
        'A'
    } else if i == 1 {
        'B'
    } else if i == 2 {
        'C'
    } else if i == 3 {
        'D'
    } else if i == 4 {
        'E'
    } else if i == 5 {
        'F'
    } else if i == 6 {
        'G'
    } else if i == 7 {
        'H'
    } else if i == 8 {
        'J'
    } else {
        'K'
    }
}

fn seat_letter_str(i: u32) -> (s: &'static str)
    requires
        i < 10,
    ensures
        s@ == seq![seat_letter(i as int)],
{
    proof {
        reveal_strlit("A");
        reveal_strlit("B");
        reveal_strlit("C");
        reveal_strlit("D");
        reveal_strlit("E");
        reveal_strlit("F");
        reveal_strlit("G");
        reveal_strlit("H");
        reveal_strlit("J");
        reveal_strlit("K");
        assert("A"@ =~= seq![seat_letter(0)]);
        assert("B"@ =~= seq![seat_letter(1)]);
        assert("C"@ =~= seq![seat_letter(2)]);
        assert("D"@ =~= seq![seat_letter(3)]);
        assert("E"@ =~= seq![seat_letter(4)]);
        assert("F"@ =~= seq![seat_letter(5)]);
        assert("G"@ =~= seq![seat_letter(6)]);
        assert("H"@ =~= seq![seat_letter(7)]);
        assert("J"@ =~= seq![seat_letter(8)]);
        assert("K"@ =~= seq![seat_letter(9)]);
    }
    match i {
        0 => "A",
        1 => "B",
        2 => "C",
        3 => "D",
        4 => "E",
        5 => "F",
        6 => "G",
        7 => "H",
        8 => "J",
        _ => "K",
    }
}

/// Generates a seat label: the row number followed by a letter drawn
/// from a ten-letter cycle.
pub fn generate_seat_number(row: u32, max_seats_per_row: u32) -> (s: String)
    requires
        row * max_seats_per_row <= u32::MAX,
    ensures
        s@ == text::dec_digits(row as nat) + seq![
            seat_letter(((row * max_seats_per_row) % 10) as int),
        ],
{
    let seat_index = (row * max_seats_per_row) % 10;
    let mut s = text::u64_to_dec(row as u64);
    s.append(seat_letter_str(seat_index));
    proof {
        assert(s@ =~= text::dec_digits(row as nat) + seq![
            seat_letter(((row * max_seats_per_row) % 10) as int),
        ]);
    }
    s
}

/// Formats a duration given in seconds as hours and minutes, e.g. `8h 30m`.
pub fn format_duration(duration_seconds: i64) -> (s: String)
    requires
        duration_seconds >= 0,
    ensures
        s@ == text::dec_digits((duration_seconds / 3600) as nat) + "h "@ + text::dec_digits(
            ((duration_seconds / 60) % 60) as nat,
        ) + "m"@,
{
    let secs = duration_seconds as u64;
    let hours = secs / 3600;
    let minutes = (secs / 60) % 60;
    let mut s = text::u64_to_dec(hours);
    s.append("h ");
    let m = text::u64_to_dec(minutes);
    s.append(m.as_str());
    s.append("m");
    proof {
        assert(s@ =~= text::dec_digits((duration_seconds / 3600) as nat) + "h "@
            + text::dec_digits(((duration_seconds / 60) % 60) as nat) + "m"@);
    }
    s
}

/// The load factor in hundredths of a percent: `7500` stands for 75%.
/// Zero capacity yields zero.
pub fn calculate_load_factor(booked_seats: u32, total_capacity: u32) -> (r: u64)
    ensures
        r == if total_capacity == 0 {
            0int
        } else {
            booked_seats * 10000int / (total_capacity as int)
        },
{
    if total_capacity == 0 {
        0
    } else {
        (booked_seats as u64) * 10000 / (total_capacity as u64)
    }
}

/// The rendering of a mills amount in the given currency: known currency
/// codes use their symbol, any other code is appended after the amount.
pub open spec fn spec_format_currency(amount_mills: nat, currency: Seq<char>) -> Seq<char> {
    if currency == "USD"@ {
        "$"@ + text::amount_chars(amount_mills)
    } else if currency == "EUR"@ {
        "€"@ + text::amount_chars(amount_mills)
    } else if currency == "GBP"@ {
        "£"@ + text::amount_chars(amount_mills)
    } else {
        text::amount_chars(amount_mills) + " "@ + currency
    }
}

/// Formats a mills amount in the given currency, e.g. `$299.99`.
pub fn format_currency(amount_mills: u64, currency: &str) -> (s: String)
    ensures
        s@ == spec_format_currency(amount_mills as nat, currency@),
{
    let amount = text::amount_to_dec(amount_mills);
    if text::str_eq(currency, "USD") {
        let mut s = String::from_str("$");
        s.append(amount.as_str());
        s
    } else if text::str_eq(currency, "EUR") {
        let mut s = String::from_str("€");
        s.append(amount.as_str());
        s
    } else if text::str_eq(currency, "GBP") {
        let mut s = String::from_str("£");
        s.append(amount.as_str());
        s
    } else {
        let mut s = amount;
        s.append(" ");
        s.append(currency);
        proof {
            assert(s@ =~= text::amount_chars(amount_mills as nat) + " "@ + currency@);
        }
        s
    }
}

} // verus!
