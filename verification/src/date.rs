//! Calendar dates as plain year/month/day values, with the proleptic
//! Gregorian validity rule and a parser for the ISO `YYYY-MM-DD` form used in
//! route paths.

use vstd::prelude::*;

verus! {

/// A calendar date, held as plain numbers so that every rule about it can be
/// stated directly. `valid()` says when the triple names a real day.
#[derive(Clone, Copy, PartialEq, Eq, Structural, Debug, Hash)]
pub struct Date {
    pub year: u16,
    pub month: u8,
    pub day: u8,
}

/// Gregorian leap-year rule.
pub open spec fn is_leap_year(y: int) -> bool {
    y % 4 == 0 && (y % 100 != 0 || y % 400 == 0)
}

/// Number of days in the given month of the given year.
pub open spec fn days_in_month(y: int, m: int) -> int {
    if m == 2 {
        if is_leap_year(y) {
            29
        } else {
            28
        }
    } else if m == 4 || m == 6 || m == 9 || m == 11 {
        30
    } else {
        31
    }
}

impl Date {
    /// The triple names a real day of a four-digit year.
    pub open spec fn valid(self) -> bool {
        self.year <= 9999 && 1 <= self.month <= 12 && 1 <= self.day
            && self.day as int <= days_in_month(self.year as int, self.month as int)
    }

    /// Runtime check matching `valid()` exactly.
    pub fn is_valid(&self) -> (r: bool)
        ensures
            r == self.valid(),
    {
        if !(self.year <= 9999 && 1 <= self.month && self.month <= 12 && 1 <= self.day) {
            return false;
        }
        let dim: u8 = if self.month == 2 {
            let leap: bool = self.year % 4 == 0 && (self.year % 100 != 0 || self.year % 400 == 0);
            if leap {
                29
            } else {
                28
            }
        } else if self.month == 4 || self.month == 6 || self.month == 9 || self.month == 11 {
            30
        } else {
            31
        };
        self.day <= dim
    }
}

/// A decimal digit character.
pub open spec fn is_digit(c: char) -> bool {
    '0' <= c && c <= '9'
}

/// Numeric value of a digit character.
pub open spec fn digit_val(c: char) -> int {
    c as int - '0' as int
}

/// Every character of the sequence is a decimal digit.
pub open spec fn all_digits(s: Seq<char>) -> bool {
    forall|i: int| 0 <= i < s.len() ==> is_digit(#[trigger] s[i])
}

/// Value of a digit sequence read in base ten.
pub open spec fn digits_val(s: Seq<char>) -> int
    decreases s.len(),
{
    if s.len() == 0 {
        0
    } else {
        digits_val(s.drop_last()) * 10 + digit_val(s.last())
    }
}

/// What parsing an ISO `YYYY-MM-DD` segment yields: the named date when the
/// segment has exactly that shape and the triple is a real day, `None`
/// otherwise.
pub open spec fn parse_date_spec(s: Seq<char>) -> Option<Date> {
    if s.len() == 10 && s[4] == '-' && s[7] == '-' && all_digits(s.subrange(0, 4)) && all_digits(
        s.subrange(5, 7),
    ) && all_digits(s.subrange(8, 10)) {
        let d = Date {
            year: digits_val(s.subrange(0, 4)) as u16,
            month: digits_val(s.subrange(5, 7)) as u8,
            day: digits_val(s.subrange(8, 10)) as u8,
        };
        if d.valid() {
            Some(d)
        } else {
            None
        }
    } else {
        None
    }
}

proof fn lemma_digits_val_one(a: char)
    ensures
        digits_val(seq![a]) == digit_val(a),
{
    let s = seq![a];
    assert(s.drop_last() =~= Seq::<char>::empty());
    assert(digits_val(Seq::<char>::empty()) == 0);
    assert(s.last() == a);
}

proof fn lemma_digits_val_two(a: char, b: char)
    ensures
        digits_val(seq![a, b]) == digit_val(a) * 10 + digit_val(b),
{
    let s = seq![a, b];
    assert(s.drop_last() =~= seq![a]);
    lemma_digits_val_one(a);
}

proof fn lemma_digits_val_four(a: char, b: char, c: char, d: char)
    ensures
        digits_val(seq![a, b, c, d]) == ((digit_val(a) * 10 + digit_val(b)) * 10 + digit_val(c))
            * 10 + digit_val(d),
{
    let s = seq![a, b, c, d];
    lemma_digits_val_two(a, b);
    assert(seq![a, b, c].drop_last() =~= seq![a, b]);
    assert(digits_val(seq![a, b, c]) == digits_val(seq![a, b]) * 10 + digit_val(c));
    assert(s.drop_last() =~= seq![a, b, c]);
    assert(digits_val(s) == digits_val(seq![a, b, c]) * 10 + digit_val(d));
}

/// Digit value of a character known to be a digit, as a runtime number.
fn digit_of(c: char) -> (r: u16)
    requires
        is_digit(c),
    ensures
        r == digit_val(c),
        r <= 9,
{
    (c as u32 as u16) - ('0' as u32 as u16)
}

/// Parse an ISO `YYYY-MM-DD` path segment into a [`Date`].
///
/// Returns exactly what [`parse_date_spec`] names: `Some` on a well-shaped
/// segment naming a real calendar day, `None` on anything else.
pub fn parse_date(s: &str) -> (r: Option<Date>)
    ensures
        r == parse_date_spec(s@),
        r matches Some(d) ==> d.valid(),
{
    let n = s.unicode_len();
    if n != 10 {
        return None;
    }
    let c0 = s.get_char(0);
    let c1 = s.get_char(1);
    let c2 = s.get_char(2);
    let c3 = s.get_char(3);
    let h0 = s.get_char(4);
    let c4 = s.get_char(5);
    let c5 = s.get_char(6);
    let h1 = s.get_char(7);
    let c6 = s.get_char(8);
    let c7 = s.get_char(9);
    proof {
        assert(s@ =~= seq![c0, c1, c2, c3, h0, c4, c5, h1, c6, c7]);
        assert(s@.subrange(0, 4) =~= seq![c0, c1, c2, c3]);
        assert(s@.subrange(5, 7) =~= seq![c4, c5]);
        assert(s@.subrange(8, 10) =~= seq![c6, c7]);
    }
    if h0 != '-' || h1 != '-' {
        return None;
    }
    if !(('0' <= c0 && c0 <= '9') && ('0' <= c1 && c1 <= '9') && ('0' <= c2 && c2 <= '9') && ('0'
        <= c3 && c3 <= '9') && ('0' <= c4 && c4 <= '9') && ('0' <= c5 && c5 <= '9') && ('0' <= c6
        && c6 <= '9') && ('0' <= c7 && c7 <= '9')) {
        return None;
    }
    let year: u16 = ((digit_of(c0) * 10 + digit_of(c1)) * 10 + digit_of(c2)) * 10 + digit_of(c3);
    let month: u8 = (digit_of(c4) * 10 + digit_of(c5)) as u8;
    let day: u8 = (digit_of(c6) * 10 + digit_of(c7)) as u8;
    let d = Date { year, month, day };
    proof {
        lemma_digits_val_four(c0, c1, c2, c3);
        lemma_digits_val_two(c4, c5);
        lemma_digits_val_two(c6, c7);
    }
    if d.is_valid() {
        Some(d)
    } else {
        None
    }
}

} // verus!
