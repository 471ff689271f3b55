//! Calendar dates (proleptic Gregorian), validated by `chrono`.
use vstd::prelude::*;

use crate::text::{digits, padded, push_char, push_padded};

verus! {

/// A year as `chrono` prints it: four digits within 0..=9999, otherwise signed.
pub open spec fn year_text(y: int) -> Seq<char> {
    if 0 <= y <= 9999 {
        padded(y as nat, 4)
    } else if y > 9999 {
        seq!['+'] + digits(y as nat)
    } else {
        seq!['-'] + padded((-y) as nat, 4)
    }
}

/// `YYYY-MM-DD`.
pub open spec fn iso_text(d: Date) -> Seq<char> {
    year_text(d.y()) + seq!['-'] + padded(d.m() as nat, 2) + seq!['-'] + padded(d.d() as nat, 2)
}

/// `DD.MM.YYYY`.
pub open spec fn dotted_text(d: Date) -> Seq<char> {
    padded(d.d() as nat, 2) + seq!['.'] + padded(d.m() as nat, 2) + seq!['.'] + year_text(d.y())
}

pub open spec fn is_leap_year(year: int) -> bool {
    (year % 4 == 0 && year % 100 != 0) || year % 400 == 0
}

pub open spec fn days_in_month(year: int, month: int) -> int {
    if month == 2 {
        if is_leap_year(year) {
            29
        } else {
            28
        }
    } else if month == 4 || month == 6 || month == 9 || month == 11 {
        30
    } else {
        31
    }
}

/// The (year, month, day) that `chrono` reads from a text in the form `%Y-%m-%d`, or nothing
/// when the text is not such a date.
pub uninterp spec fn ymd_parse(text: Seq<char>) -> Option<(int, int, int)>;

/// The dates that `chrono::NaiveDate` can hold.
pub open spec fn valid_date(year: int, month: int, day: int) -> bool {
    &&& -262143 <= year <= 262142
    &&& 1 <= month <= 12
    &&& 1 <= day <= days_in_month(year, month)
}

/// The date `k` months after `d`: the same day, or the last day of a shorter month.
pub open spec fn months_later(d: Date, k: int) -> Option<(int, int, int)> {
    let total = d.y() * 12 + d.m() - 1 + k;
    let y = total / 12;
    let m = total % 12 + 1;
    let day = if d.d() > days_in_month(y, m) {
        days_in_month(y, m)
    } else {
        d.d()
    };
    if valid_date(y, m, day) {
        Some((y, m, day))
    } else {
        None
    }
}

/// The day before a (year, month, day).
pub open spec fn prev_day(t: (int, int, int)) -> (int, int, int) {
    if t.2 > 1 {
        (t.0, t.1, t.2 - 1)
    } else if t.1 > 1 {
        (t.0, t.1 - 1, days_in_month(t.0, t.1 - 1))
    } else {
        (t.0 - 1, 12, 31)
    }
}

/// The day `n` days before a (year, month, day).
pub open spec fn days_earlier(t: (int, int, int), n: nat) -> (int, int, int)
    decreases n,
{
    if n == 0 {
        t
    } else {
        prev_day(days_earlier(t, (n - 1) as nat))
    }
}

#[derive(Clone, Copy, Debug)]
pub struct Date {
    year: i32,
    month: u32,
    day: u32,
}

impl Date {
    #[verifier::type_invariant]
    pub closed spec fn valid(self) -> bool {
        valid_date(self.year as int, self.month as int, self.day as int)
    }

    /// A date names a day that exists.
    pub proof fn lemma_valid(self)
        requires
            self.valid(),
        ensures
            valid_date(self.y(), self.m(), self.d()),
    {
    }

    pub closed spec fn y(self) -> int {
        self.year as int
    }

    pub closed spec fn m(self) -> int {
        self.month as int
    }

    pub closed spec fn d(self) -> int {
        self.day as int
    }

    /// A number that orders dates chronologically.
    pub open spec fn key(self) -> int {
        self.y() * 10000 + self.m() * 100 + self.d()
    }

    /// `chrono::NaiveDate::from_ymd_opt`: the date, or `None` when it does not exist.
    #[verifier::external_body]
    pub fn from_ymd_opt(year: i32, month: u32, day: u32) -> (r: Option<Date>)
        ensures
            r is Some <==> valid_date(year as int, month as int, day as int),
            r matches Some(d) ==> d.y() == year && d.m() == month && d.d() == day,
    {
        match chrono::NaiveDate::from_ymd_opt(year, month, day) {
            Some(_) => Some(Date { year, month, day }),
            None => None,
        }
    }

    /// `chrono::NaiveDate::parse_from_str(text, "%Y-%m-%d")`: the day a text names in that form,
    /// or `None`.
    #[verifier::external_body]
    pub fn parse_ymd(text: &str) -> (r: Option<Date>)
        ensures
            r is Some <==> ymd_parse(text@) is Some,
            r matches Some(d) ==> ymd_parse(text@) == Some((d.y(), d.m(), d.d())),
    {
        match chrono::NaiveDate::parse_from_str(text, "%Y-%m-%d") {
            Ok(d) => Some(Date {
                year: chrono::Datelike::year(&d),
                month: chrono::Datelike::month(&d),
                day: chrono::Datelike::day(&d),
            }),
            Err(_) => None,
        }
    }

    /// `chrono::NaiveDate::checked_sub_days`: the day `days` days earlier; `None` out of
    /// `chrono`'s range.
    #[verifier::external_body]
    pub fn checked_sub_days(&self, days: u32) -> (r: Option<Date>)
        ensures
            r is Some <==> valid_date(
                days_earlier((self.y(), self.m(), self.d()), days as nat).0,
                days_earlier((self.y(), self.m(), self.d()), days as nat).1,
                days_earlier((self.y(), self.m(), self.d()), days as nat).2,
            ),
            r matches Some(x) ==> (x.y(), x.m(), x.d()) == days_earlier((self.y(), self.m(), self.d()), days as nat),
    {
        chrono::NaiveDate::from_ymd_opt(self.year, self.month, self.day)
            .and_then(|d| d.checked_sub_days(chrono::Days::new(days as u64)))
            .map(|d| Date {
                year: chrono::Datelike::year(&d),
                month: chrono::Datelike::month(&d),
                day: chrono::Datelike::day(&d),
            })
    }

    /// `chrono::NaiveDate::checked_add_months`: the same day `months` months later, the last
    /// day of the month where that day does not exist; `None` out of `chrono`'s range.
    #[verifier::external_body]
    pub fn checked_add_months(&self, months: u32) -> (r: Option<Date>)
        requires
            months <= 12_000,
        ensures
            match months_later(*self, months as int) {
                Some(ymd) => r matches Some(x) && x.y() == ymd.0 && x.m() == ymd.1 && x.d() == ymd.2,
                None => r is None,
            },
    {
        chrono::NaiveDate::from_ymd_opt(self.year, self.month, self.day)
            .and_then(|d| d.checked_add_months(chrono::Months::new(months)))
            .map(|d| Date {
                year: chrono::Datelike::year(&d),
                month: chrono::Datelike::month(&d),
                day: chrono::Datelike::day(&d),
            })
    }

    pub fn year(&self) -> (r: i32)
        ensures
            r == self.y(),
            -262143 <= r <= 262142,
    {
        proof {
            use_type_invariant(self);
        }
        self.year
    }

    pub fn month(&self) -> (r: u32)
        ensures
            r == self.m(),
            1 <= r <= 12,
    {
        proof {
            use_type_invariant(self);
        }
        self.month
    }

    pub fn day(&self) -> (r: u32)
        ensures
            r == self.d(),
            1 <= r <= 31,
    {
        proof {
            use_type_invariant(self);
        }
        self.day
    }

    fn push_year(&self, s: &mut String)
        ensures
            final(s)@ == old(s)@ + year_text(self.y()),
    {
        proof {
            use_type_invariant(self);
        }
        let y = self.year;
        if 0 <= y && y <= 9999 {
            push_padded(s, y as u64, 4);
        } else if y > 9999 {
            push_char(s, '+');
            push_padded(s, y as u64, 0);
            assert(s@ =~= old(s)@ + (seq!['+'] + digits(y as nat)));
        } else {
            push_char(s, '-');
            push_padded(s, (-y) as u64, 4);
            assert(s@ =~= old(s)@ + (seq!['-'] + padded((-y) as nat, 4)));
        }
    }

    /// The date as `chrono` displays it: `YYYY-MM-DD`.
    pub fn iso_text(&self) -> (r: String)
        ensures
            r@ == iso_text(*self),
    {
        proof {
            use_type_invariant(self);
        }
        let mut s = String::new();
        self.push_year(&mut s);
        push_char(&mut s, '-');
        push_padded(&mut s, self.month as u64, 2);
        push_char(&mut s, '-');
        push_padded(&mut s, self.day as u64, 2);
        assert(s@ =~= iso_text(*self));
        s
    }

    /// The date as the reports print it: `DD.MM.YYYY`.
    pub fn dotted_text(&self) -> (r: String)
        ensures
            r@ == dotted_text(*self),
    {
        proof {
            use_type_invariant(self);
        }
        let mut s = String::new();
        push_padded(&mut s, self.day as u64, 2);
        push_char(&mut s, '.');
        push_padded(&mut s, self.month as u64, 2);
        push_char(&mut s, '.');
        self.push_year(&mut s);
        assert(s@ =~= dotted_text(*self));
        s
    }

    /// Whether `self` is strictly earlier than `other`.
    pub fn before(&self, other: &Date) -> (r: bool)
        ensures
            r == (self.key() < other.key()),
    {
        proof {
            use_type_invariant(self);
            use_type_invariant(other);
        }
        self.year < other.year || (self.year == other.year && (self.month < other.month || (
        self.month == other.month && self.day < other.day)))
    }

    /// Whether two dates are the same day.
    pub fn same_day(&self, other: &Date) -> (r: bool)
        ensures
            r == (self.key() == other.key()),
            r == (self.y() == other.y() && self.m() == other.m() && self.d() == other.d()),
    {
        proof {
            use_type_invariant(self);
            use_type_invariant(other);
        }
        self.year == other.year && self.month == other.month && self.day == other.day
    }
}

/// A time of day on a date, to the minute.
#[derive(Debug, Clone, Copy)]
pub struct DateTime {
    pub date: Date,
    pub hour: u32,
    pub minute: u32,
}

/// `DD.MM.YYYY HH:MM`.
pub open spec fn datetime_text(t: DateTime) -> Seq<char> {
    dotted_text(t.date) + seq![' '] + padded(t.hour as nat, 2) + seq![':'] + padded(t.minute as nat, 2)
}

impl DateTime {
    /// The time as the reports print it: `DD.MM.YYYY HH:MM`.
    pub fn dotted_text(&self) -> (r: String)
        ensures
            r@ == datetime_text(*self),
    {
        let mut s = self.date.dotted_text();
        push_char(&mut s, ' ');
        push_padded(&mut s, self.hour as u64, 2);
        push_char(&mut s, ':');
        push_padded(&mut s, self.minute as u64, 2);
        s
    }
}

/// A closed range of days: what a statement covers.
#[derive(Debug, Clone, Copy)]
pub struct Period {
    first: Date,
    last: Date,
}

impl Period {
    /// The first day of the period.
    pub closed spec fn first(self) -> Date {
        self.first
    }

    /// The last day of the period.
    pub closed spec fn last(self) -> Date {
        self.last
    }

    /// The period from `first` to `last`; none when `last` is before `first`.
    pub fn new(first: Date, last: Date) -> (r: Option<Period>)
        ensures
            r is Some <==> first.key() <= last.key(),
            r matches Some(p) ==> p.first() == first && p.last() == last,
    {
        if last.before(&first) {
            None
        } else {
            Some(Period { first, last })
        }
    }

    pub fn first_date(&self) -> (r: Date)
        ensures
            r == self.first(),
    {
        self.first
    }

    pub fn last_date(&self) -> (r: Date)
        ensures
            r == self.last(),
    {
        self.last
    }
}

impl PartialEq for Date {
    fn eq(&self, other: &Date) -> (r: bool) {
        self.same_day(other)
    }
}

impl vstd::std_specs::cmp::PartialEqSpecImpl for Date {
    open spec fn obeys_eq_spec() -> bool {
        true
    }

    open spec fn eq_spec(&self, other: &Date) -> bool {
        self.y() == other.y() && self.m() == other.m() && self.d() == other.d()
    }
}

} // verus!
