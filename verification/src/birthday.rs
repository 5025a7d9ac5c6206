//! Birthdays: when the next one falls.
//!
//! A birthday is a month and a day. Its next occurrence is the first date
//! from today on that has that month and day. Someone born on the leap day
//! is congratulated on the twenty-eighth of February in the years that are
//! no multiple of four.

use vstd::prelude::*;
use crate::roster::UserBirthday;

verus! {

/// The first year that `chrono::NaiveDate` can hold.
pub const MIN_YEAR: i32 = -262_143;

/// The last year that `chrono::NaiveDate` can hold.
pub const MAX_YEAR: i32 = 262_142;

/// A day of the calendar.
#[derive(Clone, Copy, Debug, PartialEq, Eq, Structural)]
pub struct Date {
    /// The year, with 1 BCE as year 0.
    pub year: i32,
    /// The month, from 1.
    pub month: u32,
    /// The day of the month, from 1.
    pub day: u32,
}

/// Whether `year` is a leap year of the Gregorian calendar, carried back
/// before its introduction.
pub open spec fn is_leap_year(year: int) -> bool {
    year % 4 == 0 && (year % 100 != 0 || year % 400 == 0)
}

/// How many days the month `month` of `year` has.
pub open spec fn days_in_month(year: int, month: int) -> int {
    if month == 2 {
        if is_leap_year(year) {
            29
        } else {
            28
        }
    } else if month == 4 || month == 6 || month == 9 || month == 11 {
        30
    } else {
        31
    }
}

/// Whether there is a day `day` of month `month` in `year`, and `year` is
/// one that `chrono::NaiveDate` can hold.
pub open spec fn is_calendar_date(year: int, month: int, day: int) -> bool {
    &&& MIN_YEAR <= year <= MAX_YEAR
    &&& 1 <= month <= 12
    &&& 1 <= day <= days_in_month(year, month)
}

/// Calls `chrono::NaiveDate::from_ymd_opt` and says whether it made a date.
/// It makes one if and only if the day exists in the Gregorian calendar,
/// carried back before its introduction, and the year lies between
/// chrono's `MIN_YEAR` and `MAX_YEAR`, which are -262143 and 262142. This
/// one call stands for chrono's `with_year` and `with_day` too: each makes
/// the date that `from_ymd_opt` makes of the changed numbers.
#[verifier::external_body]
fn date_exists(year: i32, month: u32, day: u32) -> (r: bool)
    ensures
        r == is_calendar_date(year as int, month as int, day as int),
{
    chrono::NaiveDate::from_ymd_opt(year, month, day).is_some()
}

impl Date {
    /// Whether this date comes before `other`.
    pub open spec fn is_before(self, other: Date) -> bool {
        self.year < other.year || (self.year == other.year && (self.month < other.month || (
        self.month == other.month && self.day < other.day)))
    }

    /// Tests whether this date comes before `other`.
    pub fn before(&self, other: &Date) -> (r: bool)
        ensures
            r == self.is_before(*other),
    {
        self.year < other.year || (self.year == other.year && (self.month < other.month || (
        self.month == other.month && self.day < other.day)))
    }
}

/// The date on which a birthday of `month` and `day` is kept in `year`: the
/// day itself, but for the leap day, which is kept on the twenty-eighth of
/// February in a year that is no multiple of four.
pub open spec fn kept_on(year: int, month: u8, day: u8) -> (int, int, int) {
    if month == 2 && day == 29 && year % 4 != 0 {
        (year, 2, 28)
    } else {
        (year, month as int, day as int)
    }
}

/// Whether the birthday of `month` and `day` can be kept in `year`.
pub open spec fn can_be_kept(year: int, month: u8, day: u8) -> bool {
    let (y, m, d) = kept_on(year, month, day);
    is_calendar_date(y, m, d)
}

/// The date on which a birthday of `month` and `day` is kept in `year`, as
/// a [`Date`].
pub open spec fn kept_date(year: int, month: u8, day: u8) -> Date {
    let (y, m, d) = kept_on(year, month, day);
    Date { year: y as i32, month: m as u32, day: d as u32 }
}

/// The next occurrence, from `today` on, of the birthday of `month` and
/// `day`.
///
/// A month or a day of zero stands for a birthday that is not known, and
/// has no next occurrence. Neither has a birthday that cannot be kept this
/// year, such as the thirty-first of April. Otherwise the birthday is kept
/// this year if that is today or yet to come, and next year if it is past
/// and next year has the day.
pub open spec fn next_birthday(today: Date, month: u8, day: u8) -> Option<Date> {
    if month == 0 || day == 0 {
        None
    } else if !can_be_kept(today.year as int, month, day) {
        None
    } else if !kept_date(today.year as int, month, day).is_before(today) {
        Some(kept_date(today.year as int, month, day))
    } else if can_be_kept(today.year + 1, month, day) {
        Some(kept_date(today.year + 1, month, day))
    } else {
        None
    }
}

/// Gives the date on which the birthday of `month` and `day` is kept in
/// `year`, if it can be kept then.
fn keep_in(year: i32, month: u8, day: u8) -> (r: Option<Date>)
    ensures
        r == if can_be_kept(year as int, month, day) {
            Some(kept_date(year as int, month, day))
        } else {
            None
        },
{
    let (m, d): (u32, u32) = if month == 2 && day == 29 && year % 4 != 0 {
        (2, 28)
    } else {
        (month as u32, day as u32)
    };
    if date_exists(year, m, d) {
        Some(Date { year, month: m, day: d })
    } else {
        None
    }
}

/// Finds the next occurrence, from `today` on, of the birthday of `month`
/// and `day`.
pub fn get_next_birthday_date(today: Date, month: u8, day: u8) -> (r: Option<Date>)
    ensures
        r == next_birthday(today, month, day),
{
    if month == 0 || day == 0 {
        return None;
    }
    match keep_in(today.year, month, day) {
        None => None,
        Some(date) => {
            if !date.before(&today) {
                Some(date)
            } else if today.year < MAX_YEAR {
                keep_in(today.year + 1, month, day)
            } else {
                None
            }
        },
    }
}

/// The next occurrence, from `today` on, of the birthday that `roster`
/// holds for `user`. Where the roster holds the user more than once, its
/// last entry counts; where it does not hold the user, there is none.
pub open spec fn next_birthday_of(roster: Seq<UserBirthday>, user: u64, today: Date) -> Option<
    Date,
>
    decreases roster.len(),
{
    if roster.len() == 0 {
        None
    } else if roster.last().user == user {
        next_birthday(today, roster.last().month, roster.last().day)
    } else {
        next_birthday_of(roster.drop_last(), user, today)
    }
}

/// Looks `user` up in the roster and finds the next occurrence of the
/// birthday.
pub fn find_next_birthday(roster: &Vec<UserBirthday>, user: u64, today: Date) -> (r: Option<Date>)
    ensures
        r == next_birthday_of(roster@, user, today),
{
    let mut found: Option<Date> = None;
    let mut i: usize = 0;
    while i < roster.len()
        invariant
            i <= roster.len(),
            found == next_birthday_of(roster@.take(i as int), user, today),
        decreases roster.len() - i,
    {
        assert(roster@.take(i + 1).drop_last() == roster@.take(i as int));
        if roster[i].user == user {
            found = get_next_birthday_date(today, roster[i].month, roster[i].day);
        }
        i += 1;
    }
    assert(roster@.take(roster.len() as int) == roster@);
    found
}

/// Finds for each of `members`, in their order, the next occurrence of the
/// birthday that the roster holds for that user.
pub fn collect_birthdays(roster: &Vec<UserBirthday>, members: &Vec<u64>, today: Date) -> (r: Vec<
    Option<Date>,
>)
    ensures
        r.len() == members.len(),
        forall|i: int|
            0 <= i < members.len() ==> #[trigger] r[i] == next_birthday_of(
                roster@,
                members[i],
                today,
            ),
{
    let mut dates: Vec<Option<Date>> = Vec::new();
    let mut i: usize = 0;
    while i < members.len()
        invariant
            i <= members.len(),
            dates.len() == i,
            forall|j: int|
                0 <= j < i ==> #[trigger] dates[j] == next_birthday_of(
                    roster@,
                    members[j],
                    today,
                ),
        decreases members.len() - i,
    {
        dates.push(find_next_birthday(roster, members[i], today));
        i += 1;
    }
    dates
}

} // verus!
