//! What passes between the application and the session log: how a stored
//! profile row is read, how the profile's day is written, and how the
//! per-day counts that the log gives are looked up.
//!
//! The log itself is the caller's. It lists only the days on which a focus
//! session was completed, so a day that it does not list counts as zero.

use vstd::prelude::*;

use crate::calendar::{iso_date_text, parsed_day_number, Date};
use crate::models::UserProfile;

verus! {

/// Days shown in the overview of the last week.
pub const WEEK_DAYS: usize = 7;

/// The day that a stored text stands for. A row without a text has no day,
/// and neither has a text that is not a day: it is read as absent.
pub open spec fn stored_date(text: Option<Seq<char>>) -> Option<Date> {
    match text {
        Some(t) => Date::of_day_number(parsed_day_number(t)),
        None => None,
    }
}

/// The count that `rows` lists for `day`: that of the first row for the
/// day, and zero where no row is for it.
pub open spec fn count_on(rows: Seq<(Seq<char>, u32)>, day: Seq<char>) -> u32
    decreases rows.len(),
{
    if rows.len() == 0 {
        0
    } else if rows[0].0 == day {
        rows[0].1
    } else {
        count_on(rows.drop_first(), day)
    }
}

/// The count that `rows` lists for the day with the number `days_from_ce`;
/// zero for a day that the calendar has no text for.
pub open spec fn count_on_day_number(rows: Seq<(Seq<char>, u32)>, days_from_ce: i32) -> u32 {
    match iso_date_text(days_from_ce) {
        Some(day) => count_on(rows, day),
        None => 0,
    }
}

/// The profile that a stored row stands for. The four numbers are taken as
/// they are; the day is read from its text, and a text that is no day
/// leaves the profile without one.
pub fn profile_from_row(
    total_xp: u32,
    level: u32,
    current_streak: u32,
    longest_streak: u32,
    last_session_date: Option<String>,
) -> (profile: UserProfile)
    ensures
        profile == (UserProfile {
            total_xp,
            level,
            current_streak,
            longest_streak,
            last_session_date: stored_date(
                match last_session_date {
                    Some(t) => Some(t@),
                    None => None,
                },
            ),
        }),
{
    let date: Option<Date> = match last_session_date {
        Some(text) => Date::parse_iso(text.as_str()),
        None => None,
    };
    UserProfile { total_xp, level, current_streak, longest_streak, last_session_date: date }
}

/// The text under which the profile's day is stored; `None` for a profile
/// without a day.
pub fn profile_date_text(profile: &UserProfile) -> (text: Option<String>)
    ensures
        match profile.last_session_date {
            Some(date) => match text {
                Some(t) => iso_date_text(date.days_from_ce) == Some(t@),
                None => iso_date_text(date.days_from_ce) is None,
            },
            None => text is None,
        },
{
    match profile.last_session_date {
        Some(date) => date.format_iso(),
        None => None,
    }
}

/// The count that `rows` lists for `day`, zero where they do not list it.
pub fn count_on_day(rows: &Vec<(String, u32)>, day: &str) -> (count: u32)
    ensures
        count == count_on(rows.deep_view(), day@),
        (forall|i: int| 0 <= i < rows.len() ==> (#[trigger] rows[i]).0@ != day@) ==> count == 0,
{
    let ghost listed = rows.deep_view();
    assert(listed.skip(0) =~= listed);
    let mut i: usize = 0;
    while i < rows.len()
        invariant
            0 <= i <= rows.len(),
            listed == rows.deep_view(),
            count_on(listed, day@) == count_on(listed.skip(i as int), day@),
            forall|j: int| 0 <= j < i ==> (#[trigger] rows[j]).0@ != day@,
        decreases rows.len() - i,
    {
        let row = &rows[i];
        assert(listed.skip(i as int)[0] == (row.0@, row.1));
        assert(listed.skip(i as int).drop_first() =~= listed.skip(i as int + 1));
        if row.0.as_str().eq(day) {
            return row.1;
        }
        i = i + 1;
    }
    0
}

/// The counts of the week that ends today, the oldest day first. Each is
/// the count that `rows` lists for the day, zero where they do not list it.
pub fn week_counts(rows: &Vec<(String, u32)>, today: Date) -> (counts: Vec<u32>)
    requires
        today.days_from_ce - 6 >= i32::MIN,
    ensures
        counts.len() == WEEK_DAYS,
        forall|k: int|
            0 <= k < WEEK_DAYS ==> #[trigger] counts[k] == count_on_day_number(
                rows.deep_view(),
                (today.days_from_ce - 6 + k) as i32,
            ),
{
    let mut counts: Vec<u32> = Vec::new();
    let mut k: usize = 0;
    while k < WEEK_DAYS
        invariant
            0 <= k <= WEEK_DAYS,
            today.days_from_ce - 6 >= i32::MIN,
            counts.len() == k,
            forall|j: int|
                0 <= j < k ==> #[trigger] counts[j] == count_on_day_number(
                    rows.deep_view(),
                    (today.days_from_ce - 6 + j) as i32,
                ),
        decreases WEEK_DAYS - k,
    {
        let back: i32 = 6 - k as i32;
        let day = Date { days_from_ce: today.days_from_ce - back };
        let count: u32 = match day.format_iso() {
            Some(text) => count_on_day(rows, text.as_str()),
            None => 0,
        };
        counts.push(count);
        k = k + 1;
    }
    counts
}

} // verus!
