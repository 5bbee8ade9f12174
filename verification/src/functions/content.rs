//! Commands that list and search the marketplace's entries.

use crate::json::{count_at, count_member};
use crate::reply::{decline, shown, succeeded, success, unavailable, Envelope, Reply};
use crate::text::{decimal, decimal_text};
use chrono::Timelike;
use serde_json::Value;
use vstd::prelude::*;
use vstd::string::*;

verus! {

/// `chrono::DateTime::<chrono::Utc>::from` on `std::time::SystemTime::now`,
/// read through `Timelike::hour` and `Timelike::minute`: the hour of the day,
/// from 0 to 23, and the minute of the hour, from 0 to 59, on the clock of
/// this machine. A clock that stands before 1970 is converted like any other.
/// Two readings may differ.
#[verifier::external_body]
fn hour_and_minute() -> (r: (u32, u32))
    ensures
        r.0 < 24,
        r.1 < 60,
{
    let now = chrono::DateTime::<chrono::Utc>::from(std::time::SystemTime::now());
    (now.hour(), now.minute())
}

/// The minutes that have passed since midnight at `hour` and `minute`.
pub fn minute_of_day(hour: u32, minute: u32) -> (r: u64)
    ensures
        r == hour * 60 + minute,
{
    let hour: u64 = hour as u64;
    let minute: u64 = minute as u64;
    hour * 60 + minute
}

/// The result of the random listing for one minute of the day.
pub open spec fn random_entries_text(minute: u64) -> Seq<char> {
    "Random entries for minute "@ + decimal(minute as nat)
}

/// The random listing for `minute`.
pub fn random_entries(minute: u64) -> (r: Envelope)
    ensures
        shown(r) == succeeded(random_entries_text(minute)),
{
    let mut text = String::from_str("Random entries for minute ");
    let numeral = decimal_text(minute);
    text.append(numeral.as_str());
    success(text)
}

/// What `list_random_entries` may answer on `input`: the listing for the
/// minute that `input` names, or else for some minute of the day.
pub open spec fn list_random_entries_permits(input: Value, reply: Reply) -> bool {
    match count_at(input, "minute"@) {
        Some(minute) => reply == succeeded(random_entries_text(minute)),
        None => exists|minute: u64|
            minute < 1440 && reply == succeeded(#[trigger] random_entries_text(minute)),
    }
}

/// Lists the random entries of one minute of the day: the one under `minute`
/// in `input` or, without it, the minute that the clock shows.
pub fn list_random_entries(input: Value) -> (r: Envelope)
    ensures
        list_random_entries_permits(input, shown(r)),
{
    match count_member(&input, "minute") {
        Some(minute) => random_entries(minute),
        None => {
            let (hour, minute) = hour_and_minute();
            random_entries(minute_of_day(hour, minute))
        },
    }
}

/// Lists the entries. Nothing stands behind this command, and every call
/// reports so as an error.
pub fn list_entries(_input: Value) -> (r: Envelope)
    ensures
        shown(r) == unavailable(),
{
    decline()
}

/// Searches the entries. Nothing stands behind this command, and every call
/// reports so as an error.
pub fn search_entries(_input: Value) -> (r: Envelope)
    ensures
        shown(r) == unavailable(),
{
    decline()
}

/// Shows one entry. Nothing stands behind this command, and every call
/// reports so as an error.
pub fn get_entry(_input: Value) -> (r: Envelope)
    ensures
        shown(r) == unavailable(),
{
    decline()
}

/// Lists the entries of one creator. Nothing stands behind this command, and
/// every call reports so as an error.
pub fn list_entries_by_creator(_input: Value) -> (r: Envelope)
    ensures
        shown(r) == unavailable(),
{
    decline()
}

/// Lists the categories. Nothing stands behind this command, and every call
/// reports so as an error.
pub fn list_categories(_input: Value) -> (r: Envelope)
    ensures
        shown(r) == unavailable(),
{
    decline()
}

/// Lists the newest entries. Nothing stands behind this command, and every
/// call reports so as an error.
pub fn list_new_entries(_input: Value) -> (r: Envelope)
    ensures
        shown(r) == unavailable(),
{
    decline()
}

/// Lists the entries most asked for. Nothing stands behind this command, and
/// every call reports so as an error.
pub fn list_popular_entries(_input: Value) -> (r: Envelope)
    ensures
        shown(r) == unavailable(),
{
    decline()
}

/// Lists the entries with the best ratings. Nothing stands behind this
/// command, and every call reports so as an error.
pub fn list_best_rated_entries(_input: Value) -> (r: Envelope)
    ensures
        shown(r) == unavailable(),
{
    decline()
}

} // verus!
