//! Commands for administrators, each behind the administrative token.

use crate::config::Config;
use crate::json::{text_at, text_member};
use crate::reply::{decline, failed, failure, gated, shown, success, unavailable, Envelope, Reply};
use crate::text::same_text;
use serde_json::Value;
use vstd::prelude::*;
use vstd::string::*;

verus! {

/// What is said to a caller whose token is not the administrative one.
pub open spec fn unauthorized() -> Seq<char> {
    "Unauthorized: Invalid access token."@
}

/// What a privileged command answers to a caller that presents `token`, where
/// `expected` is the administrative token and `done` the command's result.
pub open spec fn privileged(token: Option<Seq<char>>, expected: Seq<char>, done: Seq<char>) -> Reply {
    match token {
        Some(t) => gated(t == expected, done, unauthorized()),
        None => failed("Missing access token"@),
    }
}

/// Accepts `access_token` where it is the expected token, letter for letter.
pub fn check_access_token(access_token: &str, expected: &str) -> (r: Result<(), String>)
    ensures
        r is Ok <==> access_token@ == expected@,
        r matches Err(e) ==> e@ == unauthorized(),
{
    if same_text(access_token, expected) {
        Ok(())
    } else {
        Err(String::from_str("Unauthorized: Invalid access token."))
    }
}

/// The answer of a privileged command whose result is `done` to a caller that
/// presents `token`.
pub fn admit_caller(token: Option<&str>, expected: &str, done: &str) -> (r: Envelope)
    ensures
        shown(r) == privileged(
            match token {
                Some(t) => Some(t@),
                None => None,
            },
            expected@,
            done@,
        ),
{
    match token {
        Some(t) => match check_access_token(t, expected) {
            Ok(()) => success(String::from_str(done)),
            Err(e) => failure(e),
        },
        None => failure(String::from_str("Missing access token")),
    }
}

/// What a privileged command with the result `done` answers on `input`: the
/// token is the text of the member `access_token`.
pub open spec fn admin_reply(config: Config, input: Value, done: Seq<char>) -> Reply {
    privileged(text_at(input, "access_token"@), config.admin_token@, done)
}

/// Lists the users.
pub fn admin_list_users(config: &Config, input: Value) -> (r: Envelope)
    ensures
        shown(r) == admin_reply(*config, input, "List of users"@),
{
    admit_caller(text_member(&input, "access_token"), config.admin_token.as_str(), "List of users")
}

/// Lists the entries.
pub fn admin_list_entries(config: &Config, input: Value) -> (r: Envelope)
    ensures
        shown(r) == admin_reply(*config, input, "List of entries"@),
{
    admit_caller(text_member(&input, "access_token"), config.admin_token.as_str(), "List of entries")
}

/// Removes an entry.
pub fn admin_remove_entry(config: &Config, input: Value) -> (r: Envelope)
    ensures
        shown(r) == admin_reply(*config, input, "Entry removed"@),
{
    admit_caller(text_member(&input, "access_token"), config.admin_token.as_str(), "Entry removed")
}

/// Bans a user.
pub fn admin_ban_user(config: &Config, input: Value) -> (r: Envelope)
    ensures
        shown(r) == admin_reply(*config, input, "User banned"@),
{
    admit_caller(text_member(&input, "access_token"), config.admin_token.as_str(), "User banned")
}

/// Reports the marketplace's figures.
pub fn admin_stats(config: &Config, input: Value) -> (r: Envelope)
    ensures
        shown(r) == admin_reply(*config, input, "Stats"@),
{
    admit_caller(text_member(&input, "access_token"), config.admin_token.as_str(), "Stats")
}

/// Draws the day's random entries. Nothing stands behind this command, and
/// every call reports so as an error.
pub fn admin_setup_daily_random(_input: Value) -> (r: Envelope)
    ensures
        shown(r) == unavailable(),
{
    decline()
}

/// Ranks the day's most wanted entries. Nothing stands behind this command,
/// and every call reports so as an error.
pub fn admin_setup_daily_hottest(_input: Value) -> (r: Envelope)
    ensures
        shown(r) == unavailable(),
{
    decline()
}

} // verus!
