//! Commands for those who publish entries.

use crate::json::{contains, has_member};
use crate::reply::{answer, decline, gated, shown, unavailable, Envelope, Reply};
use serde_json::Value;
use vstd::prelude::*;

verus! {

/// What `create_entry` answers on `input`.
pub open spec fn create_entry_reply(input: Value) -> Reply {
    gated(
        has_member(input, "json"@),
        "Entry created"@,
        "Missing JSON payload"@,
    )
}

/// Creates an entry. It asks for `json` in `input` and
/// reports what is missing otherwise.
pub fn create_entry(input: Value) -> (r: Envelope)
    ensures
        shown(r) == create_entry_reply(input),
{
    let met = contains(&input, "json");
    answer(met, "Entry created", "Missing JSON payload")
}

/// What `update_entry` answers on `input`.
pub open spec fn update_entry_reply(input: Value) -> Reply {
    gated(
        has_member(input, "entryId"@),
        "Entry updated"@,
        "Missing entryId"@,
    )
}

/// Updates an entry. It asks for `entryId` in `input` and
/// reports what is missing otherwise.
pub fn update_entry(input: Value) -> (r: Envelope)
    ensures
        shown(r) == update_entry_reply(input),
{
    let met = contains(&input, "entryId");
    answer(met, "Entry updated", "Missing entryId")
}

/// What `delete_entry` answers on `input`.
pub open spec fn delete_entry_reply(input: Value) -> Reply {
    gated(
        has_member(input, "entryId"@),
        "Entry deleted"@,
        "Missing entryId"@,
    )
}

/// Deletes an entry. It asks for `entryId` in `input` and
/// reports what is missing otherwise.
pub fn delete_entry(input: Value) -> (r: Envelope)
    ensures
        shown(r) == delete_entry_reply(input),
{
    let met = contains(&input, "entryId");
    answer(met, "Entry deleted", "Missing entryId")
}

/// Shows a creator's dashboard. Nothing stands behind this command, and every call
/// reports so as an error.
pub fn get_creator_dashboard(_input: Value) -> (r: Envelope)
    ensures
        shown(r) == unavailable(),
{
    decline()
}

} // verus!
