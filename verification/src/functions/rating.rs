//! Commands on reviews.

use crate::json::{contains, has_member};
use crate::reply::{answer, decline, gated, shown, unavailable, Envelope, Reply};
use serde_json::Value;
use vstd::prelude::*;

verus! {

/// What `create_review` answers on `input`.
pub open spec fn create_review_reply(input: Value) -> Reply {
    gated(
        has_member(input, "user_id"@) && has_member(input, "entry_user_id"@),
        "Review created"@,
        "Missing user or entry IDs"@,
    )
}

/// Writes a review. It asks for `user_id` and `entry_user_id` in `input` and
/// reports what is missing otherwise.
pub fn create_review(input: Value) -> (r: Envelope)
    ensures
        shown(r) == create_review_reply(input),
{
    let met = contains(&input, "user_id") && contains(&input, "entry_user_id");
    answer(met, "Review created", "Missing user or entry IDs")
}

/// What `update_review` answers on `input`.
pub open spec fn update_review_reply(input: Value) -> Reply {
    gated(
        has_member(input, "review_id"@),
        "Review updated"@,
        "Missing review_id"@,
    )
}

/// Updates a review. It asks for `review_id` in `input` and
/// reports what is missing otherwise.
pub fn update_review(input: Value) -> (r: Envelope)
    ensures
        shown(r) == update_review_reply(input),
{
    let met = contains(&input, "review_id");
    answer(met, "Review updated", "Missing review_id")
}

/// What `delete_review` answers on `input`.
pub open spec fn delete_review_reply(input: Value) -> Reply {
    gated(
        has_member(input, "review_id"@),
        "Review deleted"@,
        "Missing review_id"@,
    )
}

/// Deletes a review. It asks for `review_id` in `input` and
/// reports what is missing otherwise.
pub fn delete_review(input: Value) -> (r: Envelope)
    ensures
        shown(r) == delete_review_reply(input),
{
    let met = contains(&input, "review_id");
    answer(met, "Review deleted", "Missing review_id")
}

/// Lists the reviews of an entry. Nothing stands behind this command, and every call
/// reports so as an error.
pub fn list_reviews_by_entry(_input: Value) -> (r: Envelope)
    ensures
        shown(r) == unavailable(),
{
    decline()
}

} // verus!
