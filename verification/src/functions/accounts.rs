//! Commands on accounts and subscriptions.

use crate::json::{contains, has_member};
use crate::reply::{answer, gated, shown, Envelope, Reply};
use serde_json::Value;
use vstd::prelude::*;

verus! {

/// What `register_user` answers on `input`.
pub open spec fn register_user_reply(input: Value) -> Reply {
    gated(
        has_member(input, "user_id"@) && has_member(input, "email"@),
        "User registered"@,
        "Missing user_id or email"@,
    )
}

/// Registers a user. It asks for `user_id` and `email` in `input` and
/// reports what is missing otherwise.
pub fn register_user(input: Value) -> (r: Envelope)
    ensures
        shown(r) == register_user_reply(input),
{
    let met = contains(&input, "user_id") && contains(&input, "email");
    answer(met, "User registered", "Missing user_id or email")
}

/// What `get_user_profile` answers on `input`.
pub open spec fn get_user_profile_reply(input: Value) -> Reply {
    gated(
        has_member(input, "requesting_user_id"@) && has_member(input, "target_user_id"@),
        "User profile"@,
        "Missing user IDs"@,
    )
}

/// Shows one user the profile of another. It asks for `requesting_user_id`
/// and `target_user_id` in `input` and reports what is missing otherwise.
pub fn get_user_profile(input: Value) -> (r: Envelope)
    ensures
        shown(r) == get_user_profile_reply(input),
{
    let met = contains(&input, "requesting_user_id") && contains(&input, "target_user_id");
    answer(met, "User profile", "Missing user IDs")
}

/// What `update_user_profile` answers on `input`.
pub open spec fn update_user_profile_reply(input: Value) -> Reply {
    gated(
        has_member(input, "user_id"@),
        "User profile updated"@,
        "Missing user_id"@,
    )
}

/// Updates a profile. It asks for `user_id` in `input` and
/// reports what is missing otherwise.
pub fn update_user_profile(input: Value) -> (r: Envelope)
    ensures
        shown(r) == update_user_profile_reply(input),
{
    let met = contains(&input, "user_id");
    answer(met, "User profile updated", "Missing user_id")
}

/// What `delete_user_profile` answers on `input`.
pub open spec fn delete_user_profile_reply(input: Value) -> Reply {
    gated(
        has_member(input, "requesting_user_id"@) && has_member(input, "target_user_id"@),
        "User profile deleted"@,
        "Missing user IDs"@,
    )
}

/// Deletes a profile on a user's request. It asks for `requesting_user_id`
/// and `target_user_id` in `input` and reports what is missing otherwise.
pub fn delete_user_profile(input: Value) -> (r: Envelope)
    ensures
        shown(r) == delete_user_profile_reply(input),
{
    let met = contains(&input, "requesting_user_id") && contains(&input, "target_user_id");
    answer(met, "User profile deleted", "Missing user IDs")
}

/// What `start_subscription` answers on `input`.
pub open spec fn start_subscription_reply(input: Value) -> Reply {
    gated(
        has_member(input, "user_id"@) && has_member(input, "plan_id"@),
        "Subscription started"@,
        "Missing user_id or plan_id"@,
    )
}

/// Starts a subscription. It asks for `user_id` and `plan_id` in `input` and
/// reports what is missing otherwise.
pub fn start_subscription(input: Value) -> (r: Envelope)
    ensures
        shown(r) == start_subscription_reply(input),
{
    let met = contains(&input, "user_id") && contains(&input, "plan_id");
    answer(met, "Subscription started", "Missing user_id or plan_id")
}

/// What `cancel_subscription` answers on `input`.
pub open spec fn cancel_subscription_reply(input: Value) -> Reply {
    gated(
        has_member(input, "user_id"@),
        "Subscription canceled"@,
        "Missing user_id"@,
    )
}

/// Cancels a subscription. It asks for `user_id` in `input` and
/// reports what is missing otherwise.
pub fn cancel_subscription(input: Value) -> (r: Envelope)
    ensures
        shown(r) == cancel_subscription_reply(input),
{
    let met = contains(&input, "user_id");
    answer(met, "Subscription canceled", "Missing user_id")
}

/// What `get_subscription_status` answers on `input`.
pub open spec fn get_subscription_status_reply(input: Value) -> Reply {
    gated(
        has_member(input, "user_id"@),
        "Subscription status"@,
        "Missing user_id"@,
    )
}

/// Reports the state of a subscription. It asks for `user_id` in `input` and
/// reports what is missing otherwise.
pub fn get_subscription_status(input: Value) -> (r: Envelope)
    ensures
        shown(r) == get_subscription_status_reply(input),
{
    let met = contains(&input, "user_id");
    answer(met, "Subscription status", "Missing user_id")
}

/// What `login` answers on `input`.
pub open spec fn login_reply(input: Value) -> Reply {
    gated(
        has_member(input, "email"@) && has_member(input, "password"@),
        "Login successful"@,
        "Missing email or password"@,
    )
}

/// Logs a user in. It asks for `email` and `password` in `input` and
/// reports what is missing otherwise.
pub fn login(input: Value) -> (r: Envelope)
    ensures
        shown(r) == login_reply(input),
{
    let met = contains(&input, "email") && contains(&input, "password");
    answer(met, "Login successful", "Missing email or password")
}

} // verus!
