//! Commands on the cart.

use crate::json::{contains, has_member};
use crate::reply::{answer, decline, gated, shown, unavailable, Envelope, Reply};
use serde_json::Value;
use vstd::prelude::*;

verus! {

/// What `add_to_cart` answers on `input`.
pub open spec fn add_to_cart_reply(input: Value) -> Reply {
    gated(
        has_member(input, "item_id"@),
        "Item added to cart"@,
        "Missing item_id"@,
    )
}

/// Puts an item into the cart. It asks for `item_id` in `input` and
/// reports what is missing otherwise.
pub fn add_to_cart(input: Value) -> (r: Envelope)
    ensures
        shown(r) == add_to_cart_reply(input),
{
    let met = contains(&input, "item_id");
    answer(met, "Item added to cart", "Missing item_id")
}

/// What `remove_from_cart` answers on `input`.
pub open spec fn remove_from_cart_reply(input: Value) -> Reply {
    gated(
        has_member(input, "item_id"@),
        "Item removed from cart"@,
        "Missing item_id"@,
    )
}

/// Takes an item out of the cart. It asks for `item_id` in `input` and
/// reports what is missing otherwise.
pub fn remove_from_cart(input: Value) -> (r: Envelope)
    ensures
        shown(r) == remove_from_cart_reply(input),
{
    let met = contains(&input, "item_id");
    answer(met, "Item removed from cart", "Missing item_id")
}

/// What `view_cart` answers on `input`.
pub open spec fn view_cart_reply(input: Value) -> Reply {
    gated(
        has_member(input, "user_id"@),
        "Cart viewed"@,
        "Missing user_id"@,
    )
}

/// Shows a user's cart. It asks for `user_id` in `input` and
/// reports what is missing otherwise.
pub fn view_cart(input: Value) -> (r: Envelope)
    ensures
        shown(r) == view_cart_reply(input),
{
    let met = contains(&input, "user_id");
    answer(met, "Cart viewed", "Missing user_id")
}

/// Downloads what the cart holds. Nothing stands behind this command, and every call
/// reports so as an error.
pub fn download_cart(_input: Value) -> (r: Envelope)
    ensures
        shown(r) == unavailable(),
{
    decline()
}

} // verus!
