//! The one way in for both transports: an invocation comes as a JSON value
//! with the name of a command and its input, and goes to `dispatch`.

use crate::config::Config;
use crate::dispatch::{dispatch, dispatched, Registry};
use crate::json::{
    duplicate, get, is_blank, json_is_null, json_members, member_of, null, object_of_two, text_at,
    text_member,
};
use crate::reply::{exclusive, shown, Answer, Envelope, Outcome, Reply};
use serde_json::Value;
use vstd::prelude::*;

verus! {

/// The name that an invocation asks for: the text of its member
/// `function_name`, or the word `unknown` where it has none.
pub open spec fn requested_name(event: Value) -> Seq<char> {
    match text_at(event, "function_name"@) {
        Some(name) => name,
        None => "unknown"@,
    }
}

/// Whether `input` is what an invocation hands to its command: the member
/// `input`, or null where it has none.
pub open spec fn carries(event: Value, input: Value) -> bool {
    match member_of(event, "input"@) {
        Some(member) => input == member,
        None => is_blank(input),
    }
}

/// Answers one invocation: dispatches the name it asks for on the input it
/// carries. An invocation without a name gets the error for a name that is
/// not registered.
pub fn invoke(registry: &Registry, config: &Config, event: &Value) -> (r: Outcome)
    ensures
        r@ matches Answer::Replied(reply) ==> exclusive(reply),
        exists|input: Value|
            carries(*event, input) && #[trigger] dispatched(
                registry@,
                *config,
                requested_name(*event),
                input,
                r@,
            ),
{
    let name = match text_member(event, "function_name") {
        Some(name) => name,
        None => "unknown",
    };
    let input = match get(event, "input") {
        Some(member) => duplicate(member),
        None => null(),
    };
    let ghost handed = input;
    let r = dispatch(registry, config, name, input);
    proof {
        assert(carries(*event, handed));
        assert(dispatched(registry@, *config, requested_name(*event), handed, r@));
    }
    r
}

/// Whether `body` is the wire form of `reply`: an object of the two members
/// `result` and `error`, each the text of its part or, for a part that is not
/// there, null.
pub open spec fn renders(body: Value, reply: Reply) -> bool {
    &&& forall|key: Seq<char>|
        json_members(body).contains_key(key) <==> key == "result"@ || key == "error"@
    &&& text_at(body, "result"@) == reply.0
    &&& text_at(body, "error"@) == reply.1
    &&& reply.0 is None ==> json_is_null(json_members(body)["result"@])
    &&& reply.1 is None ==> json_is_null(json_members(body)["error"@])
}

/// The wire form of an envelope.
pub fn render(envelope: Envelope) -> (r: Value)
    ensures
        renders(r, shown(envelope)),
{
    proof {
        reveal_strlit("result");
        reveal_strlit("error");
        assert("result"@.len() != "error"@.len());
    }
    object_of_two("result", envelope.0, "error", envelope.1)
}

} // verus!
