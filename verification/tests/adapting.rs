use gateway::adapter::{invoke, render};
use gateway::config::Config;
use gateway::dispatch::dispatch_map;
use gateway::reply::Outcome;
use serde_json::Value;

fn replied(outcome: Outcome) -> (Option<String>, Option<String>) {
    match outcome {
        Outcome::Replied(envelope) => envelope,
        Outcome::Verify(notification) => panic!("nothing was to be verified: {:?}", notification),
    }
}

fn parsed(text: &str) -> Value {
    serde_json::from_str(text).unwrap()
}

#[test]
fn invocation_of_view_cart_is_answered_on_the_wire() {
    let registry = dispatch_map();
    let config = Config::new(None, None);
    let event = parsed(r#"{"function_name":"view_cart","input":{"user_id":1}}"#);
    let body = render(replied(invoke(&registry, &config, &event)));
    assert_eq!(body, parsed(r#"{"result":"Cart viewed","error":null}"#));
    assert_eq!(
        serde_json::to_string(&body).unwrap().len(),
        r#"{"result":"Cart viewed","error":null}"#.len()
    );
}

#[test]
fn invocation_without_a_name_is_not_found() {
    let registry = dispatch_map();
    let config = Config::new(None, None);
    let reply = replied(invoke(&registry, &config, &parsed(r#"{"input":{"user_id":1}}"#)));
    assert_eq!(reply, (None, Some("Function 'unknown' not found".to_string())));
}

#[test]
fn invocation_whose_name_is_no_string_is_not_found() {
    let registry = dispatch_map();
    let config = Config::new(None, None);
    let reply = replied(invoke(&registry, &config, &parsed(r#"{"function_name":7,"input":{}}"#)));
    assert_eq!(reply, (None, Some("Function 'unknown' not found".to_string())));
}

#[test]
fn invocation_without_input_hands_on_nothing() {
    let registry = dispatch_map();
    let config = Config::new(None, None);
    let reply = replied(invoke(&registry, &config, &parsed(r#"{"function_name":"view_cart"}"#)));
    assert_eq!(reply, (None, Some("Missing user_id".to_string())));
    let listing = replied(invoke(&registry, &config, &parsed(r#"{"function_name":"list_random_entries","input":{"minute":5}}"#)));
    assert_eq!(listing, (Some("Random entries for minute 5".to_string()), None));
}

#[test]
fn invocation_that_is_no_object_is_not_found() {
    let registry = dispatch_map();
    let config = Config::new(None, None);
    let reply = replied(invoke(&registry, &config, &parsed("[1,2,3]")));
    assert_eq!(reply, (None, Some("Function 'unknown' not found".to_string())));
}

#[test]
fn error_is_rendered_beside_a_null_result() {
    let body = render((None, Some("Missing user_id".to_string())));
    assert_eq!(body, parsed(r#"{"result":null,"error":"Missing user_id"}"#));
    assert!(body.get("result").unwrap().is_null());
    assert_eq!(body.get("error").unwrap().as_str(), Some("Missing user_id"));
}
