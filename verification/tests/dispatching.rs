use gateway::config::Config;
use gateway::dispatch::{dispatch, dispatch_map};
use gateway::reply::{Notification, Outcome};
use serde_json::Value;

fn replied(outcome: Outcome) -> (Option<String>, Option<String>) {
    match outcome {
        Outcome::Replied(envelope) => envelope,
        Outcome::Verify(notification) => panic!("nothing was to be verified: {:?}", notification),
    }
}

fn json(text: &str) -> Value {
    serde_json::from_str(text).unwrap()
}

fn plain() -> Config {
    Config::new(None, None)
}

#[test]
fn login_with_email_and_password_succeeds() {
    let registry = dispatch_map();
    let reply = replied(dispatch(&registry, &plain(), "login", json(r#"{"email":"a@b.com","password":"x"}"#)));
    assert_eq!(reply, (Some("Login successful".to_string()), None));
}

#[test]
fn login_without_members_reports_what_is_missing() {
    let registry = dispatch_map();
    let reply = replied(dispatch(&registry, &plain(), "login", json("{}")));
    assert_eq!(reply, (None, Some("Missing email or password".to_string())));
}

#[test]
fn login_with_email_alone_reports_what_is_missing() {
    let registry = dispatch_map();
    let reply = replied(dispatch(&registry, &plain(), "login", json(r#"{"email":"a@b.com"}"#)));
    assert_eq!(reply, (None, Some("Missing email or password".to_string())));
}

#[test]
fn unknown_name_is_not_found() {
    let registry = dispatch_map();
    let reply = replied(dispatch(&registry, &plain(), "totally_unknown", json("{}")));
    assert_eq!(reply, (None, Some("Function 'totally_unknown' not found".to_string())));
}

#[test]
fn lookup_is_case_sensitive() {
    let registry = dispatch_map();
    let reply = replied(dispatch(&registry, &plain(), "Login", json(r#"{"email":"a","password":"b"}"#)));
    assert_eq!(reply, (None, Some("Function 'Login' not found".to_string())));
}

#[test]
fn empty_name_is_not_found() {
    let registry = dispatch_map();
    let reply = replied(dispatch(&registry, &plain(), "", Value::Null));
    assert_eq!(reply, (None, Some("Function '' not found".to_string())));
}

#[test]
fn registry_holds_the_whole_catalog() {
    let registry = dispatch_map();
    assert_eq!(registry.len(), 37);
    let names = [
        "register_user", "get_user_profile", "update_user_profile", "delete_user_profile",
        "start_subscription", "cancel_subscription", "get_subscription_status", "login",
        "add_to_cart", "remove_from_cart", "view_cart", "download_cart", "create_entry",
        "update_entry", "delete_entry", "get_creator_dashboard", "create_review",
        "update_review", "delete_review", "list_reviews_by_entry", "admin_list_users",
        "admin_list_entries", "admin_remove_entry", "admin_ban_user", "admin_stats",
        "admin_setup_daily_random", "admin_setup_daily_hottest", "list_entries",
        "search_entries", "get_entry", "list_entries_by_creator", "list_categories",
        "list_new_entries", "list_popular_entries", "list_best_rated_entries",
        "list_random_entries", "stripe_webhook",
    ];
    for name in names {
        assert!(registry.lookup(name).is_some(), "{}", name);
    }
    assert!(registry.lookup("unknown").is_none());
}

#[test]
fn every_reply_holds_exactly_one_part() {
    let registry = dispatch_map();
    let inputs = ["{}", "null", "[1,2]", r#"{"user_id":1,"email":"e","access_token":"t"}"#, "7"];
    let names = ["login", "view_cart", "admin_stats", "list_entries", "list_random_entries", "nothing"];
    for name in names {
        for input in inputs {
            let (result, error) = replied(dispatch(&registry, &plain(), name, json(input)));
            assert!(result.is_some() != error.is_some(), "{} {}", name, input);
        }
    }
}

#[test]
fn registered_commands_succeed_on_what_they_ask_for() {
    let registry = dispatch_map();
    let cases = [
        ("register_user", r#"{"user_id":1,"email":"e"}"#, "User registered"),
        ("get_user_profile", r#"{"requesting_user_id":1,"target_user_id":2}"#, "User profile"),
        ("update_user_profile", r#"{"user_id":1}"#, "User profile updated"),
        ("delete_user_profile", r#"{"requesting_user_id":1,"target_user_id":2}"#, "User profile deleted"),
        ("start_subscription", r#"{"user_id":1,"plan_id":"p"}"#, "Subscription started"),
        ("cancel_subscription", r#"{"user_id":1}"#, "Subscription canceled"),
        ("get_subscription_status", r#"{"user_id":1}"#, "Subscription status"),
        ("add_to_cart", r#"{"item_id":4}"#, "Item added to cart"),
        ("remove_from_cart", r#"{"item_id":4}"#, "Item removed from cart"),
        ("view_cart", r#"{"user_id":1}"#, "Cart viewed"),
        ("create_entry", r#"{"json":{}}"#, "Entry created"),
        ("update_entry", r#"{"entryId":"x"}"#, "Entry updated"),
        ("delete_entry", r#"{"entryId":"x"}"#, "Entry deleted"),
        ("create_review", r#"{"user_id":1,"entry_user_id":2}"#, "Review created"),
        ("update_review", r#"{"review_id":1}"#, "Review updated"),
        ("delete_review", r#"{"review_id":1}"#, "Review deleted"),
        ("admin_list_users", r#"{"access_token":"default_admin_token"}"#, "List of users"),
        ("admin_list_entries", r#"{"access_token":"default_admin_token"}"#, "List of entries"),
        ("admin_remove_entry", r#"{"access_token":"default_admin_token"}"#, "Entry removed"),
        ("admin_ban_user", r#"{"access_token":"default_admin_token"}"#, "User banned"),
        ("admin_stats", r#"{"access_token":"default_admin_token"}"#, "Stats"),
        ("list_random_entries", r#"{"minute":90}"#, "Random entries for minute 90"),
    ];
    for (name, input, expected) in cases {
        let reply = replied(dispatch(&registry, &plain(), name, json(input)));
        assert_eq!(reply, (Some(expected.to_string()), None), "{}", name);
    }
}

#[test]
fn commands_report_what_is_missing() {
    let registry = dispatch_map();
    let cases = [
        ("register_user", r#"{"user_id":1}"#, "Missing user_id or email"),
        ("get_user_profile", r#"{"target_user_id":2}"#, "Missing user IDs"),
        ("update_user_profile", "{}", "Missing user_id"),
        ("delete_user_profile", "{}", "Missing user IDs"),
        ("start_subscription", r#"{"plan_id":"p"}"#, "Missing user_id or plan_id"),
        ("cancel_subscription", "{}", "Missing user_id"),
        ("get_subscription_status", "[]", "Missing user_id"),
        ("add_to_cart", "{}", "Missing item_id"),
        ("remove_from_cart", "{}", "Missing item_id"),
        ("view_cart", "null", "Missing user_id"),
        ("create_entry", "{}", "Missing JSON payload"),
        ("update_entry", r#"{"entryid":1}"#, "Missing entryId"),
        ("delete_entry", "{}", "Missing entryId"),
        ("create_review", r#"{"user_id":1}"#, "Missing user or entry IDs"),
        ("update_review", "{}", "Missing review_id"),
        ("delete_review", "{}", "Missing review_id"),
        ("admin_stats", "{}", "Missing access token"),
        ("admin_stats", r#"{"access_token":5}"#, "Missing access token"),
        ("admin_ban_user", r#"{"access_token":"guess"}"#, "Unauthorized: Invalid access token."),
        ("stripe_webhook", "{}", "Missing payload"),
        ("stripe_webhook", r#"{"payload":"{}"}"#, "Missing signature header"),
    ];
    for (name, input, expected) in cases {
        let reply = replied(dispatch(&registry, &plain(), name, json(input)));
        assert_eq!(reply, (None, Some(expected.to_string())), "{}", name);
    }
}

#[test]
fn member_that_is_null_counts_as_present() {
    let registry = dispatch_map();
    let reply = replied(dispatch(&registry, &plain(), "view_cart", json(r#"{"user_id":null}"#)));
    assert_eq!(reply, (Some("Cart viewed".to_string()), None));
}

#[test]
fn commands_without_an_effect_report_an_error() {
    let registry = dispatch_map();
    let names = [
        "download_cart", "get_creator_dashboard", "list_reviews_by_entry",
        "admin_setup_daily_random", "admin_setup_daily_hottest", "list_entries",
        "search_entries", "get_entry", "list_entries_by_creator", "list_categories",
        "list_new_entries", "list_popular_entries", "list_best_rated_entries",
    ];
    for name in names {
        let reply = replied(dispatch(&registry, &plain(), name, json("{}")));
        assert_eq!(reply, (None, Some("not implemented".to_string())), "{}", name);
    }
}

#[test]
fn configured_admin_token_replaces_the_default() {
    let registry = dispatch_map();
    let config = Config::new(Some("s3".to_string()), None);
    let ok = replied(dispatch(&registry, &config, "admin_stats", json(r#"{"access_token":"s3"}"#)));
    assert_eq!(ok, (Some("Stats".to_string()), None));
    let old = replied(dispatch(&registry, &config, "admin_stats", json(r#"{"access_token":"default_admin_token"}"#)));
    assert_eq!(old, (None, Some("Unauthorized: Invalid access token.".to_string())));
}

#[test]
fn notification_is_handed_out_for_verification() {
    let registry = dispatch_map();
    let config = Config::new(None, Some("whsec_test".to_string()));
    let input = json(r#"{"payload":"{\"id\":1}","signature_header":"t=1,v1=ab","secret":"mine"}"#);
    let outcome = dispatch(&registry, &config, "stripe_webhook", input);
    assert_eq!(
        outcome,
        Outcome::Verify(Notification {
            payload: "{\"id\":1}".to_string(),
            signature_header: "t=1,v1=ab".to_string(),
            secret: "whsec_test".to_string(),
        })
    );
}

#[test]
fn notification_without_configuration_uses_the_default_secret() {
    let registry = dispatch_map();
    let input = json(r#"{"payload":"p","signature_header":"s"}"#);
    match dispatch(&registry, &plain(), "stripe_webhook", input) {
        Outcome::Verify(notification) => assert_eq!(notification.secret, "your-webhook-signing-secret"),
        Outcome::Replied(envelope) => panic!("{:?}", envelope),
    }
}

#[test]
fn notification_whose_payload_is_no_string_is_refused() {
    let registry = dispatch_map();
    let input = json(r#"{"payload":{"id":1},"signature_header":"s"}"#);
    let reply = replied(dispatch(&registry, &plain(), "stripe_webhook", input));
    assert_eq!(reply, (None, Some("Missing payload".to_string())));
}
