use gateway::oauth::{advance, provider_endpoint, Event, Step};

fn finished(step: Step) -> Result<serde_json::Value, String> {
    match step {
        Step::Finish(end) => end,
        Step::Send(request) => panic!("a request to {} was to be sent", request.url),
        Step::ReadBody => panic!("the body was to be read"),
    }
}

#[test]
fn supported_providers_have_an_endpoint() {
    assert_eq!(provider_endpoint("google"), Some("https://www.googleapis.com/oauth2/v2/userinfo"));
    assert_eq!(provider_endpoint("github"), Some("https://api.github.com/user"));
    assert_eq!(provider_endpoint("microsoft"), Some("https://graph.microsoft.com/v1.0/me"));
}

#[test]
fn other_providers_have_none() {
    assert_eq!(provider_endpoint("gitlab"), None);
    assert_eq!(provider_endpoint("Google"), None);
    assert_eq!(provider_endpoint(""), None);
}

#[test]
fn unsupported_provider_ends_before_anything_is_sent() {
    let step = advance(Event::Asked { provider: "gitlab".to_string(), token: "t".to_string() });
    assert_eq!(finished(step), Err("Unsupported provider".to_string()));
}

#[test]
fn supported_provider_gets_the_token_as_bearer() {
    let step = advance(Event::Asked { provider: "github".to_string(), token: "tok".to_string() });
    match step {
        Step::Send(request) => {
            assert_eq!(request.url, "https://api.github.com/user");
            assert_eq!(request.bearer, "tok");
        },
        _ => panic!("a request was to be sent"),
    }
}

#[test]
fn transport_failure_is_a_request_error() {
    let step = advance(Event::Unreachable { reason: "connection refused".to_string() });
    assert_eq!(finished(step), Err("Request error: connection refused".to_string()));
}

#[test]
fn success_status_asks_for_the_body() {
    for status in [200u16, 204, 299] {
        let step = advance(Event::Answered { status, spelled: "x".to_string() });
        assert!(matches!(step, Step::ReadBody), "{}", status);
    }
}

#[test]
fn other_status_is_a_rejected_token() {
    for (status, spelled) in [(401u16, "401 Unauthorized"), (199, "199 <unknown status code>"), (300, "300 Multiple Choices"), (500, "500 Internal Server Error")] {
        let step = advance(Event::Answered { status, spelled: spelled.to_string() });
        assert_eq!(finished(step), Err(format!("Token validation failed with status: {}", spelled)));
    }
}

#[test]
fn profile_is_handed_on_as_it_came() {
    let profile: serde_json::Value = serde_json::from_str(r#"{"id":7,"login":"octo","nested":{"a":[1,2]}}"#).unwrap();
    let step = advance(Event::Read { body: Ok(profile.clone()) });
    assert_eq!(finished(step), Ok(profile));
}

#[test]
fn unreadable_body_is_a_parse_failure() {
    let step = advance(Event::Read { body: Err("expected value at line 1 column 1".to_string()) });
    assert_eq!(finished(step), Err("Failed to parse response: expected value at line 1 column 1".to_string()));
}
