//! Validation of a bearer token with an identity provider. The calls to the
//! provider are made by the caller; what to do next is decided here.

use crate::text::{joined, same_text};
use serde_json::Value;
use vstd::prelude::*;
use vstd::string::*;

verus! {

/// Where a provider hands out the profile that belongs to a token. The set of
/// providers is closed.
pub open spec fn endpoint(provider: Seq<char>) -> Option<Seq<char>> {
    if provider == "google"@ {
        Some("https://www.googleapis.com/oauth2/v2/userinfo"@)
    } else if provider == "github"@ {
        Some("https://api.github.com/user"@)
    } else if provider == "microsoft"@ {
        Some("https://graph.microsoft.com/v1.0/me"@)
    } else {
        None
    }
}

/// The profile endpoint of `provider`, if it is one of the supported ones.
pub fn provider_endpoint(provider: &str) -> (r: Option<&'static str>)
    ensures
        match r {
            Some(url) => endpoint(provider@) == Some(url@),
            None => endpoint(provider@) is None,
        },
{
    if same_text(provider, "google") {
        Some("https://www.googleapis.com/oauth2/v2/userinfo")
    } else if same_text(provider, "github") {
        Some("https://api.github.com/user")
    } else if same_text(provider, "microsoft") {
        Some("https://graph.microsoft.com/v1.0/me")
    } else {
        None
    }
}

/// Whether a status code tells of success: the codes from 200 to 299.
pub open spec fn is_success(status: u16) -> bool {
    200 <= status <= 299
}

/// One request for a profile: where it goes, and the token that it carries as
/// its bearer credential.
pub struct Request {
    pub url: String,
    pub bearer: String,
}

/// What has happened in a validation.
pub enum Event {
    /// A caller asks to validate `token` with `provider`.
    Asked { provider: String, token: String },
    /// The request did not reach the provider.
    Unreachable { reason: String },
    /// The provider answered with a status: its code, and the status as the
    /// transport spells it.
    Answered { status: u16, spelled: String },
    /// The body of the answer was read: as a JSON value, or not.
    Read { body: Result<Value, String> },
}

/// What to do next in a validation.
pub enum Step {
    /// Send this request.
    Send(Request),
    /// Read the body of the answer as JSON.
    ReadBody,
    /// The validation is over, with the profile or an error.
    Finish(Result<Value, String>),
}

/// Whether `step` is what follows `event` in a validation. A provider that
/// is not supported ends the validation before anything is sent; a transport
/// failure, a status other than success and an unreadable body each end it
/// with an error of their own; the profile is handed on as it came.
pub open spec fn follows(event: Event, step: Step) -> bool {
    match event {
        Event::Asked { provider, token } => match endpoint(provider@) {
            Some(url) => step matches Step::Send(request) && request.url@ == url
                && request.bearer@ == token@,
            None => step matches Step::Finish(Err(e)) && e@ == "Unsupported provider"@,
        },
        Event::Unreachable { reason } => step matches Step::Finish(Err(e)) && e@
            == "Request error: "@ + reason@,
        Event::Answered { status, spelled } => if is_success(status) {
            step is ReadBody
        } else {
            step matches Step::Finish(Err(e)) && e@ == "Token validation failed with status: "@
                + spelled@
        },
        Event::Read { body } => match body {
            Ok(profile) => step matches Step::Finish(Ok(p)) && p == profile,
            Err(reason) => step matches Step::Finish(Err(e)) && e@
                == "Failed to parse response: "@ + reason@,
        },
    }
}

/// Decides the next step of a validation from what has happened.
pub fn advance(event: Event) -> (r: Step)
    ensures
        follows(event, r),
{
    match event {
        Event::Asked { provider, token } => match provider_endpoint(provider.as_str()) {
            Some(url) => Step::Send(Request { url: String::from_str(url), bearer: token }),
            None => Step::Finish(Err(String::from_str("Unsupported provider"))),
        },
        Event::Unreachable { reason } => Step::Finish(
            Err(joined("Request error: ", reason.as_str())),
        ),
        Event::Answered { status, spelled } => if 200 <= status && status <= 299 {
            Step::ReadBody
        } else {
            Step::Finish(Err(joined("Token validation failed with status: ", spelled.as_str())))
        },
        Event::Read { body } => match body {
            Ok(profile) => Step::Finish(Ok(profile)),
            Err(reason) => Step::Finish(Err(joined("Failed to parse response: ", reason.as_str()))),
        },
    }
}

} // verus!
