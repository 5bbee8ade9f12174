//! The two values that the process is configured with.

use vstd::prelude::*;
use vstd::string::*;

verus! {

/// The administrative token and the webhook signing secret. Both come from
/// the process's configuration, never from a request.
pub struct Config {
    pub admin_token: String,
    pub webhook_secret: String,
}

/// The administrative token of a process that configures none.
pub open spec fn default_admin_token() -> Seq<char> {
    "default_admin_token"@
}

/// The signing secret of a process that configures none.
pub open spec fn default_webhook_secret() -> Seq<char> {
    "your-webhook-signing-secret"@
}

impl Config {
    /// The configuration made of what the process was given, with the default
    /// in place of each value that it was not given.
    pub fn new(admin_token: Option<String>, webhook_secret: Option<String>) -> (r: Config)
        ensures
            r.admin_token@ == (match admin_token {
                Some(t) => t@,
                None => default_admin_token(),
            }),
            r.webhook_secret@ == (match webhook_secret {
                Some(s) => s@,
                None => default_webhook_secret(),
            }),
    {
        let admin_token = match admin_token {
            Some(t) => t,
            None => String::from_str("default_admin_token"),
        };
        let webhook_secret = match webhook_secret {
            Some(s) => s,
            None => String::from_str("your-webhook-signing-secret"),
        };
        Config { admin_token, webhook_secret }
    }
}

} // verus!
