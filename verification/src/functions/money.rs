//! The payment provider's notifications: verified by signature, then
//! acknowledged. The verification itself is the caller's to make.

use crate::config::Config;
use crate::json::{text_at, text_member};
use crate::reply::{
    failed, failure, shown, succeeded, success, Answer, Envelope, Notification, Outcome, Reply,
};
use crate::text::{joined, same_text};
use serde_json::Value;
use vstd::prelude::*;
use vstd::string::*;

verus! {

/// What `stripe_webhook` comes to on `input`. Without the text of a payload or
/// of a signature header it reports which is missing, and nothing is to be
/// verified. Otherwise the payload and the header are to be verified with the
/// configured secret, never with one that the request brought.
pub open spec fn stripe_webhook_answer(config: Config, input: Value) -> Answer {
    match text_at(input, "payload"@) {
        None => Answer::Replied(failed("Missing payload"@)),
        Some(payload) => match text_at(input, "signature_header"@) {
            None => Answer::Replied(failed("Missing signature header"@)),
            Some(header) => Answer::Verify(payload, header, config.webhook_secret@),
        },
    }
}

/// Takes a notification of the payment provider: the members `payload` and
/// `signature_header` of `input`. It answers nothing by itself: the reply is
/// made by `settle`, once the signature has been verified.
pub fn stripe_webhook(config: &Config, input: Value) -> (r: Outcome)
    ensures
        r@ == stripe_webhook_answer(*config, input),
{
    let payload = match text_member(&input, "payload") {
        Some(p) => p,
        None => {
            return Outcome::Replied(failure(String::from_str("Missing payload")));
        },
    };
    let header = match text_member(&input, "signature_header") {
        Some(s) => s,
        None => {
            return Outcome::Replied(failure(String::from_str("Missing signature header")));
        },
    };
    Outcome::Verify(
        Notification {
            payload: String::from_str(payload),
            signature_header: String::from_str(header),
            secret: config.webhook_secret.clone(),
        },
    )
}

/// The acknowledgement of a verified event of the type `kind`. A type that
/// the gateway does nothing for is acknowledged too: the provider sends again
/// what was not acknowledged.
pub open spec fn acknowledgement(kind: Seq<char>) -> Seq<char> {
    if kind == "invoice.payment_succeeded"@ {
        "Payment succeeded"@
    } else if kind == "customer.subscription.deleted"@ {
        "Subscription deleted"@
    } else {
        "Unhandled event type"@
    }
}

/// The reply to a notification after verification: `Ok` holds the type of
/// the verified event, `Err` the reason why it was not verified.
pub open spec fn settled(verdict: Result<Seq<char>, Seq<char>>) -> Reply {
    match verdict {
        Ok(kind) => succeeded(acknowledgement(kind)),
        Err(reason) => failed("Webhook error: "@ + reason),
    }
}

/// Answers a notification once its verification is known. Every verified
/// event is acknowledged, whatever its type, and none that failed is.
pub fn settle(verdict: Result<String, String>) -> (r: Envelope)
    ensures
        shown(r) == settled(
            match verdict {
                Ok(kind) => Ok(kind@),
                Err(reason) => Err(reason@),
            },
        ),
{
    match verdict {
        Ok(kind) => {
            if same_text(kind.as_str(), "invoice.payment_succeeded") {
                success(String::from_str("Payment succeeded"))
            } else if same_text(kind.as_str(), "customer.subscription.deleted") {
                success(String::from_str("Subscription deleted"))
            } else {
                success(String::from_str("Unhandled event type"))
            }
        },
        Err(reason) => failure(joined("Webhook error: ", reason.as_str())),
    }
}

} // verus!
