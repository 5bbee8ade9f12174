//! The envelope that every command answers with: a result or an error.

use vstd::prelude::*;
use vstd::string::*;

verus! {

/// What a command hands back: the result in the first place or the error in
/// the second.
pub type Envelope = (Option<String>, Option<String>);

/// The envelope as contracts speak of it.
pub type Reply = (Option<Seq<char>>, Option<Seq<char>>);

/// The texts that an envelope holds.
pub open spec fn shown(e: Envelope) -> Reply {
    (
        match e.0 {
            Some(s) => Some(s@),
            None => None,
        },
        match e.1 {
            Some(s) => Some(s@),
            None => None,
        },
    )
}

/// A notification of the payment provider that is still to be verified: the
/// raw payload, the signature header that came with it, and the secret that
/// the process is configured with.
#[derive(Debug, PartialEq, Eq)]
pub struct Notification {
    pub payload: String,
    pub signature_header: String,
    pub secret: String,
}

/// What a command comes to: its reply, or a notification whose signature the
/// caller has to verify before any reply is made.
#[derive(Debug, PartialEq, Eq)]
pub enum Outcome {
    Replied(Envelope),
    Verify(Notification),
}

/// An outcome as contracts speak of it: the reply, or the payload, the
/// signature header and the secret of a verification.
pub enum Answer {
    Replied(Reply),
    Verify(Seq<char>, Seq<char>, Seq<char>),
}

impl View for Outcome {
    type V = Answer;

    open spec fn view(&self) -> Answer {
        match *self {
            Outcome::Replied(envelope) => Answer::Replied(shown(envelope)),
            Outcome::Verify(notification) => Answer::Verify(
                notification.payload@,
                notification.signature_header@,
                notification.secret@,
            ),
        }
    }
}

/// The reply of a command that did its work.
pub open spec fn succeeded(text: Seq<char>) -> Reply {
    (Some(text), None)
}

/// The reply of a command that reports an error.
pub open spec fn failed(text: Seq<char>) -> Reply {
    (None, Some(text))
}

/// Exactly one of result and error is there.
pub open spec fn exclusive(r: Reply) -> bool {
    (r.0 is Some) != (r.1 is Some)
}

/// The reply that depends on one condition alone.
pub open spec fn gated(met: bool, done: Seq<char>, refusal: Seq<char>) -> Reply {
    if met {
        succeeded(done)
    } else {
        failed(refusal)
    }
}

/// The reply of a command that nothing stands behind yet.
pub open spec fn unavailable() -> Reply {
    failed("not implemented"@)
}

/// An envelope with `text` as its result.
pub fn success(text: String) -> (r: Envelope)
    ensures
        shown(r) == succeeded(text@),
{
    (Some(text), None)
}

/// An envelope with `text` as its error.
pub fn failure(text: String) -> (r: Envelope)
    ensures
        shown(r) == failed(text@),
{
    (None, Some(text))
}

/// The envelope of a command that succeeds with `done` where `met` holds and
/// otherwise fails with `refusal`.
pub fn answer(met: bool, done: &str, refusal: &str) -> (r: Envelope)
    ensures
        shown(r) == gated(met, done@, refusal@),
        exclusive(shown(r)),
{
    if met {
        success(String::from_str(done))
    } else {
        failure(String::from_str(refusal))
    }
}

/// The envelope of a command that nothing stands behind yet.
pub fn decline() -> (r: Envelope)
    ensures
        shown(r) == unavailable(),
{
    failure(String::from_str("not implemented"))
}

} // verus!
