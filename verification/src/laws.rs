//! What holds of the catalog and of every dispatch.

use crate::config::Config;
use crate::dispatch::{catalog, dispatched, distinct_names, resolve, Command};
use crate::functions::money::settled;
use crate::json::{has_member, text_at};
use crate::oauth::{endpoint, follows, is_success, Event, Step};
use crate::reply::{exclusive, failed, Answer};
use serde_json::Value;
use vstd::prelude::*;

verus! {

/// A lookup finds a command exactly where the table holds its name: a hit
/// names an entry of the table, and a miss means that no entry has the name.
pub proof fn resolve_is_membership(table: Seq<(Seq<char>, Command)>, name: Seq<char>)
    ensures
        match resolve(table, name) {
            Some(command) => exists|i: int|
                0 <= i < table.len() && #[trigger] table[i].0 == name && table[i].1 == command,
            None => forall|i: int| 0 <= i < table.len() ==> #[trigger] table[i].0 != name,
        },
    decreases table.len(),
{
    if table.len() == 0 {
    } else if table.first().0 == name {
        assert(table[0].0 == name && table[0].1 == table.first().1);
    } else {
        let rest = table.drop_first();
        resolve_is_membership(rest, name);
        assert forall|i: int| 0 <= i < rest.len() implies rest[i] == table[i + 1] by {}
        match resolve(rest, name) {
            Some(command) => {
                let i = choose|i: int|
                    0 <= i < rest.len() && #[trigger] rest[i].0 == name && rest[i].1 == command;
                assert(table[i + 1].0 == name && table[i + 1].1 == command);
            },
            None => {
                assert forall|i: int| 0 <= i < table.len() implies #[trigger] table[i].0
                    != name by {
                    if i > 0 {
                        assert(rest[i - 1].0 != name);
                    }
                }
            },
        }
    }
}

/// In a table without a repeated name every entry is found under its own
/// name.
pub proof fn entry_resolves(table: Seq<(Seq<char>, Command)>, i: int)
    requires
        distinct_names(table),
        0 <= i < table.len(),
    ensures
        resolve(table, table[i].0) == Some(table[i].1),
{
    resolve_is_membership(table, table[i].0);
    match resolve(table, table[i].0) {
        Some(command) => {
            let j = choose|j: int|
                0 <= j < table.len() && #[trigger] table[j].0 == table[i].0 && table[j].1
                    == command;
            assert(j == i);
        },
        None => {
            assert(table[i].0 != table[i].0);
        },
    }
}

/// What tells two names of the catalog apart: the length, and the letters at
/// four places.
pub open spec fn marks(name: Seq<char>) -> (nat, char, char, char, char) {
    (
        name.len(),
        if name.len() > 0 { name[0] } else { ' ' },
        if name.len() > 5 { name[5] } else { ' ' },
        if name.len() > 7 { name[7] } else { ' ' },
        if name.len() > 12 { name[12] } else { ' ' },
    )
}

/// The names of the catalog, and the word that stands for a missing name,
/// differ from each other in their marks.
proof fn names_differ_in_marks()
    ensures
        catalog().len() == 37,
        forall|i: int, j: int|
            0 <= i < j < 37 ==> marks(#[trigger] catalog()[i].0) != marks(
                #[trigger] catalog()[j].0,
            ),
        forall|i: int| 0 <= i < 37 ==> marks(#[trigger] catalog()[i].0) != marks("unknown"@),
{
    reveal_strlit("register_user");
    reveal_strlit("get_user_profile");
    reveal_strlit("update_user_profile");
    reveal_strlit("delete_user_profile");
    reveal_strlit("start_subscription");
    reveal_strlit("cancel_subscription");
    reveal_strlit("get_subscription_status");
    reveal_strlit("login");
    reveal_strlit("add_to_cart");
    reveal_strlit("remove_from_cart");
    reveal_strlit("view_cart");
    reveal_strlit("download_cart");
    reveal_strlit("create_entry");
    reveal_strlit("update_entry");
    reveal_strlit("delete_entry");
    reveal_strlit("get_creator_dashboard");
    reveal_strlit("create_review");
    reveal_strlit("update_review");
    reveal_strlit("delete_review");
    reveal_strlit("list_reviews_by_entry");
    reveal_strlit("admin_list_users");
    reveal_strlit("admin_list_entries");
    reveal_strlit("admin_remove_entry");
    reveal_strlit("admin_ban_user");
    reveal_strlit("admin_stats");
    reveal_strlit("admin_setup_daily_random");
    reveal_strlit("admin_setup_daily_hottest");
    reveal_strlit("list_entries");
    reveal_strlit("search_entries");
    reveal_strlit("get_entry");
    reveal_strlit("list_entries_by_creator");
    reveal_strlit("list_categories");
    reveal_strlit("list_new_entries");
    reveal_strlit("list_popular_entries");
    reveal_strlit("list_best_rated_entries");
    reveal_strlit("list_random_entries");
    reveal_strlit("stripe_webhook");
    reveal_strlit("unknown");
}

/// No name is registered twice.
pub proof fn catalog_names_are_distinct()
    ensures
        distinct_names(catalog()),
        catalog().len() == 37,
{
    names_differ_in_marks();
    let table = catalog();
    assert forall|i: int, j: int| 0 <= i < j < table.len() implies table[i].0 != table[j].0 by {
        assert(marks(table[i].0) != marks(table[j].0));
    }
}

/// The word that stands for a missing name is not registered: an invocation
/// without a name is answered like one with an unregistered name.
pub proof fn unknown_is_not_registered()
    ensures
        resolve(catalog(), "unknown"@) is None,
{
    names_differ_in_marks();
    let table = catalog();
    resolve_is_membership(table, "unknown"@);
    assert forall|i: int| 0 <= i < table.len() implies #[trigger] table[i].0 != "unknown"@ by {
        assert(marks(table[i].0) != marks("unknown"@));
    }
}

/// Whether `input` is one that `command` does its work on. The commands that
/// nothing stands behind do their work on no input. To a notification of the
/// payment provider a dispatch makes no reply by itself: what follows its
/// verification is stated by `verified_event_is_acknowledged`.
pub open spec fn accepts(command: Command, config: Config, input: Value) -> bool {
    match command {
        Command::RegisterUser => has_member(input, "user_id"@) && has_member(input, "email"@),
        Command::GetUserProfile => has_member(input, "requesting_user_id"@)
            && has_member(input, "target_user_id"@),
        Command::UpdateUserProfile => has_member(input, "user_id"@),
        Command::DeleteUserProfile => has_member(input, "requesting_user_id"@)
            && has_member(input, "target_user_id"@),
        Command::StartSubscription => has_member(input, "user_id"@)
            && has_member(input, "plan_id"@),
        Command::CancelSubscription => has_member(input, "user_id"@),
        Command::GetSubscriptionStatus => has_member(input, "user_id"@),
        Command::Login => has_member(input, "email"@) && has_member(input, "password"@),
        Command::AddToCart => has_member(input, "item_id"@),
        Command::RemoveFromCart => has_member(input, "item_id"@),
        Command::ViewCart => has_member(input, "user_id"@),
        Command::DownloadCart => false,
        Command::CreateEntry => has_member(input, "json"@),
        Command::UpdateEntry => has_member(input, "entryId"@),
        Command::DeleteEntry => has_member(input, "entryId"@),
        Command::GetCreatorDashboard => false,
        Command::CreateReview => has_member(input, "user_id"@)
            && has_member(input, "entry_user_id"@),
        Command::UpdateReview => has_member(input, "review_id"@),
        Command::DeleteReview => has_member(input, "review_id"@),
        Command::ListReviewsByEntry => false,
        Command::AdminListUsers => text_at(input, "access_token"@) == Some(config.admin_token@),
        Command::AdminListEntries => text_at(input, "access_token"@) == Some(config.admin_token@),
        Command::AdminRemoveEntry => text_at(input, "access_token"@) == Some(config.admin_token@),
        Command::AdminBanUser => text_at(input, "access_token"@) == Some(config.admin_token@),
        Command::AdminStats => text_at(input, "access_token"@) == Some(config.admin_token@),
        Command::AdminSetupDailyRandom => false,
        Command::AdminSetupDailyHottest => false,
        Command::ListEntries => false,
        Command::SearchEntries => false,
        Command::GetEntry => false,
        Command::ListEntriesByCreator => false,
        Command::ListCategories => false,
        Command::ListNewEntries => false,
        Command::ListPopularEntries => false,
        Command::ListBestRatedEntries => false,
        Command::ListRandomEntries => true,
        Command::StripeWebhook => false,
    }
}

/// A registered command, dispatched on an input that it does its work on,
/// answers with a result and no error.
pub proof fn accepted_input_succeeds(
    name: Seq<char>,
    config: Config,
    input: Value,
    answer: Answer,
)
    requires
        resolve(catalog(), name) matches Some(command) && accepts(command, config, input),
        dispatched(catalog(), config, name, input, answer),
    ensures
        answer matches Answer::Replied(reply) && reply.0 is Some && reply.1 is None,
{
}

/// A name under which nothing is registered is answered with the error that
/// says so and with no result, whatever the input.
pub proof fn unregistered_name_is_not_found(
    table: Seq<(Seq<char>, Command)>,
    config: Config,
    name: Seq<char>,
    input: Value,
    answer: Answer,
)
    requires
        resolve(table, name) is None,
        dispatched(table, config, name, input, answer),
    ensures
        answer == Answer::Replied(
            (None::<Seq<char>>, Some("Function '"@ + name + "' not found"@)),
        ),
{
}

/// Every reply of a dispatch holds a result or an error: never both, never
/// neither.
pub proof fn replies_are_exclusive(
    table: Seq<(Seq<char>, Command)>,
    config: Config,
    name: Seq<char>,
    input: Value,
    answer: Answer,
)
    requires
        dispatched(table, config, name, input, answer),
    ensures
        answer matches Answer::Replied(reply) ==> exclusive(reply),
{
}

/// Every reply to a notification holds a result or an error too, whatever
/// its verification came to.
pub proof fn settled_replies_are_exclusive(verdict: Result<Seq<char>, Seq<char>>)
    ensures
        exclusive(settled(verdict)),
{
}

/// A dispatch asks for a verification only with the configured secret, and
/// makes no reply before the verification.
pub proof fn verification_uses_the_configured_secret(
    table: Seq<(Seq<char>, Command)>,
    config: Config,
    name: Seq<char>,
    input: Value,
    answer: Answer,
)
    requires
        dispatched(table, config, name, input, answer),
    ensures
        answer matches Answer::Verify(payload, header, secret) ==> {
            &&& resolve(table, name) matches Some(Command::StripeWebhook)
            &&& secret == config.webhook_secret@
            &&& text_at(input, "payload"@) == Some(payload)
            &&& text_at(input, "signature_header"@) == Some(header)
        },
{
}

/// A notification whose signature was verified is acknowledged with a result,
/// whatever the type of its event.
pub proof fn verified_event_is_acknowledged(kind: Seq<char>)
    ensures
        settled(Ok(kind)).0 is Some,
        settled(Ok(kind)).1 is None,
{
}

/// A notification whose signature was not verified gets an error and no
/// acknowledgement.
pub proof fn unverified_event_is_refused(reason: Seq<char>)
    ensures
        settled(Err(reason)) == failed("Webhook error: "@ + reason),
        settled(Err(reason)).0 is None,
{
}

/// Asking for a provider outside the supported set ends the validation with
/// an error at once: no request is to be sent.
pub proof fn unsupported_provider_sends_nothing(provider: String, token: String, step: Step)
    requires
        endpoint(provider@) is None,
        follows(Event::Asked { provider, token }, step),
    ensures
        !(step is Send),
        step matches Step::Finish(Err(e)) && e@ == "Unsupported provider"@,
{
}

/// A token that the provider rejects and a provider that cannot be reached
/// end a validation with different errors.
pub proof fn rejection_differs_from_transport_failure(
    status: u16,
    spelled: String,
    reason: String,
    rejected: Step,
    unreachable: Step,
)
    requires
        !is_success(status),
        follows(Event::Answered { status, spelled }, rejected),
        follows(Event::Unreachable { reason }, unreachable),
    ensures
        rejected matches Step::Finish(Err(a)) && unreachable matches Step::Finish(Err(b)) && a@
            != b@,
{
    reveal_strlit("Token validation failed with status: ");
    reveal_strlit("Request error: ");
    let a = "Token validation failed with status: "@ + spelled@;
    let b = "Request error: "@ + reason@;
    assert(a[0] == 'T');
    assert(b[0] == 'R');
}

} // verus!
