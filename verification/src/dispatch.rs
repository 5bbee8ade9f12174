//! The catalog of commands and the one way into it.

use crate::config::Config;
use crate::functions::{accounts, admin, cart, content, money, publishing, rating};
use crate::laws::catalog_names_are_distinct;
use crate::reply::{exclusive, failed, failure, unavailable, Answer, Outcome};
use serde_json::Value;
use vstd::prelude::*;
use vstd::string::*;

verus! {

/// A command of the catalog.
#[derive(Clone, Copy, Debug)]
pub enum Command {
    RegisterUser,
    GetUserProfile,
    UpdateUserProfile,
    DeleteUserProfile,
    StartSubscription,
    CancelSubscription,
    GetSubscriptionStatus,
    Login,
    AddToCart,
    RemoveFromCart,
    ViewCart,
    DownloadCart,
    CreateEntry,
    UpdateEntry,
    DeleteEntry,
    GetCreatorDashboard,
    CreateReview,
    UpdateReview,
    DeleteReview,
    ListReviewsByEntry,
    AdminListUsers,
    AdminListEntries,
    AdminRemoveEntry,
    AdminBanUser,
    AdminStats,
    AdminSetupDailyRandom,
    AdminSetupDailyHottest,
    ListEntries,
    SearchEntries,
    GetEntry,
    ListEntriesByCreator,
    ListCategories,
    ListNewEntries,
    ListPopularEntries,
    ListBestRatedEntries,
    ListRandomEntries,
    StripeWebhook,
}

/// The catalog: every command under its name, in the order of registration.
pub open spec fn catalog() -> Seq<(Seq<char>, Command)> {
    seq![
        ("register_user"@, Command::RegisterUser),
        ("get_user_profile"@, Command::GetUserProfile),
        ("update_user_profile"@, Command::UpdateUserProfile),
        ("delete_user_profile"@, Command::DeleteUserProfile),
        ("start_subscription"@, Command::StartSubscription),
        ("cancel_subscription"@, Command::CancelSubscription),
        ("get_subscription_status"@, Command::GetSubscriptionStatus),
        ("login"@, Command::Login),
        ("add_to_cart"@, Command::AddToCart),
        ("remove_from_cart"@, Command::RemoveFromCart),
        ("view_cart"@, Command::ViewCart),
        ("download_cart"@, Command::DownloadCart),
        ("create_entry"@, Command::CreateEntry),
        ("update_entry"@, Command::UpdateEntry),
        ("delete_entry"@, Command::DeleteEntry),
        ("get_creator_dashboard"@, Command::GetCreatorDashboard),
        ("create_review"@, Command::CreateReview),
        ("update_review"@, Command::UpdateReview),
        ("delete_review"@, Command::DeleteReview),
        ("list_reviews_by_entry"@, Command::ListReviewsByEntry),
        ("admin_list_users"@, Command::AdminListUsers),
        ("admin_list_entries"@, Command::AdminListEntries),
        ("admin_remove_entry"@, Command::AdminRemoveEntry),
        ("admin_ban_user"@, Command::AdminBanUser),
        ("admin_stats"@, Command::AdminStats),
        ("admin_setup_daily_random"@, Command::AdminSetupDailyRandom),
        ("admin_setup_daily_hottest"@, Command::AdminSetupDailyHottest),
        ("list_entries"@, Command::ListEntries),
        ("search_entries"@, Command::SearchEntries),
        ("get_entry"@, Command::GetEntry),
        ("list_entries_by_creator"@, Command::ListEntriesByCreator),
        ("list_categories"@, Command::ListCategories),
        ("list_new_entries"@, Command::ListNewEntries),
        ("list_popular_entries"@, Command::ListPopularEntries),
        ("list_best_rated_entries"@, Command::ListBestRatedEntries),
        ("list_random_entries"@, Command::ListRandomEntries),
        ("stripe_webhook"@, Command::StripeWebhook),
    ]
}

/// The command that `table` holds under `name`: the first entry whose name is
/// `name`, letter for letter.
pub open spec fn resolve(table: Seq<(Seq<char>, Command)>, name: Seq<char>) -> Option<Command>
    decreases table.len(),
{
    if table.len() == 0 {
        None
    } else if table.first().0 == name {
        Some(table.first().1)
    } else {
        resolve(table.drop_first(), name)
    }
}

/// No name stands twice in `table`.
pub open spec fn distinct_names(table: Seq<(Seq<char>, Command)>) -> bool {
    forall|i: int, j: int| 0 <= i < j < table.len() ==> table[i].0 != table[j].0
}

/// The registry of commands. It is made once and never changed.
pub struct Registry {
    entries: Vec<(String, Command)>,
}

impl View for Registry {
    type V = Seq<(Seq<char>, Command)>;

    closed spec fn view(&self) -> Seq<(Seq<char>, Command)> {
        self.entries@.map_values(|e: (String, Command)| (e.0@, e.1))
    }
}

impl Registry {
    /// No name stands twice in a registry.
    #[verifier::type_invariant]
    closed spec fn names_stand_once(self) -> bool {
        distinct_names(self@)
    }

    fn new() -> (r: Registry)
        ensures
            r@ == Seq::<(Seq<char>, Command)>::empty(),
    {
        let r = Registry { entries: Vec::new() };
        proof {
            assert(r@ =~= Seq::<(Seq<char>, Command)>::empty());
        }
        r
    }

    fn register(self, name: &str, command: Command) -> (r: Registry)
        requires
            forall|i: int| 0 <= i < self@.len() ==> (#[trigger] self@[i]).0 != name@,
        ensures
            r@ == self@.push((name@, command)),
    {
        proof {
            use_type_invariant(&self);
        }
        let mut entries = self.entries;
        entries.push((String::from_str(name), command));
        proof {
            let table = entries@.map_values(|e: (String, Command)| (e.0@, e.1));
            assert(table =~= self@.push((name@, command)));
            assert forall|i: int, j: int| 0 <= i < j < table.len() implies table[i].0
                != table[j].0 by {
                if j < self@.len() {
                    assert(self@[i].0 != self@[j].0);
                } else {
                    assert(self@[i].0 != name@);
                }
            }
        }
        Registry { entries }
    }

    /// The number of registered commands.
    pub fn len(&self) -> (r: usize)
        ensures
            r == self@.len(),
    {
        self.entries.len()
    }

    /// The command registered under `name`, if there is one. No other entry
    /// has that name: no name stands twice in any registry.
    pub fn lookup(&self, name: &str) -> (r: Option<Command>)
        ensures
            r == resolve(self@, name@),
            distinct_names(self@),
    {
        proof {
            use_type_invariant(self);
        }
        let wanted = String::from_str(name);
        let mut i: usize = 0;
        proof {
            assert(self@.subrange(0, self@.len() as int) =~= self@);
        }
        while i < self.entries.len()
            invariant
                i <= self.entries.len(),
                wanted@ == name@,
                distinct_names(self@),
                resolve(self@, name@) == resolve(self@.subrange(i as int, self@.len() as int), name@),
            decreases self.entries.len() - i,
        {
            let ghost rest = self@.subrange(i as int, self@.len() as int);
            proof {
                assert(rest.first() == self@[i as int]);
                assert(rest.drop_first() =~= self@.subrange(i + 1, self@.len() as int));
            }
            if self.entries[i].0 == wanted {
                return Some(self.entries[i].1);
            }
            i += 1;
        }
        proof {
            assert(self@.subrange(i as int, self@.len() as int).len() == 0);
        }
        None
    }
}

/// Builds the registry: the whole catalog, each command under its name and no
/// name twice.
pub fn dispatch_map() -> (r: Registry)
    ensures
        r@ == catalog(),
        distinct_names(r@),
{
    let table: Vec<(&'static str, Command)> = vec![
        ("register_user", Command::RegisterUser),
        ("get_user_profile", Command::GetUserProfile),
        ("update_user_profile", Command::UpdateUserProfile),
        ("delete_user_profile", Command::DeleteUserProfile),
        ("start_subscription", Command::StartSubscription),
        ("cancel_subscription", Command::CancelSubscription),
        ("get_subscription_status", Command::GetSubscriptionStatus),
        ("login", Command::Login),
        ("add_to_cart", Command::AddToCart),
        ("remove_from_cart", Command::RemoveFromCart),
        ("view_cart", Command::ViewCart),
        ("download_cart", Command::DownloadCart),
        ("create_entry", Command::CreateEntry),
        ("update_entry", Command::UpdateEntry),
        ("delete_entry", Command::DeleteEntry),
        ("get_creator_dashboard", Command::GetCreatorDashboard),
        ("create_review", Command::CreateReview),
        ("update_review", Command::UpdateReview),
        ("delete_review", Command::DeleteReview),
        ("list_reviews_by_entry", Command::ListReviewsByEntry),
        ("admin_list_users", Command::AdminListUsers),
        ("admin_list_entries", Command::AdminListEntries),
        ("admin_remove_entry", Command::AdminRemoveEntry),
        ("admin_ban_user", Command::AdminBanUser),
        ("admin_stats", Command::AdminStats),
        ("admin_setup_daily_random", Command::AdminSetupDailyRandom),
        ("admin_setup_daily_hottest", Command::AdminSetupDailyHottest),
        ("list_entries", Command::ListEntries),
        ("search_entries", Command::SearchEntries),
        ("get_entry", Command::GetEntry),
        ("list_entries_by_creator", Command::ListEntriesByCreator),
        ("list_categories", Command::ListCategories),
        ("list_new_entries", Command::ListNewEntries),
        ("list_popular_entries", Command::ListPopularEntries),
        ("list_best_rated_entries", Command::ListBestRatedEntries),
        ("list_random_entries", Command::ListRandomEntries),
        ("stripe_webhook", Command::StripeWebhook),
    ];
    proof {
        catalog_names_are_distinct();
        assert forall|i: int| 0 <= i < 37 implies (#[trigger] table@[i]).0@ == catalog()[i].0
            && table@[i].1 == catalog()[i].1 by {}
    }
    let mut registry = Registry::new();
    let mut k: usize = 0;
    while k < table.len()
        invariant
            k <= table.len(),
            table@.len() == 37,
            catalog().len() == 37,
            distinct_names(catalog()),
            forall|i: int|
                0 <= i < 37 ==> (#[trigger] table@[i]).0@ == catalog()[i].0 && table@[i].1
                    == catalog()[i].1,
            registry@ == catalog().take(k as int),
        decreases table.len() - k,
    {
        let name = table[k].0;
        let command = table[k].1;
        proof {
            assert(table@[k as int].0@ == catalog()[k as int].0);
            assert forall|i: int| 0 <= i < registry@.len() implies (#[trigger] registry@[i]).0
                != name@ by {
                assert(catalog()[i].0 != catalog()[k as int].0);
            }
        }
        registry = registry.register(name, command);
        proof {
            assert(registry@ =~= catalog().take(k + 1));
        }
        k += 1;
    }
    proof {
        assert(catalog().take(37) =~= catalog());
    }
    registry
}

/// What a command may come to on an input: for all but one what its own
/// contract gives. The random listing may depend on the clock.
pub open spec fn permits(command: Command, config: Config, input: Value, answer: Answer) -> bool {
    match command {
        Command::RegisterUser => answer == Answer::Replied(accounts::register_user_reply(input)),
        Command::GetUserProfile => answer == Answer::Replied(
            accounts::get_user_profile_reply(input),
        ),
        Command::UpdateUserProfile => answer == Answer::Replied(
            accounts::update_user_profile_reply(input),
        ),
        Command::DeleteUserProfile => answer == Answer::Replied(
            accounts::delete_user_profile_reply(input),
        ),
        Command::StartSubscription => answer == Answer::Replied(
            accounts::start_subscription_reply(input),
        ),
        Command::CancelSubscription => answer == Answer::Replied(
            accounts::cancel_subscription_reply(input),
        ),
        Command::GetSubscriptionStatus => answer == Answer::Replied(
            accounts::get_subscription_status_reply(input),
        ),
        Command::Login => answer == Answer::Replied(accounts::login_reply(input)),
        Command::AddToCart => answer == Answer::Replied(cart::add_to_cart_reply(input)),
        Command::RemoveFromCart => answer == Answer::Replied(cart::remove_from_cart_reply(input)),
        Command::ViewCart => answer == Answer::Replied(cart::view_cart_reply(input)),
        Command::DownloadCart => answer == Answer::Replied(unavailable()),
        Command::CreateEntry => answer == Answer::Replied(publishing::create_entry_reply(input)),
        Command::UpdateEntry => answer == Answer::Replied(publishing::update_entry_reply(input)),
        Command::DeleteEntry => answer == Answer::Replied(publishing::delete_entry_reply(input)),
        Command::GetCreatorDashboard => answer == Answer::Replied(unavailable()),
        Command::CreateReview => answer == Answer::Replied(rating::create_review_reply(input)),
        Command::UpdateReview => answer == Answer::Replied(rating::update_review_reply(input)),
        Command::DeleteReview => answer == Answer::Replied(rating::delete_review_reply(input)),
        Command::ListReviewsByEntry => answer == Answer::Replied(unavailable()),
        Command::AdminListUsers => answer == Answer::Replied(
            admin::admin_reply(config, input, "List of users"@),
        ),
        Command::AdminListEntries => answer == Answer::Replied(
            admin::admin_reply(config, input, "List of entries"@),
        ),
        Command::AdminRemoveEntry => answer == Answer::Replied(
            admin::admin_reply(config, input, "Entry removed"@),
        ),
        Command::AdminBanUser => answer == Answer::Replied(
            admin::admin_reply(config, input, "User banned"@),
        ),
        Command::AdminStats => answer == Answer::Replied(
            admin::admin_reply(config, input, "Stats"@),
        ),
        Command::AdminSetupDailyRandom => answer == Answer::Replied(unavailable()),
        Command::AdminSetupDailyHottest => answer == Answer::Replied(unavailable()),
        Command::ListEntries => answer == Answer::Replied(unavailable()),
        Command::SearchEntries => answer == Answer::Replied(unavailable()),
        Command::GetEntry => answer == Answer::Replied(unavailable()),
        Command::ListEntriesByCreator => answer == Answer::Replied(unavailable()),
        Command::ListCategories => answer == Answer::Replied(unavailable()),
        Command::ListNewEntries => answer == Answer::Replied(unavailable()),
        Command::ListPopularEntries => answer == Answer::Replied(unavailable()),
        Command::ListBestRatedEntries => answer == Answer::Replied(unavailable()),
        Command::ListRandomEntries => answer matches Answer::Replied(reply)
            && content::list_random_entries_permits(input, reply),
        Command::StripeWebhook => answer == money::stripe_webhook_answer(config, input),
    }
}

/// Runs one command on `input`.
pub fn run(command: Command, config: &Config, input: Value) -> (r: Outcome)
    ensures
        permits(command, *config, input, r@),
        r@ matches Answer::Replied(reply) ==> exclusive(reply),
{
    match command {
        Command::RegisterUser => Outcome::Replied(accounts::register_user(input)),
        Command::GetUserProfile => Outcome::Replied(accounts::get_user_profile(input)),
        Command::UpdateUserProfile => Outcome::Replied(accounts::update_user_profile(input)),
        Command::DeleteUserProfile => Outcome::Replied(accounts::delete_user_profile(input)),
        Command::StartSubscription => Outcome::Replied(accounts::start_subscription(input)),
        Command::CancelSubscription => Outcome::Replied(accounts::cancel_subscription(input)),
        Command::GetSubscriptionStatus => Outcome::Replied(accounts::get_subscription_status(input)),
        Command::Login => Outcome::Replied(accounts::login(input)),
        Command::AddToCart => Outcome::Replied(cart::add_to_cart(input)),
        Command::RemoveFromCart => Outcome::Replied(cart::remove_from_cart(input)),
        Command::ViewCart => Outcome::Replied(cart::view_cart(input)),
        Command::DownloadCart => Outcome::Replied(cart::download_cart(input)),
        Command::CreateEntry => Outcome::Replied(publishing::create_entry(input)),
        Command::UpdateEntry => Outcome::Replied(publishing::update_entry(input)),
        Command::DeleteEntry => Outcome::Replied(publishing::delete_entry(input)),
        Command::GetCreatorDashboard => Outcome::Replied(publishing::get_creator_dashboard(input)),
        Command::CreateReview => Outcome::Replied(rating::create_review(input)),
        Command::UpdateReview => Outcome::Replied(rating::update_review(input)),
        Command::DeleteReview => Outcome::Replied(rating::delete_review(input)),
        Command::ListReviewsByEntry => Outcome::Replied(rating::list_reviews_by_entry(input)),
        Command::AdminListUsers => Outcome::Replied(admin::admin_list_users(config, input)),
        Command::AdminListEntries => Outcome::Replied(admin::admin_list_entries(config, input)),
        Command::AdminRemoveEntry => Outcome::Replied(admin::admin_remove_entry(config, input)),
        Command::AdminBanUser => Outcome::Replied(admin::admin_ban_user(config, input)),
        Command::AdminStats => Outcome::Replied(admin::admin_stats(config, input)),
        Command::AdminSetupDailyRandom => Outcome::Replied(admin::admin_setup_daily_random(input)),
        Command::AdminSetupDailyHottest => Outcome::Replied(admin::admin_setup_daily_hottest(input)),
        Command::ListEntries => Outcome::Replied(content::list_entries(input)),
        Command::SearchEntries => Outcome::Replied(content::search_entries(input)),
        Command::GetEntry => Outcome::Replied(content::get_entry(input)),
        Command::ListEntriesByCreator => Outcome::Replied(content::list_entries_by_creator(input)),
        Command::ListCategories => Outcome::Replied(content::list_categories(input)),
        Command::ListNewEntries => Outcome::Replied(content::list_new_entries(input)),
        Command::ListPopularEntries => Outcome::Replied(content::list_popular_entries(input)),
        Command::ListBestRatedEntries => Outcome::Replied(content::list_best_rated_entries(input)),
        Command::ListRandomEntries => Outcome::Replied(content::list_random_entries(input)),
        Command::StripeWebhook => money::stripe_webhook(config, input),
    }
}

/// The error for a name under which nothing is registered.
pub open spec fn not_found(name: Seq<char>) -> Seq<char> {
    "Function '"@ + name + "' not found"@
}

/// What `dispatch` may come to for `name` and `input` with the commands of
/// `table`: what the command under `name` may come to or, without one, the
/// error that says so.
pub open spec fn dispatched(
    table: Seq<(Seq<char>, Command)>,
    config: Config,
    name: Seq<char>,
    input: Value,
    answer: Answer,
) -> bool {
    match resolve(table, name) {
        Some(command) => permits(command, config, input, answer),
        None => answer == Answer::Replied(failed(not_found(name))),
    }
}

/// Runs the command registered under `function_name` on `input`. A reply
/// holds either a result or an error, whatever the name and the input are.
pub fn dispatch(registry: &Registry, config: &Config, function_name: &str, input: Value) -> (r:
    Outcome)
    ensures
        dispatched(registry@, *config, function_name@, input, r@),
        r@ matches Answer::Replied(reply) ==> exclusive(reply),
        distinct_names(registry@),
{
    match registry.lookup(function_name) {
        Some(command) => run(command, config, input),
        None => {
            let mut text = String::from_str("Function '");
            text.append(function_name);
            text.append("' not found");
            Outcome::Replied(failure(text))
        },
    }
}

} // verus!
