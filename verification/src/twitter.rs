//! The social stream watcher: its subscription list and its stream filter.

use vstd::prelude::*;
use crate::command::{
    Command, CommandView, DiscordCommand, DiscordCommandView, TwitterCommand, TwitterCommandView,
};
use crate::model::{view_of, views};

verus! {

/// Credentials and watch list of the social stream watcher.
#[derive(Debug, PartialEq, Eq)]
pub struct TwitterConfig {
    pub consumer_key: String,
    pub consumer_secret: String,
    pub user_access_key: String,
    pub user_access_secret: String,
    pub subscriptions: Vec<String>,
}

/// The author of a post, as far as the relay reads it.
#[derive(Debug, PartialEq, Eq)]
pub struct TwitterUser {
    pub id: u64,
    pub screen_name: String,
    pub name: String,
    pub profile_image_url: String,
}

/// A post, as far as the relay reads it.
#[derive(Debug, PartialEq, Eq)]
pub struct Tweet {
    pub id: u64,
    pub text: String,
    pub user: Option<TwitterUser>,
}

/// What a `TwitterConfig` says.
#[verifier::ext_equal]
pub struct TwitterConfigView {
    pub consumer_key: Seq<char>,
    pub consumer_secret: Seq<char>,
    pub user_access_key: Seq<char>,
    pub user_access_secret: Seq<char>,
    pub subscriptions: Seq<Seq<char>>,
}

/// What a `TwitterUser` says.
#[verifier::ext_equal]
pub struct TwitterUserView {
    pub id: u64,
    pub screen_name: Seq<char>,
    pub name: Seq<char>,
    pub profile_image_url: Seq<char>,
}

/// What a `Tweet` says.
#[verifier::ext_equal]
pub struct TweetView {
    pub id: u64,
    pub text: Seq<char>,
    pub user: Option<TwitterUserView>,
}

impl View for TwitterConfig {
    type V = TwitterConfigView;

    open spec fn view(&self) -> TwitterConfigView {
        TwitterConfigView {
            consumer_key: self.consumer_key@,
            consumer_secret: self.consumer_secret@,
            user_access_key: self.user_access_key@,
            user_access_secret: self.user_access_secret@,
            subscriptions: views(self.subscriptions@),
        }
    }
}

impl View for TwitterUser {
    type V = TwitterUserView;

    open spec fn view(&self) -> TwitterUserView {
        TwitterUserView {
            id: self.id,
            screen_name: self.screen_name@,
            name: self.name@,
            profile_image_url: self.profile_image_url@,
        }
    }
}

impl View for Tweet {
    type V = TweetView;

    open spec fn view(&self) -> TweetView {
        TweetView { id: self.id, text: self.text@, user: view_of(self.user) }
    }
}

/// One message of the social stream, as far as the relay reads it.
#[derive(Debug, PartialEq, Eq)]
pub enum StreamMessage {
    /// A new post.
    Tweet(Tweet),
    /// Anything else the stream sends: keep-alives, deletions, notices.
    Other,
}

/// What a `StreamMessage` says.
#[verifier::ext_equal]
pub enum StreamMessageView {
    Tweet(TweetView),
    Other,
}

impl View for StreamMessage {
    type V = StreamMessageView;

    open spec fn view(&self) -> StreamMessageView {
        match self {
            StreamMessage::Tweet(tweet) => StreamMessageView::Tweet(tweet@),
            StreamMessage::Other => StreamMessageView::Other,
        }
    }
}

/// What looking up the account of one handle brought.
#[derive(Debug, PartialEq, Eq, Clone, Copy)]
pub enum Lookup {
    /// The account exists and has this identifier.
    Found(u64),
    /// No account answers to the handle.
    Unknown,
    /// The lookup itself failed.
    Failed,
}

/// The list after a request to add `handle`: unchanged when the handle is on
/// it, else longer by that handle. Handles are the same when their
/// characters are.
pub open spec fn subscribe(subscriptions: Seq<Seq<char>>, handle: Seq<char>) -> Seq<Seq<char>> {
    if subscriptions.contains(handle) {
        subscriptions
    } else {
        subscriptions.push(handle)
    }
}

/// The watcher's configuration after one command.
pub open spec fn handled(config: TwitterConfigView, command: TwitterCommandView) -> TwitterConfigView {
    match command {
        TwitterCommandView::AddTwitterSubscription(handle) => TwitterConfigView {
            subscriptions: subscribe(config.subscriptions, handle),
            ..config
        },
    }
}

/// The identifier a lookup found, if it found one.
pub open spec fn found_id(lookup: Lookup) -> Option<u64> {
    match lookup {
        Lookup::Found(id) => Some(id),
        _ => None,
    }
}

/// The command that a stream message gives rise to when the accounts with
/// identifiers `ids` are watched: a post by a watched author is forwarded to
/// the notification sink, everything else is dropped.
pub open spec fn forwarded(ids: Seq<u64>, message: StreamMessageView) -> Option<CommandView> {
    match message {
        StreamMessageView::Tweet(tweet) => match tweet.user {
            Some(author) => if ids.contains(author.id) {
                Some(CommandView::Discord(DiscordCommandView::SendTweet(tweet)))
            } else {
                None
            },
            None => None,
        },
        StreamMessageView::Other => None,
    }
}

impl TwitterConfig {
    /// Whether `handle` is on the subscription list.
    pub fn is_subscribed(&self, handle: &String) -> (found: bool)
        ensures
            found == self@.subscriptions.contains(handle@),
    {
        let mut i: usize = 0;
        while i < self.subscriptions.len()
            invariant
                i <= self.subscriptions.len(),
                forall|j: int| 0 <= j < i ==> self@.subscriptions[j] != handle@,
            decreases self.subscriptions.len() - i,
        {
            if self.subscriptions[i] == *handle {
                assert(self@.subscriptions[i as int] == handle@);
                return true;
            }
            i += 1;
        }
        false
    }

    /// Adds `handle` to the subscription list unless it is already on it.
    /// Returns whether the list changed, so that the caller knows when to
    /// persist the configuration.
    pub fn add_subscription(&mut self, handle: String) -> (added: bool)
        ensures
            final(self)@ == (TwitterConfigView {
                subscriptions: subscribe(old(self)@.subscriptions, handle@),
                ..old(self)@
            }),
            added == !old(self)@.subscriptions.contains(handle@),
    {
        if self.is_subscribed(&handle) {
            false
        } else {
            self.subscriptions.push(handle);
            true
        }
    }

    /// Carries out one command sent to the watcher. Returns whether the
    /// configuration changed.
    pub fn handle_command(&mut self, command: TwitterCommand) -> (changed: bool)
        ensures
            final(self)@ == handled(old(self)@, command@),
            changed == (final(self)@ != old(self)@),
    {
        match command {
            TwitterCommand::AddTwitterSubscription(handle) => {
                let added = self.add_subscription(handle);
                assert(added ==> self@.subscriptions.len() != old(self)@.subscriptions.len());
                added
            },
        }
    }
}

/// Collects the identifiers of the accounts that were found, in the order of
/// the lookups. Handles that are unknown or whose lookup failed are left out.
pub fn resolved_ids(lookups: &[Lookup]) -> (ids: Vec<u64>)
    ensures
        ids@ == lookups@.filter_map(|lookup: Lookup| found_id(lookup)),
{
    let mut ids: Vec<u64> = Vec::new();
    let mut i: usize = 0;
    while i < lookups.len()
        invariant
            i <= lookups.len(),
            ids@ == lookups@.take(i as int).filter_map(|lookup: Lookup| found_id(lookup)),
        decreases lookups.len() - i,
    {
        proof {
            assert(lookups@.take(i + 1).drop_last() =~= lookups@.take(i as int));
        }
        match lookups[i] {
            Lookup::Found(id) => {
                ids.push(id);
            },
            _ => {},
        }
        i += 1;
    }
    proof {
        assert(lookups@.take(lookups.len() as int) =~= lookups@);
    }
    ids
}

/// Whether `id` is among `ids`.
fn is_watched(ids: &[u64], id: u64) -> (found: bool)
    ensures
        found == ids@.contains(id),
{
    let mut i: usize = 0;
    while i < ids.len()
        invariant
            i <= ids.len(),
            forall|j: int| 0 <= j < i ==> ids@[j] != id,
        decreases ids.len() - i,
    {
        if ids[i] == id {
            return true;
        }
        i += 1;
    }
    false
}

/// Decides what to do with one message of the stream: a post whose author is
/// among the watched accounts becomes a command for the notification sink.
///
/// The identifiers are those that the handles were resolved to when the
/// stream was opened: a subscription added since then is not among them.
pub fn forward(ids: &[u64], message: StreamMessage) -> (command: Option<Command>)
    ensures
        view_of(command) == forwarded(ids@, message@),
{
    match message {
        StreamMessage::Tweet(tweet) => {
            let watched = match &tweet.user {
                Some(author) => is_watched(ids, author.id),
                None => false,
            };
            if watched {
                Some(Command::Discord(DiscordCommand::SendTweet(tweet)))
            } else {
                None
            }
        },
        StreamMessage::Other => None,
    }
}

/// Adding a handle is idempotent: a second request for the same handle
/// leaves the list as the first request made it.
pub proof fn subscribe_is_idempotent(subscriptions: Seq<Seq<char>>, handle: Seq<char>)
    ensures
        subscribe(subscribe(subscriptions, handle), handle) == subscribe(subscriptions, handle),
        subscribe(subscriptions, handle).contains(handle),
{
    if !subscriptions.contains(handle) {
        assert(subscriptions.push(handle)[subscriptions.len() as int] == handle);
    }
}

/// A list without repeated handles stays without them when a handle is
/// added.
pub proof fn subscribe_keeps_handles_distinct(subscriptions: Seq<Seq<char>>, handle: Seq<char>)
    requires
        subscriptions.no_duplicates(),
    ensures
        subscribe(subscriptions, handle).no_duplicates(),
{
}

/// A command carried out twice leaves the watcher's configuration as
/// carrying it out once does.
pub proof fn handled_is_idempotent(config: TwitterConfigView, command: TwitterCommandView)
    ensures
        handled(handled(config, command), command) == handled(config, command),
{
    match command {
        TwitterCommandView::AddTwitterSubscription(handle) => {
            subscribe_is_idempotent(config.subscriptions, handle);
        },
    }
}

} // verus!
