//! The typed messages that managers exchange over the bus.

use vstd::prelude::*;
use crate::gecko::{Market, MarketView, RuleResult, RuleResultView};
use crate::model::views;
use crate::twitter::{Tweet, TweetView};

verus! {

/// A message on the bus: the command of one manager, tagged with that manager.
#[derive(Debug, PartialEq, Eq)]
pub enum Command {
    Twitter(TwitterCommand),
    Discord(DiscordCommand),
    Coingecko(CoingeckoCommand),
}

/// What the social stream watcher can be asked to do.
#[derive(Debug, PartialEq, Eq)]
pub enum TwitterCommand {
    /// Start watching the account with this handle.
    AddTwitterSubscription(String),
}

/// What the notification sink can be asked to post.
#[derive(Debug, PartialEq, Eq)]
pub enum DiscordCommand {
    /// A post from a watched account.
    SendTweet(Tweet),
    /// The market poller has its first snapshot.
    SendCoingeckoStarted,
    /// One page of the listing of the first snapshot: these markets, in
    /// this order.
    SendCoingeckoBase(Vec<Market>),
    /// One rule that fired for one market.
    SendCoingeckoRuleResult(RuleResult),
}

/// The market poller accepts no commands. The single variant holds a value
/// of the empty type, so no command of this type can be built.
#[derive(Debug, PartialEq, Eq)]
pub enum CoingeckoCommand {
    Never(core::convert::Infallible),
}

/// What a `TwitterCommand` says.
#[verifier::ext_equal]
pub enum TwitterCommandView {
    AddTwitterSubscription(Seq<char>),
}

/// What a `DiscordCommand` says.
#[verifier::ext_equal]
pub enum DiscordCommandView {
    SendTweet(TweetView),
    SendCoingeckoStarted,
    SendCoingeckoBase(Seq<MarketView>),
    SendCoingeckoRuleResult(RuleResultView),
}

/// What a `Command` says.
#[verifier::ext_equal]
pub enum CommandView {
    Twitter(TwitterCommandView),
    Discord(DiscordCommandView),
    Coingecko(CoingeckoCommand),
}

impl View for TwitterCommand {
    type V = TwitterCommandView;

    open spec fn view(&self) -> TwitterCommandView {
        match self {
            TwitterCommand::AddTwitterSubscription(handle) => {
                TwitterCommandView::AddTwitterSubscription(handle@)
            },
        }
    }
}

impl View for DiscordCommand {
    type V = DiscordCommandView;

    open spec fn view(&self) -> DiscordCommandView {
        match self {
            DiscordCommand::SendTweet(tweet) => DiscordCommandView::SendTweet(tweet@),
            DiscordCommand::SendCoingeckoStarted => DiscordCommandView::SendCoingeckoStarted,
            DiscordCommand::SendCoingeckoBase(markets) => DiscordCommandView::SendCoingeckoBase(
                views(markets@),
            ),
            DiscordCommand::SendCoingeckoRuleResult(result) => {
                DiscordCommandView::SendCoingeckoRuleResult(result@)
            },
        }
    }
}

impl View for Command {
    type V = CommandView;

    open spec fn view(&self) -> CommandView {
        match self {
            Command::Twitter(command) => CommandView::Twitter(command@),
            Command::Discord(command) => CommandView::Discord(command@),
            Command::Coingecko(command) => CommandView::Coingecko(*command),
        }
    }
}

} // verus!
