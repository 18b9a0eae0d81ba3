//! The command bus: it takes the tag off a command and hands the payload to
//! the inbox of the manager that the tag names.

use vstd::prelude::*;
use crate::command::{
    CoingeckoCommand, Command, CommandView, DiscordCommand, DiscordCommandView, TwitterCommand,
    TwitterCommandView,
};

verus! {

/// A payload on its way to the inbox of one manager.
#[derive(Debug, PartialEq, Eq)]
pub enum Delivery {
    Twitter(TwitterCommand),
    Discord(DiscordCommand),
    Coingecko(CoingeckoCommand),
}

/// What a `Delivery` says.
#[verifier::ext_equal]
pub enum DeliveryView {
    Twitter(TwitterCommandView),
    Discord(DiscordCommandView),
    Coingecko(CoingeckoCommand),
}

impl View for Delivery {
    type V = DeliveryView;

    open spec fn view(&self) -> DeliveryView {
        match self {
            Delivery::Twitter(payload) => DeliveryView::Twitter(payload@),
            Delivery::Discord(payload) => DeliveryView::Discord(payload@),
            Delivery::Coingecko(payload) => DeliveryView::Coingecko(*payload),
        }
    }
}

/// The delivery that a command calls for.
pub open spec fn routed(command: CommandView) -> DeliveryView {
    match command {
        CommandView::Twitter(payload) => DeliveryView::Twitter(payload),
        CommandView::Discord(payload) => DeliveryView::Discord(payload),
        CommandView::Coingecko(payload) => DeliveryView::Coingecko(payload),
    }
}

/// Routes one command: the outer tag picks the inbox, the payload is handed
/// on as it is.
pub fn route(command: Command) -> (delivery: Delivery)
    ensures
        delivery@ == routed(command@),
{
    match command {
        Command::Twitter(payload) => Delivery::Twitter(payload),
        Command::Discord(payload) => Delivery::Discord(payload),
        Command::Coingecko(payload) => Delivery::Coingecko(payload),
    }
}

/// What the three inboxes have received, each in order of arrival.
#[verifier::ext_equal]
pub struct Inboxes {
    pub twitter: Seq<TwitterCommandView>,
    pub discord: Seq<DiscordCommandView>,
    pub coingecko: Seq<CoingeckoCommand>,
}

/// The inboxes after the bus has tried to deliver `command`. An inbox that
/// accepts the payload holds it last; one that is full or closed does not,
/// and the payload is dropped. The other inboxes are untouched.
pub open spec fn deliver(inboxes: Inboxes, command: CommandView, accepted: bool) -> Inboxes {
    if !accepted {
        inboxes
    } else {
        match routed(command) {
            DeliveryView::Twitter(payload) => Inboxes {
                twitter: inboxes.twitter.push(payload),
                ..inboxes
            },
            DeliveryView::Discord(payload) => Inboxes {
                discord: inboxes.discord.push(payload),
                ..inboxes
            },
            DeliveryView::Coingecko(payload) => Inboxes {
                coingecko: inboxes.coingecko.push(payload),
                ..inboxes
            },
        }
    }
}

/// Routing depends on the command alone: a command routed twice, and
/// accepted both times, arrives twice in the same inbox, the two payloads
/// equal and one after the other, and nothing arrives anywhere else.
pub proof fn routing_twice_delivers_twice(inboxes: Inboxes, command: CommandView)
    ensures
        ({
            let after = deliver(deliver(inboxes, command, true), command, true);
            match command {
                CommandView::Twitter(payload) => {
                    &&& after.twitter == inboxes.twitter + seq![payload, payload]
                    &&& after.discord == inboxes.discord
                    &&& after.coingecko == inboxes.coingecko
                },
                CommandView::Discord(payload) => {
                    &&& after.twitter == inboxes.twitter
                    &&& after.discord == inboxes.discord + seq![payload, payload]
                    &&& after.coingecko == inboxes.coingecko
                },
                CommandView::Coingecko(payload) => {
                    &&& after.twitter == inboxes.twitter
                    &&& after.discord == inboxes.discord
                    &&& after.coingecko == inboxes.coingecko + seq![payload, payload]
                },
            }
        }),
{
    match command {
        CommandView::Twitter(payload) => {
        },
        CommandView::Discord(payload) => {
        },
        CommandView::Coingecko(payload) => {
        },
    }
}

/// A command that its inbox does not accept changes no inbox.
pub proof fn refused_command_is_dropped(inboxes: Inboxes, command: CommandView)
    ensures
        deliver(inboxes, command, false) == inboxes,
{
}

} // verus!
