//! The notification sink: what it posts for each command it receives.

use vstd::prelude::*;
use crate::command::{
    Command, CommandView, DiscordCommand, DiscordCommandView, TwitterCommand, TwitterCommandView,
};
use crate::gecko::{MarketView, RuleResult, RuleResultView, PERCENT_UNIT};
use crate::listing::{page_content, render_page};
use crate::model::{view_of, views};
use crate::text::{
    decimal, decimal_text, percent_text, signed_decimal, signed_decimal_text, signed_fixed_point,
};
use crate::twitter::{Tweet, TweetView, TwitterUser};

verus! {

/// Where the notification sink posts, and with which token.
#[derive(Debug, PartialEq, Eq)]
pub struct DiscordConfig {
    pub channel_id: u64,
    pub token: String,
}

/// The state of the sink's connection handler: whether its periodic
/// background work has been started.
#[derive(Debug, PartialEq, Eq)]
pub struct Handler {
    is_acc_loop_running: bool,
}

impl Handler {
    /// Whether the background work has been started.
    pub closed spec fn loop_running(&self) -> bool {
        self.is_acc_loop_running
    }

    /// Whether the background work has been started.
    pub fn is_loop_running(&self) -> (running: bool)
        ensures
            running == self.loop_running(),
    {
        self.is_acc_loop_running
    }

    /// A handler whose background work has not been started.
    pub fn new() -> (handler: Handler)
        ensures
            !handler.loop_running(),
    {
        Handler { is_acc_loop_running: false }
    }

    /// Takes note that the connection's cache is ready. Returns whether the
    /// caller is to start the background work now: it is the first time this
    /// is called, and never again.
    pub fn cache_ready(&mut self) -> (start: bool)
        ensures
            start == !old(self).loop_running(),
            final(self).loop_running(),
    {
        let start = !self.is_acc_loop_running;
        self.is_acc_loop_running = true;
        start
    }

    /// The line that announces that the connection is up.
    pub fn ready(&self, user_name: &str) -> (line: String)
        ensures
            line@ == user_name@ + " is connected!"@,
    {
        let mut line = String::from_str(user_name);
        line.append(" is connected!");
        line
    }
}

/// A picture by its address and its size in pixels.
#[derive(Debug, PartialEq, Eq)]
pub struct Image {
    pub url: String,
    pub height: u32,
    pub width: u32,
}

/// Where a card comes from.
#[derive(Debug, PartialEq, Eq)]
pub struct Provider {
    pub url: String,
    pub name: String,
}

/// A linked card with a title and a description, and with a picture or a
/// provider where it has one.
#[derive(Debug, PartialEq, Eq)]
pub struct Card {
    pub url: String,
    pub title: String,
    pub description: String,
    pub image: Option<Image>,
    pub provider: Option<Provider>,
}

/// The rich part of a chat message: a card, and inside it a second card
/// where it has one.
#[derive(Debug, PartialEq, Eq)]
pub struct Embed {
    pub card: Card,
    pub embed: Option<Card>,
}

/// One message for the chat channel.
#[derive(Debug, PartialEq, Eq)]
pub struct ChatMessage {
    pub content: String,
    pub embed: Option<Embed>,
}

/// What an `Image` says.
#[verifier::ext_equal]
pub struct ImageView {
    pub url: Seq<char>,
    pub height: u32,
    pub width: u32,
}

/// What a `Provider` says.
#[verifier::ext_equal]
pub struct ProviderView {
    pub url: Seq<char>,
    pub name: Seq<char>,
}

/// What a `Card` says.
#[verifier::ext_equal]
pub struct CardView {
    pub url: Seq<char>,
    pub title: Seq<char>,
    pub description: Seq<char>,
    pub image: Option<ImageView>,
    pub provider: Option<ProviderView>,
}

/// What an `Embed` says.
#[verifier::ext_equal]
pub struct EmbedView {
    pub card: CardView,
    pub embed: Option<CardView>,
}

/// What a `ChatMessage` says.
#[verifier::ext_equal]
pub struct ChatMessageView {
    pub content: Seq<char>,
    pub embed: Option<EmbedView>,
}

impl View for Image {
    type V = ImageView;

    open spec fn view(&self) -> ImageView {
        ImageView { url: self.url@, height: self.height, width: self.width }
    }
}

impl View for Provider {
    type V = ProviderView;

    open spec fn view(&self) -> ProviderView {
        ProviderView { url: self.url@, name: self.name@ }
    }
}

impl View for Card {
    type V = CardView;

    open spec fn view(&self) -> CardView {
        CardView {
            url: self.url@,
            title: self.title@,
            description: self.description@,
            image: view_of(self.image),
            provider: view_of(self.provider),
        }
    }
}

impl View for Embed {
    type V = EmbedView;

    open spec fn view(&self) -> EmbedView {
        EmbedView { card: self.card@, embed: view_of(self.embed) }
    }
}

impl View for ChatMessage {
    type V = ChatMessageView;

    open spec fn view(&self) -> ChatMessageView {
        ChatMessageView { content: self.content@, embed: view_of(self.embed) }
    }
}

/// The side of the picture shown with a post, in pixels.
pub const TWEET_IMAGE_SIZE: u32 = 200;

/// The side of the picture shown with a rule result, in pixels.
pub const MARKET_IMAGE_SIZE: u32 = 150;

/// The address of a post.
pub open spec fn tweet_url(screen_name: Seq<char>, id: u64) -> Seq<char> {
    "https://twitter.com/"@ + screen_name + "/status/"@ + decimal(id as nat)
}

/// The card of a post: the address of the post, the author's name, the text
/// of the post, and the post as its own provider.
pub open spec fn tweet_card(tweet: TweetView, image: Option<ImageView>) -> CardView
    recommends
        tweet.user is Some,
{
    let author = tweet.user->0;
    CardView {
        url: tweet_url(author.screen_name, tweet.id),
        title: author.name,
        description: tweet.text,
        image,
        provider: Some(
            ProviderView { url: tweet_url(author.screen_name, tweet.id), name: "test"@ },
        ),
    }
}

/// The message for a post: its address as text, and its card, which holds
/// the same card once more with the author's picture. A post without an
/// author has no message.
pub open spec fn tweet_message(tweet: TweetView) -> Option<ChatMessageView> {
    match tweet.user {
        Some(author) => Some(
            ChatMessageView {
                content: tweet_url(author.screen_name, tweet.id),
                embed: Some(
                    EmbedView {
                        card: tweet_card(tweet, None),
                        embed: Some(
                            tweet_card(
                                tweet,
                                Some(
                                    ImageView {
                                        url: author.profile_image_url,
                                        height: TWEET_IMAGE_SIZE,
                                        width: TWEET_IMAGE_SIZE,
                                    },
                                ),
                            ),
                        ),
                    },
                ),
            },
        ),
        None => None,
    }
}

/// The sentence that reports a price change of `pct` basis points.
pub open spec fn percent_description(rising: bool, pct: int) -> Seq<char> {
    "This crypto "@ + (if rising {
        "has risen by"@
    } else {
        "has declined by"@
    }) + " "@ + signed_fixed_point(pct, PERCENT_UNIT as nat) + "%"@
}

/// The sentence that reports a gain of `ranks` ranks that led to `rank`.
pub open spec fn rank_description(rising: bool, ranks: int, rank: u32) -> Seq<char> {
    (if rising {
        "has risen"@
    } else {
        "has declined"@
    }) + " "@ + signed_decimal(ranks) + " ranks to the rank of "@ + decimal(rank as nat)
}

/// The message that every rule result shows for its market: no text, and a
/// card with the market's identifier, the given sentence and the market's
/// picture.
pub open spec fn market_card(market: MarketView, description: Seq<char>) -> ChatMessageView {
    ChatMessageView {
        content: Seq::empty(),
        embed: Some(
            EmbedView {
                card: CardView {
                    url: "https://coingecko.com"@,
                    title: market.id,
                    description,
                    image: Some(
                        ImageView {
                            url: market.image,
                            height: MARKET_IMAGE_SIZE,
                            width: MARKET_IMAGE_SIZE,
                        },
                    ),
                    provider: None,
                },
                embed: None,
            },
        ),
    }
}

/// The message for a rule result.
pub open spec fn rule_result_message(result: RuleResultView) -> ChatMessageView {
    match result {
        RuleResultView::Percent(rising, market, pct) => market_card(
            market,
            percent_description(rising, pct as int),
        ),
        RuleResultView::Rank(rising, market, ranks) => market_card(
            market,
            rank_description(rising, ranks as int, market.market_cap_rank),
        ),
    }
}

/// A message that is text only.
pub open spec fn text_message(content: Seq<char>) -> ChatMessageView {
    ChatMessageView { content, embed: None }
}

/// What the sink posts for a command: one message, or none for a post
/// without an author.
pub open spec fn rendered(command: DiscordCommandView) -> Option<ChatMessageView> {
    match command {
        DiscordCommandView::SendTweet(tweet) => tweet_message(tweet),
        DiscordCommandView::SendCoingeckoStarted => Some(
            text_message("```css\n - [Coingecko Bot Started!] Sending top 50 coins.. ```"@),
        ),
        DiscordCommandView::SendCoingeckoBase(markets) => Some(
            text_message(page_content(markets)),
        ),
        DiscordCommandView::SendCoingeckoRuleResult(result) => Some(rule_result_message(result)),
    }
}

/// Writes the address of a post.
fn render_tweet_url(screen_name: &String, id: u64) -> (url: String)
    ensures
        url@ == tweet_url(screen_name@, id),
{
    let mut url = String::from_str("https://twitter.com/");
    url.append(screen_name.as_str());
    url.append("/status/");
    url.append(decimal_text(id as u128).as_str());
    url
}

/// Writes the card of a post by the given author.
fn render_tweet_card(tweet: &Tweet, author: &TwitterUser, image: Option<Image>) -> (card: Card)
    requires
        tweet@.user == Some(author@),
    ensures
        card@ == tweet_card(tweet@, view_of(image)),
{
    Card {
        url: render_tweet_url(&author.screen_name, tweet.id),
        title: author.name.clone(),
        description: tweet.text.clone(),
        image,
        provider: Some(
            Provider {
                url: render_tweet_url(&author.screen_name, tweet.id),
                name: String::from_str("test"),
            },
        ),
    }
}

/// Writes the message for a post, if the post has an author.
pub fn render_tweet(tweet: &Tweet) -> (message: Option<ChatMessage>)
    ensures
        view_of(message) == tweet_message(tweet@),
{
    match &tweet.user {
        Some(author) => {
            let picture = Image {
                url: author.profile_image_url.clone(),
                height: TWEET_IMAGE_SIZE,
                width: TWEET_IMAGE_SIZE,
            };
            Some(
                ChatMessage {
                    content: render_tweet_url(&author.screen_name, tweet.id),
                    embed: Some(
                        Embed {
                            card: render_tweet_card(tweet, author, None),
                            embed: Some(render_tweet_card(tweet, author, Some(picture))),
                        },
                    ),
                },
            )
        },
        None => None,
    }
}

/// Writes the message for a rule result.
pub fn render_rule_result(result: &RuleResult) -> (message: ChatMessage)
    ensures
        message@ == rule_result_message(result@),
{
    let (market, description) = match result {
        RuleResult::Percent(rising, market, pct) => {
            let mut description = String::from_str("This crypto ");
            if *rising {
                description.append("has risen by");
            } else {
                description.append("has declined by");
            }
            description.append(" ");
            description.append(percent_text(*pct).as_str());
            description.append("%");
            (market, description)
        },
        RuleResult::Rank(rising, market, ranks) => {
            let mut description = if *rising {
                String::from_str("has risen")
            } else {
                String::from_str("has declined")
            };
            description.append(" ");
            description.append(signed_decimal_text(*ranks as i128).as_str());
            description.append(" ranks to the rank of ");
            description.append(decimal_text(market.market_cap_rank as u128).as_str());
            (market, description)
        },
    };
    ChatMessage {
        content: String::new(),
        embed: Some(
            Embed {
                card: Card {
                    url: String::from_str("https://coingecko.com"),
                    title: market.id.clone(),
                    description,
                    image: Some(
                        Image {
                            url: market.image.clone(),
                            height: MARKET_IMAGE_SIZE,
                            width: MARKET_IMAGE_SIZE,
                        },
                    ),
                    provider: None,
                },
                embed: None,
            },
        ),
    }
}

/// Writes what the sink posts for a command: one message at most.
pub fn render(command: &DiscordCommand) -> (message: Option<ChatMessage>)
    ensures
        view_of(message) == rendered(command@),
{
    match command {
        DiscordCommand::SendTweet(tweet) => render_tweet(tweet),
        DiscordCommand::SendCoingeckoStarted => Some(
            ChatMessage {
                content: String::from_str(
                    "```css\n - [Coingecko Bot Started!] Sending top 50 coins.. ```",
                ),
                embed: None,
            },
        ),
        DiscordCommand::SendCoingeckoBase(markets) => Some(
            ChatMessage { content: render_page(markets.as_slice()), embed: None },
        ),
        DiscordCommand::SendCoingeckoRuleResult(result) => Some(render_rule_result(result)),
    }
}

/// One thing the sink does in answer to a chat command.
#[derive(Debug, PartialEq, Eq)]
pub enum ChatAction {
    /// Answer the user's message with this text.
    Reply(String),
    /// Mark the user's message with this emoji.
    React(String),
    /// Put this command on the bus.
    Emit(Command),
}

/// Why a chat command was not carried out.
#[derive(Debug, PartialEq, Eq, Clone, Copy)]
pub enum ChatError {
    /// The command came without the handle to subscribe to.
    NoTwitterHandle,
}

/// What the sink does in answer to a chat command, in order, and how the
/// command ends.
#[derive(Debug, PartialEq, Eq)]
pub struct ChatPlan {
    pub actions: Vec<ChatAction>,
    pub outcome: Result<(), ChatError>,
}

/// What a `ChatAction` says, text as sequences of characters.
#[verifier::ext_equal]
pub enum ChatActionView {
    Reply(Seq<char>),
    React(Seq<char>),
    Emit(CommandView),
}

impl View for ChatAction {
    type V = ChatActionView;

    open spec fn view(&self) -> ChatActionView {
        match self {
            ChatAction::Reply(text) => ChatActionView::Reply(text@),
            ChatAction::React(emoji) => ChatActionView::React(emoji@),
            ChatAction::Emit(command) => ChatActionView::Emit(command@),
        }
    }
}

/// The answer to a request to subscribe. With a handle, the request is
/// acknowledged twice and a command for the watcher is put on the bus; the
/// handle is the first argument, further arguments are ignored. Without
/// one, the user is told so and the command fails.
pub open spec fn subscription_plan(args: Seq<Seq<char>>) -> (
    Seq<ChatActionView>,
    Result<(), ChatError>,
) {
    if args.len() == 0 {
        (
            seq![ChatActionView::Reply("You need to provide a twitter handle."@)],
            Err(ChatError::NoTwitterHandle),
        )
    } else {
        (
            seq![
                ChatActionView::React("\u{2705}"@),
                ChatActionView::React("\u{1F445}"@),
                ChatActionView::Emit(
                    CommandView::Twitter(TwitterCommandView::AddTwitterSubscription(args[0])),
                ),
            ],
            Ok(()),
        )
    }
}

impl ChatError {
    /// The text of the error.
    pub fn message(&self) -> (text: String)
        ensures
            text@ == "No twitter handle provided"@,
    {
        match self {
            ChatError::NoTwitterHandle => String::from_str("No twitter handle provided"),
        }
    }
}

/// Plans the answer to the chat command that asks to watch another account.
pub fn add_subscription(args: Vec<String>) -> (plan: ChatPlan)
    ensures
        views(plan.actions@) == subscription_plan(views(args@)).0,
        plan.outcome == subscription_plan(views(args@)).1,
{
    let mut args = args;
    let mut actions: Vec<ChatAction> = Vec::new();
    if args.len() == 0 {
        actions.push(ChatAction::Reply(String::from_str("You need to provide a twitter handle.")));
        ChatPlan { actions, outcome: Err(ChatError::NoTwitterHandle) }
    } else {
        let twitter_handle = args.remove(0);
        actions.push(ChatAction::React(String::from_str("\u{2705}")));
        actions.push(ChatAction::React(String::from_str("\u{1F445}")));
        actions.push(
            ChatAction::Emit(Command::Twitter(TwitterCommand::AddTwitterSubscription(twitter_handle))),
        );
        ChatPlan { actions, outcome: Ok(()) }
    }
}

/// An account that the sink keeps track of, as far as the relay reads it.
#[derive(Debug, PartialEq, Eq)]
pub struct User {
    pub email: String,
    pub password: String,
    pub discord_registered: bool,
    pub discord_verified: bool,
}

/// What a `User` says.
#[verifier::ext_equal]
pub struct UserView {
    pub email: Seq<char>,
    pub password: Seq<char>,
    pub discord_registered: bool,
    pub discord_verified: bool,
}

impl View for User {
    type V = UserView;

    open spec fn view(&self) -> UserView {
        UserView {
            email: self.email@,
            password: self.password@,
            discord_registered: self.discord_registered,
            discord_verified: self.discord_verified,
        }
    }
}

impl Clone for User {
    fn clone(&self) -> (copy: Self)
        ensures
            copy@ == self@,
    {
        User {
            email: self.email.clone(),
            password: self.password.clone(),
            discord_registered: self.discord_registered,
            discord_verified: self.discord_verified,
        }
    }
}

/// What the chat command on accounts asks for.
#[derive(Debug, PartialEq, Eq)]
pub enum UserRequest {
    /// The command came without an argument.
    Missing,
    /// Show all accounts.
    List,
    /// Make a new account.
    New,
    /// Take note that the account with this e-mail is registered.
    Registered(String),
    /// `registered` came without an e-mail.
    RegisteredWithoutEmail,
    /// The first argument is none of the above.
    Unknown,
}

/// What a `UserRequest` says.
#[verifier::ext_equal]
pub enum UserRequestView {
    Missing,
    List,
    New,
    Registered(Seq<char>),
    RegisteredWithoutEmail,
    Unknown,
}

impl View for UserRequest {
    type V = UserRequestView;

    open spec fn view(&self) -> UserRequestView {
        match self {
            UserRequest::Missing => UserRequestView::Missing,
            UserRequest::List => UserRequestView::List,
            UserRequest::New => UserRequestView::New,
            UserRequest::Registered(email) => UserRequestView::Registered(email@),
            UserRequest::RegisteredWithoutEmail => UserRequestView::RegisteredWithoutEmail,
            UserRequest::Unknown => UserRequestView::Unknown,
        }
    }
}

/// The request that the arguments of the chat command on accounts make. The
/// first argument names the request; `registered` takes the second as the
/// e-mail; further arguments are ignored.
pub open spec fn user_request(args: Seq<Seq<char>>) -> UserRequestView {
    if args.len() == 0 {
        UserRequestView::Missing
    } else if args[0] == "list"@ {
        UserRequestView::List
    } else if args[0] == "new"@ {
        UserRequestView::New
    } else if args[0] == "registered"@ {
        if args.len() >= 2 {
            UserRequestView::Registered(args[1])
        } else {
            UserRequestView::RegisteredWithoutEmail
        }
    } else {
        UserRequestView::Unknown
    }
}

/// The first account with the given e-mail.
pub open spec fn first_with_email(users: Seq<UserView>, email: Seq<char>) -> Option<UserView>
    decreases users.len(),
{
    if users.len() == 0 {
        None
    } else if users.first().email == email {
        Some(users.first())
    } else {
        first_with_email(users.drop_first(), email)
    }
}

/// Whether an account still waits for its verification.
pub open spec fn is_pending(user: UserView) -> bool {
    !user.discord_verified
}

/// Reads the arguments of the chat command on accounts.
pub fn parse_user(args: &Vec<String>) -> (request: UserRequest)
    ensures
        request@ == user_request(views(args@)),
{
    if args.len() == 0 {
        return UserRequest::Missing;
    }
    let name = &args[0];
    if *name == String::from_str("list") {
        UserRequest::List
    } else if *name == String::from_str("new") {
        UserRequest::New
    } else if *name == String::from_str("registered") {
        if args.len() >= 2 {
            UserRequest::Registered(args[1].clone())
        } else {
            UserRequest::RegisteredWithoutEmail
        }
    } else {
        UserRequest::Unknown
    }
}

/// Finds the first account with the given e-mail and returns it marked as
/// registered, or nothing when no account has that e-mail.
pub fn mark_registered(users: &[User], email: &String) -> (marked: Option<User>)
    ensures
        view_of(marked) == match first_with_email(views(users@), email@) {
            Some(user) => Some(UserView { discord_registered: true, ..user }),
            None => None,
        },
{
    let mut i: usize = 0;
    proof {
        assert(views(users@).skip(0) =~= views(users@));
    }
    while i < users.len()
        invariant
            i <= users.len(),
            first_with_email(views(users@), email@) == first_with_email(
                views(users@).skip(i as int),
                email@,
            ),
        decreases users.len() - i,
    {
        if users[i].email == *email {
            let mut marked = users[i].clone();
            marked.discord_registered = true;
            return Some(marked);
        }
        proof {
            assert(views(users@).skip(i as int).drop_first() =~= views(users@).skip(i + 1));
        }
        i += 1;
    }
    None
}

/// Picks the accounts that still wait for their verification, in the order
/// given.
pub fn pending_verification(users: &[User]) -> (pending: Vec<User>)
    ensures
        views(pending@) == views(users@).filter(|user: UserView| is_pending(user)),
{
    let mut pending: Vec<User> = Vec::new();
    let mut i: usize = 0;
    proof {
        reveal(Seq::filter);
    }
    while i < users.len()
        invariant
            i <= users.len(),
            views(pending@) == views(users@).take(i as int).filter(
                |user: UserView| is_pending(user),
            ),
        decreases users.len() - i,
    {
        proof {
            reveal(Seq::filter);
            assert(views(users@).take(i + 1).drop_last() =~= views(users@).take(i as int));
        }
        if !users[i].discord_verified {
            pending.push(users[i].clone());
        }
        i += 1;
    }
    proof {
        assert(views(users@).take(users.len() as int) =~= views(users@));
    }
    pending
}

} // verus!
