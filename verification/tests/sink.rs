use notify_relay::command::{Command, DiscordCommand, TwitterCommand};
use notify_relay::discord::{
    add_subscription, render, render_rule_result, render_tweet, Card, ChatAction, ChatError,
    ChatMessage, ChatPlan, Embed, Handler, Image, Provider,
};
use notify_relay::gecko::{Market, RuleResult};
use notify_relay::listing::{render_market_line, render_page, sort_by_rank};
use notify_relay::twitter::{Tweet, TwitterUser};

fn coin(id: &str, rank: u32) -> Market {
    Market {
        id: String::from(id),
        name: String::from(id),
        image: format!("https://img.example/{}.png", id),
        current_price: 1_500_000_000_000,
        market_cap: 1_234_567,
        market_cap_rank: rank,
    }
}

fn text(content: &str) -> ChatMessage {
    ChatMessage { content: String::from(content), embed: None }
}

fn card(id: &str, description: &str) -> ChatMessage {
    ChatMessage {
        content: String::new(),
        embed: Some(Embed {
            card: Card {
                url: String::from("https://coingecko.com"),
                title: String::from(id),
                description: String::from(description),
                image: Some(Image {
                    url: format!("https://img.example/{}.png", id),
                    height: 150,
                    width: 150,
                }),
                provider: None,
            },
            embed: None,
        }),
    }
}

const HEADING: &str = "```css\n - [Coingecko Bot Started!] Sending top 50 coins.. ```";

#[test]
fn handler_starts_its_background_work_once() {
    let mut handler = Handler::new();
    assert!(!handler.is_loop_running());
    assert!(handler.cache_ready());
    assert!(handler.is_loop_running());
    assert!(!handler.cache_ready());
    assert!(!handler.cache_ready());
    assert!(handler.is_loop_running());
}

#[test]
fn handler_announces_the_connection() {
    assert_eq!(Handler::new().ready("relay"), "relay is connected!");
    assert_eq!(Handler::new().ready(""), " is connected!");
}

fn post() -> Tweet {
    Tweet {
        id: 1_400_000_000_000_000_001,
        text: String::from("gm"),
        user: Some(TwitterUser {
            id: 5,
            screen_name: String::from("Polkadot"),
            name: String::from("Polkadot Network"),
            profile_image_url: String::from("http://img.example/p.png"),
        }),
    }
}

fn post_card(image: Option<Image>) -> Card {
    let url = "https://twitter.com/Polkadot/status/1400000000000000001";
    Card {
        url: String::from(url),
        title: String::from("Polkadot Network"),
        description: String::from("gm"),
        image,
        provider: Some(Provider { url: String::from(url), name: String::from("test") }),
    }
}

fn post_message() -> ChatMessage {
    ChatMessage {
        content: String::from("https://twitter.com/Polkadot/status/1400000000000000001"),
        embed: Some(Embed {
            card: post_card(None),
            embed: Some(post_card(Some(Image {
                url: String::from("http://img.example/p.png"),
                height: 200,
                width: 200,
            }))),
        }),
    }
}

#[test]
fn tweet_becomes_a_card_with_its_address() {
    assert_eq!(render_tweet(&post()), Some(post_message()));
    assert_eq!(render(&DiscordCommand::SendTweet(post())), Some(post_message()));
}

#[test]
fn tweet_without_author_has_no_message() {
    let tweet = Tweet { id: 1, text: String::from("gm"), user: None };
    assert_eq!(render_tweet(&tweet), None);
    assert_eq!(render(&DiscordCommand::SendTweet(tweet)), None);
}

#[test]
fn percent_result_reports_the_change_in_percent() {
    assert_eq!(
        render_rule_result(&RuleResult::Percent(true, coin("dot", 3), 1500)),
        card("dot", "This crypto has risen by 15%")
    );
    assert_eq!(
        render_rule_result(&RuleResult::Percent(true, coin("dot", 3), 1234)),
        card("dot", "This crypto has risen by 12.34%")
    );
    assert_eq!(
        render_rule_result(&RuleResult::Percent(false, coin("dot", 3), -750)),
        card("dot", "This crypto has declined by -7.5%")
    );
    assert_eq!(
        render_rule_result(&RuleResult::Percent(false, coin("dot", 3), 0)),
        card("dot", "This crypto has declined by 0%")
    );
}

#[test]
fn rank_result_reports_the_ranks_and_the_new_rank() {
    assert_eq!(
        render_rule_result(&RuleResult::Rank(true, coin("ksm", 40), 10)),
        card("ksm", "has risen 10 ranks to the rank of 40")
    );
    assert_eq!(
        render_rule_result(&RuleResult::Rank(false, coin("ksm", 50), -10)),
        card("ksm", "has declined -10 ranks to the rank of 50")
    );
    assert_eq!(
        render(&DiscordCommand::SendCoingeckoRuleResult(RuleResult::Rank(true, coin("ksm", 0), 0))),
        Some(card("ksm", "has risen 0 ranks to the rank of 0"))
    );
}

#[test]
fn market_line_groups_the_capitalisation_by_thousands() {
    let mut market = coin("bitcoin", 1);
    market.current_price = 43_210_550_000_000_000;
    let line = |cap: u64, market: &mut Market| {
        market.market_cap = cap;
        render_market_line(market)
    };
    assert_eq!(
        line(0, &mut market),
        "[1] bitcoin [CURRENT_PRICE] $43210.55 [MARKET_CAP] $0"
    );
    assert_eq!(
        line(999, &mut market),
        "[1] bitcoin [CURRENT_PRICE] $43210.55 [MARKET_CAP] $999"
    );
    assert_eq!(
        line(1000, &mut market),
        "[1] bitcoin [CURRENT_PRICE] $43210.55 [MARKET_CAP] $1,000"
    );
    assert_eq!(
        line(1_002_003, &mut market),
        "[1] bitcoin [CURRENT_PRICE] $43210.55 [MARKET_CAP] $1,002,003"
    );
    assert_eq!(
        line(100_000, &mut market),
        "[1] bitcoin [CURRENT_PRICE] $43210.55 [MARKET_CAP] $100,000"
    );
    assert_eq!(
        line(u64::MAX, &mut market),
        "[1] bitcoin [CURRENT_PRICE] $43210.55 [MARKET_CAP] $18,446,744,073,709,551,615"
    );
}

#[test]
fn sort_by_rank_is_stable() {
    let markets = vec![coin("c", 3), coin("a", 1), coin("b2", 2), coin("b1", 2), coin("z", 0)];
    let sorted = sort_by_rank(&markets);
    let ids: Vec<&str> = sorted.iter().map(|m| m.id.as_str()).collect();
    assert_eq!(ids, vec!["z", "a", "b2", "b1", "c"]);
    assert_eq!(sort_by_rank(&[]), vec![]);
}

#[test]
fn start_of_the_poller_is_one_heading() {
    assert_eq!(render(&DiscordCommand::SendCoingeckoStarted), Some(text(HEADING)));
}

#[test]
fn page_of_the_listing_is_one_message_in_the_order_given() {
    let message = render(&DiscordCommand::SendCoingeckoBase(vec![coin("b", 2), coin("a", 1)]));
    assert_eq!(
        message,
        Some(text(
            "```css\n\n[2] b [CURRENT_PRICE] $1.5 [MARKET_CAP] $1,234,567\n[1] a [CURRENT_PRICE] $1.5 [MARKET_CAP] $1,234,567\n```"
        ))
    );
    assert_eq!(render(&DiscordCommand::SendCoingeckoBase(vec![])), Some(text("```css\n\n```")));
}

#[test]
fn page_has_one_line_for_each_market() {
    let markets: Vec<Market> = (1..=20).map(|rank| coin("m", rank)).collect();
    let content = render_page(&markets);
    assert_eq!(content.lines().count(), 20 + 3);
    assert!(content.starts_with("```css\n\n[1] m "));
    assert!(content.ends_with("[20] m [CURRENT_PRICE] $1.5 [MARKET_CAP] $1,234,567\n```"));
}

#[test]
fn subscription_request_is_acknowledged_and_emitted() {
    let plan = add_subscription(vec![String::from("Polkadot"), String::from("ignored")]);
    assert_eq!(
        plan,
        ChatPlan {
            actions: vec![
                ChatAction::React(String::from("\u{2705}")),
                ChatAction::React(String::from("\u{1F445}")),
                ChatAction::Emit(Command::Twitter(TwitterCommand::AddTwitterSubscription(
                    String::from("Polkadot")
                ))),
            ],
            outcome: Ok(()),
        }
    );
}

#[test]
fn subscription_request_without_handle_is_answered_and_fails() {
    let plan = add_subscription(vec![]);
    assert_eq!(
        plan,
        ChatPlan {
            actions: vec![ChatAction::Reply(String::from("You need to provide a twitter handle."))],
            outcome: Err(ChatError::NoTwitterHandle),
        }
    );
    assert_eq!(ChatError::NoTwitterHandle.message(), "No twitter handle provided");
}
