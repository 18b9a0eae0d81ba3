use notify_relay::discord::DiscordConfig;
use notify_relay::gecko::{
    apply_rules, calculate_market_cap_rank_diff, compare_state, get_price_diff_pct,
    refused_markets, CoingeckoConfig, Market, Rule, RuleError, RuleResult,
};
use notify_relay::twitter::TwitterConfig;
use notify_relay::Config;

fn config(rules: Vec<Rule>) -> Config {
    Config {
        twitter: TwitterConfig {
            consumer_key: String::from("ck"),
            consumer_secret: String::from("cs"),
            user_access_key: String::from("ak"),
            user_access_secret: String::from("as"),
            subscriptions: vec![],
        },
        discord: DiscordConfig { channel_id: 1, token: String::from("t") },
        coingecko: CoingeckoConfig { sleep_time_secs: 60, rules },
    }
}

fn market(id: &str, price: u64, rank: u32) -> Market {
    Market {
        id: String::from(id),
        name: String::from(id),
        image: format!("https://img.example/{}.png", id),
        current_price: price,
        market_cap: 1_000_000,
        market_cap_rank: rank,
    }
}

#[test]
fn positive_percent_rule_fires_on_a_rise() {
    let config = config(vec![Rule::PositivePercent(1000)]);
    let previous = vec![market("x", 100, 5)];
    let current = vec![market("x", 115, 5)];
    let results = compare_state(&previous, &current, &config);
    assert_eq!(results, vec![RuleResult::Percent(true, market("x", 115, 5), 1500)]);
}

#[test]
fn negative_rank_rule_is_silent_on_an_improvement() {
    let config = config(vec![Rule::NegativeRank(-5)]);
    let previous = market("y", 100, 50);
    let current = market("y", 100, 40);
    assert_eq!(calculate_market_cap_rank_diff(&previous, &current), 10);
    assert_eq!(apply_rules(&config, &previous, &current), Ok(vec![]));
    assert_eq!(compare_state(&[previous], &[current], &config), vec![]);
}

#[test]
fn market_missing_from_one_snapshot_is_silent() {
    let rules = vec![
        Rule::PositivePercent(0),
        Rule::NegativePercent(0),
        Rule::PositiveRank(0),
        Rule::NegativeRank(0),
    ];
    let config = config(rules);
    let previous = vec![market("z", 100, 1)];
    assert_eq!(compare_state(&previous, &[], &config), vec![]);
    assert_eq!(compare_state(&previous, &[market("new", 100, 1)], &config), vec![]);
    assert_eq!(compare_state(&[], &[market("z", 100, 1)], &config), vec![]);
}

#[test]
fn price_change_is_in_basis_points_rounded_towards_zero() {
    assert_eq!(get_price_diff_pct(100, 115), Ok(1500));
    assert_eq!(get_price_diff_pct(200, 100), Ok(-5000));
    assert_eq!(get_price_diff_pct(100, 100), Ok(0));
    assert_eq!(get_price_diff_pct(3, 4), Ok(3333));
    assert_eq!(get_price_diff_pct(3, 2), Ok(-3333));
    assert_eq!(get_price_diff_pct(1_000_000, 999_999), Ok(0));
    assert_eq!(get_price_diff_pct(1, u64::MAX), Ok(10_000 * (u64::MAX as i128 - 1)));
    assert_eq!(get_price_diff_pct(u64::MAX, 0), Ok(-10_000));
}

#[test]
fn zero_initial_price_is_an_error() {
    assert_eq!(get_price_diff_pct(0, 115), Err(RuleError::ZeroInitialPrice));
    assert_eq!(get_price_diff_pct(0, 0), Err(RuleError::ZeroInitialPrice));
    let config = config(vec![Rule::PositiveRank(0), Rule::PositivePercent(0)]);
    let previous = market("q", 0, 9);
    let current = market("q", 5, 3);
    assert_eq!(apply_rules(&config, &previous, &current), Err(RuleError::ZeroInitialPrice));
    assert_eq!(compare_state(&[previous], &[current], &config), vec![]);
}

#[test]
fn rules_fire_independently_and_in_declaration_order() {
    let rules = vec![
        Rule::PositiveRank(2),
        Rule::NegativePercent(-500),
        Rule::PositivePercent(500),
        Rule::NegativeRank(-2),
        Rule::PositivePercent(1000),
    ];
    let config = config(rules);
    let previous = market("dot", 200, 30);
    let current = market("dot", 250, 20);
    assert_eq!(
        apply_rules(&config, &previous, &current),
        Ok(vec![
            RuleResult::Rank(true, market("dot", 250, 20), 10),
            RuleResult::Percent(true, market("dot", 250, 20), 2500),
            RuleResult::Percent(true, market("dot", 250, 20), 2500),
        ])
    );
}

#[test]
fn result_count_equals_number_of_satisfied_rules() {
    let rules = vec![
        Rule::NegativePercent(-1000),
        Rule::NegativePercent(-1001),
        Rule::NegativePercent(0),
        Rule::PositivePercent(0),
        Rule::NegativeRank(-3),
        Rule::NegativeRank(-4),
        Rule::PositiveRank(0),
    ];
    let config = config(rules);
    let previous = market("k", 1000, 10);
    let current = market("k", 900, 13);
    let results = apply_rules(&config, &previous, &current).unwrap();
    assert_eq!(
        results,
        vec![
            RuleResult::Percent(false, market("k", 900, 13), -1000),
            RuleResult::Percent(false, market("k", 900, 13), -1000),
            RuleResult::Rank(false, market("k", 900, 13), -3),
        ]
    );
}

#[test]
fn unchanged_market_meets_zero_thresholds_of_both_signs() {
    let rules = vec![
        Rule::PositivePercent(0),
        Rule::NegativePercent(0),
        Rule::PositiveRank(0),
        Rule::NegativeRank(0),
        Rule::PositivePercent(1),
        Rule::NegativeRank(-1),
    ];
    let config = config(rules);
    let same = market("s", 77, 7);
    assert_eq!(
        apply_rules(&config, &same, &same),
        Ok(vec![
            RuleResult::Percent(true, market("s", 77, 7), 0),
            RuleResult::Percent(false, market("s", 77, 7), 0),
            RuleResult::Rank(true, market("s", 77, 7), 0),
            RuleResult::Rank(false, market("s", 77, 7), 0),
        ])
    );
}

#[test]
fn threshold_of_the_wrong_sign_still_needs_the_sign_of_the_rule() {
    let config = config(vec![
        Rule::PositivePercent(-5000),
        Rule::NegativePercent(5000),
        Rule::PositiveRank(-50),
        Rule::NegativeRank(50),
    ]);
    let previous = market("w", 100, 10);
    let fallen = market("w", 90, 12);
    assert_eq!(
        apply_rules(&config, &previous, &fallen),
        Ok(vec![
            RuleResult::Percent(false, market("w", 90, 12), -1000),
            RuleResult::Rank(false, market("w", 90, 12), -2),
        ])
    );
    let risen = market("w", 110, 8);
    assert_eq!(
        apply_rules(&config, &previous, &risen),
        Ok(vec![
            RuleResult::Percent(true, market("w", 110, 8), 1000),
            RuleResult::Rank(true, market("w", 110, 8), 2),
        ])
    );
}

#[test]
fn results_follow_the_order_of_the_later_snapshot() {
    let config = config(vec![Rule::PositiveRank(1), Rule::PositivePercent(100)]);
    let previous = vec![market("a", 100, 3), market("b", 100, 2), market("c", 100, 1)];
    let current = vec![market("c", 100, 1), market("b", 200, 1), market("a", 101, 2)];
    assert_eq!(
        compare_state(&previous, &current, &config),
        vec![
            RuleResult::Rank(true, market("b", 200, 1), 1),
            RuleResult::Percent(true, market("b", 200, 1), 10_000),
            RuleResult::Rank(true, market("a", 101, 2), 1),
            RuleResult::Percent(true, market("a", 101, 2), 100),
        ]
    );
}

#[test]
fn ranks_need_not_be_contiguous_nor_start_at_one() {
    let previous = market("r", 1, 0);
    let current = market("r", 1, u32::MAX);
    assert_eq!(calculate_market_cap_rank_diff(&previous, &current), -(u32::MAX as i64));
    assert_eq!(calculate_market_cap_rank_diff(&current, &previous), u32::MAX as i64);
    let config = config(vec![Rule::NegativeRank(i16::MIN), Rule::PositiveRank(i16::MAX)]);
    assert_eq!(
        apply_rules(&config, &previous, &current),
        Ok(vec![RuleResult::Rank(false, market("r", 1, u32::MAX), -(u32::MAX as i64))])
    );
    assert_eq!(
        apply_rules(&config, &current, &previous),
        Ok(vec![RuleResult::Rank(true, market("r", 1, 0), u32::MAX as i64)])
    );
}

#[test]
fn earlier_market_is_the_first_with_the_identifier() {
    let config = config(vec![Rule::PositivePercent(0)]);
    let previous = vec![market("d", 100, 1), market("d", 50, 1)];
    let current = vec![market("d", 100, 1)];
    assert_eq!(
        compare_state(&previous, &current, &config),
        vec![RuleResult::Percent(true, market("d", 100, 1), 0)]
    );
}

#[test]
fn result_carries_the_later_market() {
    let config = config(vec![Rule::NegativePercent(-1)]);
    let previous = Market {
        id: String::from("m"),
        name: String::from("old name"),
        image: String::from("old image"),
        current_price: 10,
        market_cap: 1,
        market_cap_rank: 4,
    };
    let current = Market {
        id: String::from("m"),
        name: String::from("new name"),
        image: String::from("new image"),
        current_price: 9,
        market_cap: 2,
        market_cap_rank: 4,
    };
    let expected = Market {
        id: String::from("m"),
        name: String::from("new name"),
        image: String::from("new image"),
        current_price: 9,
        market_cap: 2,
        market_cap_rank: 4,
    };
    assert_eq!(
        compare_state(&[previous], &[current], &config),
        vec![RuleResult::Percent(false, expected, -1000)]
    );
}

#[test]
fn no_rules_give_no_results() {
    let config = config(vec![]);
    assert_eq!(apply_rules(&config, &market("e", 1, 1), &market("e", 2, 2)), Ok(vec![]));
}

#[test]
fn fall_of_less_than_a_basis_point_is_still_a_fall() {
    let config = config(vec![
        Rule::PositivePercent(0),
        Rule::NegativePercent(0),
        Rule::NegativePercent(-1),
    ]);
    let previous = market("t", 1_000_000, 1);
    let fallen = market("t", 999_999, 1);
    assert_eq!(
        apply_rules(&config, &previous, &fallen),
        Ok(vec![RuleResult::Percent(false, market("t", 999_999, 1), 0)])
    );
    let risen = market("t", 1_000_001, 1);
    assert_eq!(
        apply_rules(&config, &previous, &risen),
        Ok(vec![RuleResult::Percent(true, market("t", 1_000_001, 1), 0)])
    );
}

#[test]
fn threshold_is_met_exactly_at_its_value() {
    let config = config(vec![Rule::PositivePercent(1000), Rule::NegativePercent(-1000)]);
    let previous = market("e", 100_000, 1);
    assert_eq!(apply_rules(&config, &previous, &market("e", 109_999, 1)), Ok(vec![]));
    assert_eq!(
        apply_rules(&config, &previous, &market("e", 110_000, 1)),
        Ok(vec![RuleResult::Percent(true, market("e", 110_000, 1), 1000)])
    );
    assert_eq!(apply_rules(&config, &previous, &market("e", 90_001, 1)), Ok(vec![]));
    assert_eq!(
        apply_rules(&config, &previous, &market("e", 90_000, 1)),
        Ok(vec![RuleResult::Percent(false, market("e", 90_000, 1), -1000)])
    );
}

#[test]
fn refused_markets_are_named_in_the_order_of_the_later_snapshot() {
    let previous = vec![market("a", 0, 1), market("b", 5, 2), market("c", 0, 3), market("c", 9, 3)];
    let current = vec![market("c", 1, 1), market("n", 1, 2), market("b", 1, 3), market("a", 1, 4)];
    assert_eq!(refused_markets(&previous, &current), vec!["c", "a"]);
    assert_eq!(refused_markets(&previous, &[]), Vec::<String>::new());
    assert_eq!(refused_markets(&[], &current), Vec::<String>::new());
    assert_eq!(refused_markets(&[market("z", 1, 1)], &[market("z", 0, 1)]), Vec::<String>::new());
}
