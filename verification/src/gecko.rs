//! Market snapshots, the rule engine that compares two of them, and the
//! poller that drives it.

use vstd::prelude::*;
use crate::command::{Command, CommandView, DiscordCommand, DiscordCommandView};
use crate::config::Config;
use crate::listing::{page, page_count, sort_by_rank, sorted_by_rank, PAGE_LIMIT, PAGE_SIZE};
use crate::model::views;

verus! {

/// Basis points in a whole: a price that doubles has risen by this many.
pub const BASIS_POINTS: u128 = 10_000;

/// Basis points in one percent.
pub const PERCENT_UNIT: u128 = 100;

/// Price units in one unit of the quote currency.
pub const PRICE_UNIT: u128 = 1_000_000_000_000;

/// One row of a market snapshot.
///
/// The price is a whole number of price units, `PRICE_UNIT` of which make
/// one unit of the quote currency; the capitalisation is in whole units of
/// that currency. Rank 1 is the largest market.
#[derive(Debug, PartialEq, Eq)]
pub struct Market {
    pub id: String,
    pub name: String,
    pub image: String,
    pub current_price: u64,
    pub market_cap: u64,
    pub market_cap_rank: u32,
}

/// What a `Market` says.
#[verifier::ext_equal]
pub struct MarketView {
    pub id: Seq<char>,
    pub name: Seq<char>,
    pub image: Seq<char>,
    pub current_price: u64,
    pub market_cap: u64,
    pub market_cap_rank: u32,
}

impl View for Market {
    type V = MarketView;

    open spec fn view(&self) -> MarketView {
        MarketView {
            id: self.id@,
            name: self.name@,
            image: self.image@,
            current_price: self.current_price,
            market_cap: self.market_cap,
            market_cap_rank: self.market_cap_rank,
        }
    }
}

impl Clone for Market {
    fn clone(&self) -> (copy: Self)
        ensures
            copy@ == self@,
    {
        Market {
            id: self.id.clone(),
            name: self.name.clone(),
            image: self.image.clone(),
            current_price: self.current_price,
            market_cap: self.market_cap,
            market_cap_rank: self.market_cap_rank,
        }
    }
}

/// Poll interval and rule set of the market poller.
#[derive(Debug, PartialEq, Eq)]
pub struct CoingeckoConfig {
    pub sleep_time_secs: u64,
    pub rules: Vec<Rule>,
}

/// A threshold on the change of one market between two snapshots.
///
/// Percent thresholds are in basis points, rank thresholds in ranks. A
/// positive rule asks for a change of at least its threshold, a negative rule
/// for a change of at most its threshold.
#[derive(Debug, PartialEq, Eq, Clone, Copy)]
pub enum Rule {
    PositivePercent(i64),
    NegativePercent(i64),
    PositiveRank(i16),
    NegativeRank(i16),
}

/// One rule that fired for one market: the direction of the rule, the market
/// as the later snapshot has it, and the change that was observed, a price
/// change in basis points or a gain in ranks.
#[derive(Debug, PartialEq, Eq)]
pub enum RuleResult {
    Percent(bool, Market, i128),
    Rank(bool, Market, i64),
}

/// What a `RuleResult` says.
#[verifier::ext_equal]
pub enum RuleResultView {
    Percent(bool, MarketView, i128),
    Rank(bool, MarketView, i64),
}

impl View for RuleResult {
    type V = RuleResultView;

    open spec fn view(&self) -> RuleResultView {
        match self {
            RuleResult::Percent(rising, market, pct) => RuleResultView::Percent(
                *rising,
                market@,
                *pct,
            ),
            RuleResult::Rank(rising, market, ranks) => RuleResultView::Rank(
                *rising,
                market@,
                *ranks,
            ),
        }
    }
}

impl Clone for RuleResult {
    fn clone(&self) -> (copy: Self)
        ensures
            copy@ == self@,
    {
        match self {
            RuleResult::Percent(rising, market, pct) => RuleResult::Percent(
                *rising,
                market.clone(),
                *pct,
            ),
            RuleResult::Rank(rising, market, ranks) => RuleResult::Rank(
                *rising,
                market.clone(),
                *ranks,
            ),
        }
    }
}

/// Why a pair of snapshot rows cannot be compared.
#[derive(Debug, PartialEq, Eq, Clone, Copy)]
pub enum RuleError {
    /// The earlier price is zero, so no relative change exists.
    ZeroInitialPrice,
}

/// The change from `initial` to `current` in basis points of `initial`,
/// rounded towards zero. Meaningful for `initial > 0`.
pub open spec fn price_diff_pct(initial: u64, current: u64) -> int
    recommends
        initial > 0,
{
    if current >= initial {
        (BASIS_POINTS * (current - initial)) / (initial as int)
    } else {
        -((BASIS_POINTS * (initial - current)) / (initial as int))
    }
}

/// Computes the relative price change in basis points, rounded towards zero.
/// There is none when the earlier price is zero.
pub fn get_price_diff_pct(initial: u64, current: u64) -> (diff: Result<i128, RuleError>)
    ensures
        initial == 0 <==> diff == Err::<i128, RuleError>(RuleError::ZeroInitialPrice),
        initial > 0 <==> diff == Ok::<i128, RuleError>(price_diff_pct(initial, current) as i128),
        initial > 0 ==> i128::MIN < price_diff_pct(initial, current) < i128::MAX,
{
    if initial == 0 {
        return Err(RuleError::ZeroInitialPrice);
    }
    if current >= initial {
        let rise: u128 = (current - initial) as u128;
        let scaled: u128 = BASIS_POINTS * rise;
        let quotient: u128 = scaled / (initial as u128);
        Ok(quotient as i128)
    } else {
        let fall: u128 = (initial - current) as u128;
        let scaled: u128 = BASIS_POINTS * fall;
        let quotient: u128 = scaled / (initial as u128);
        Ok(-(quotient as i128))
    }
}

/// Ranks gained from `initial` to `current`: positive when the market moved
/// towards rank 1.
pub open spec fn rank_diff(initial: MarketView, current: MarketView) -> int {
    initial.market_cap_rank - current.market_cap_rank
}

/// Computes the ranks gained from `initial` to `current`.
pub fn calculate_market_cap_rank_diff(initial: &Market, current: &Market) -> (diff: i64)
    ensures
        diff == rank_diff(initial@, current@),
{
    initial.market_cap_rank as i64 - current.market_cap_rank as i64
}

/// Whether `rule` fires on the change from `initial` to `current`: the change
/// has the sign of the rule and reaches its threshold. A percent rule takes
/// the sign from the prices themselves, so that a price that fell by less
/// than a basis point has still fallen; it holds the change in whole basis
/// points against its threshold.
pub open spec fn rule_fires(rule: Rule, initial: MarketView, current: MarketView) -> bool {
    let pct = price_diff_pct(initial.current_price, current.current_price);
    let ranks = rank_diff(initial, current);
    match rule {
        Rule::PositivePercent(min) => current.current_price >= initial.current_price && pct >= min,
        Rule::NegativePercent(max) => current.current_price <= initial.current_price && pct <= max,
        Rule::PositiveRank(min) => ranks >= 0 && ranks >= min,
        Rule::NegativeRank(max) => ranks <= 0 && ranks <= max,
    }
}

/// What `rule` reports when it fires for `current`.
pub open spec fn rule_result(rule: Rule, current: MarketView, pct: int, ranks: int) -> RuleResultView {
    match rule {
        Rule::PositivePercent(_) => RuleResultView::Percent(true, current, pct as i128),
        Rule::NegativePercent(_) => RuleResultView::Percent(false, current, pct as i128),
        Rule::PositiveRank(_) => RuleResultView::Rank(true, current, ranks as i64),
        Rule::NegativeRank(_) => RuleResultView::Rank(false, current, ranks as i64),
    }
}

/// The result of one rule on one market seen in both snapshots, if it fires.
pub open spec fn rule_outcome(rule: Rule, initial: MarketView, current: MarketView) -> Option<
    RuleResultView,
> {
    if rule_fires(rule, initial, current) {
        Some(
            rule_result(
                rule,
                current,
                price_diff_pct(initial.current_price, current.current_price),
                rank_diff(initial, current),
            ),
        )
    } else {
        None
    }
}

/// The results of all rules on one market, in the order of the rules.
pub open spec fn rule_results(rules: Seq<Rule>, initial: MarketView, current: MarketView) -> Seq<
    RuleResultView,
> {
    rules.filter_map(|rule: Rule| rule_outcome(rule, initial, current))
}

/// Evaluates every configured rule on one market seen in both snapshots.
///
/// Each rule that fires contributes one result, in the order of the rules. A
/// market whose earlier price is zero is refused.
pub fn apply_rules(config: &Config, initial: &Market, current: &Market) -> (outcome: Result<
    Vec<RuleResult>,
    RuleError,
>)
    ensures
        initial.current_price == 0 <==> outcome is Err,
        outcome matches Err(e) ==> e == RuleError::ZeroInitialPrice,
        outcome matches Ok(results) ==> views(results@) == rule_results(
            config.coingecko.rules@,
            initial@,
            current@,
        ),
{
    let pct: i128 = match get_price_diff_pct(initial.current_price, current.current_price) {
        Ok(pct) => pct,
        Err(e) => {
            return Err(e);
        },
    };
    let ranks: i64 = calculate_market_cap_rank_diff(initial, current);
    let rules = &config.coingecko.rules;
    let mut results: Vec<RuleResult> = Vec::new();
    let mut i: usize = 0;
    while i < rules.len()
        invariant
            i <= rules.len(),
            pct == price_diff_pct(initial.current_price, current.current_price),
            ranks == rank_diff(initial@, current@),
            views(results@) == rule_results(rules@.take(i as int), initial@, current@),
        decreases rules.len() - i,
    {
        let fired: Option<RuleResult> = match rules[i] {
            Rule::PositivePercent(min) => {
                if current.current_price >= initial.current_price && pct >= min as i128 {
                    Some(RuleResult::Percent(true, current.clone(), pct))
                } else {
                    None
                }
            },
            Rule::NegativePercent(max) => {
                if current.current_price <= initial.current_price && pct <= max as i128 {
                    Some(RuleResult::Percent(false, current.clone(), pct))
                } else {
                    None
                }
            },
            Rule::PositiveRank(min) => {
                if ranks >= 0 && ranks >= min as i64 {
                    Some(RuleResult::Rank(true, current.clone(), ranks))
                } else {
                    None
                }
            },
            Rule::NegativeRank(max) => {
                if ranks <= 0 && ranks <= max as i64 {
                    Some(RuleResult::Rank(false, current.clone(), ranks))
                } else {
                    None
                }
            },
        };
        if let Some(result) = fired {
            results.push(result);
        }
        proof {
            assert(rules@.take(i + 1).drop_last() =~= rules@.take(i as int));
        }
        i += 1;
    }
    proof {
        assert(rules@.take(rules.len() as int) =~= rules@);
    }
    Ok(results)
}

/// The first market of `state` with the identifier `id`.
pub open spec fn find_by_id(state: Seq<MarketView>, id: Seq<char>) -> Option<MarketView>
    decreases state.len(),
{
    if state.len() == 0 {
        None
    } else if state.first().id == id {
        Some(state.first())
    } else {
        find_by_id(state.drop_first(), id)
    }
}

/// The results for one market of the later snapshot: those of the rules on
/// it and its earlier self, or none when the earlier snapshot lacks it or
/// prices it at zero.
pub open spec fn market_results(
    rules: Seq<Rule>,
    initial_state: Seq<MarketView>,
    current: MarketView,
) -> Seq<RuleResultView> {
    match find_by_id(initial_state, current.id) {
        Some(initial) => if initial.current_price > 0 {
            rule_results(rules, initial, current)
        } else {
            Seq::empty()
        },
        None => Seq::empty(),
    }
}

/// The results of comparing two snapshots: those of each market of the later
/// snapshot, in the order of that snapshot.
pub open spec fn state_results(
    rules: Seq<Rule>,
    initial_state: Seq<MarketView>,
    new_state: Seq<MarketView>,
) -> Seq<RuleResultView>
    decreases new_state.len(),
{
    if new_state.len() == 0 {
        Seq::empty()
    } else {
        state_results(rules, initial_state, new_state.drop_last()) + market_results(
            rules,
            initial_state,
            new_state.last(),
        )
    }
}

/// Looks up the first market with the given identifier.
fn find_market<'a>(state: &'a [Market], id: &String) -> (found: Option<&'a Market>)
    ensures
        match found {
            Some(market) => find_by_id(views(state@), id@) == Some(market@),
            None => find_by_id(views(state@), id@) is None,
        },
{
    let mut j: usize = 0;
    proof {
        assert(views(state@).skip(0) =~= views(state@));
    }
    while j < state.len()
        invariant
            j <= state.len(),
            find_by_id(views(state@), id@) == find_by_id(views(state@).skip(j as int), id@),
        decreases state.len() - j,
    {
        if state[j].id == *id {
            return Some(&state[j]);
        }
        proof {
            assert(views(state@).skip(j as int).drop_first() =~= views(state@).skip(j + 1));
        }
        j += 1;
    }
    None
}

/// Compares two snapshots under the configured rules.
///
/// Markets are taken in the order of `new_state`; one that `initial_state`
/// lacks, or prices at zero, contributes nothing.
pub fn compare_state(initial_state: &[Market], new_state: &[Market], config: &Config) -> (results:
    Vec<RuleResult>)
    ensures
        views(results@) == state_results(
            config.coingecko.rules@,
            views(initial_state@),
            views(new_state@),
        ),
{
    let mut results: Vec<RuleResult> = Vec::new();
    let mut i: usize = 0;
    while i < new_state.len()
        invariant
            i <= new_state.len(),
            views(results@) == state_results(
                config.coingecko.rules@,
                views(initial_state@),
                views(new_state@).take(i as int),
            ),
        decreases new_state.len() - i,
    {
        proof {
            assert(views(new_state@).take(i + 1).drop_last() =~= views(new_state@).take(i as int));
        }
        let market = &new_state[i];
        if let Some(market_initial) = find_market(initial_state, &market.id) {
            if let Ok(mut fired) = apply_rules(config, market_initial, market) {
                results.append(&mut fired);
            }
        }
        i += 1;
    }
    proof {
        assert(views(new_state@).take(new_state.len() as int) =~= views(new_state@));
    }
    results
}

/// The identifier of `current` when it is refused: the earlier snapshot has
/// it, at a price of zero.
pub open spec fn refused_id(initial_state: Seq<MarketView>, current: MarketView) -> Option<
    Seq<char>,
> {
    match find_by_id(initial_state, current.id) {
        Some(initial) => if initial.current_price == 0 {
            Some(current.id)
        } else {
            None
        },
        None => None,
    }
}

/// The identifiers of the markets of the later snapshot that are refused, in
/// the order of that snapshot.
pub open spec fn refused_ids(initial_state: Seq<MarketView>, new_state: Seq<MarketView>) -> Seq<
    Seq<char>,
> {
    new_state.filter_map(|current: MarketView| refused_id(initial_state, current))
}

/// Names the markets that a comparison of the two snapshots refuses, so that
/// the caller can report them.
pub fn refused_markets(initial_state: &[Market], new_state: &[Market]) -> (ids: Vec<String>)
    ensures
        views(ids@) == refused_ids(views(initial_state@), views(new_state@)),
{
    let mut ids: Vec<String> = Vec::new();
    let mut i: usize = 0;
    while i < new_state.len()
        invariant
            i <= new_state.len(),
            views(ids@) == refused_ids(views(initial_state@), views(new_state@).take(i as int)),
        decreases new_state.len() - i,
    {
        proof {
            assert(views(new_state@).take(i + 1).drop_last() =~= views(new_state@).take(i as int));
        }
        let market = &new_state[i];
        if let Some(market_initial) = find_market(initial_state, &market.id) {
            if market_initial.current_price == 0 {
                ids.push(market.id.clone());
            }
        }
        i += 1;
    }
    proof {
        assert(views(new_state@).take(new_state.len() as int) =~= views(new_state@));
    }
    ids
}

/// What the market poller holds between two fetches.
#[derive(Debug, PartialEq, Eq)]
pub enum PollerState {
    /// No snapshot has been fetched yet.
    Starting,
    /// The latest snapshot that was fetched.
    Running(Vec<Market>),
    /// The first fetch failed and the poller has ended.
    Stopped,
}

/// What one fetch of the market feed brought.
#[derive(Debug, PartialEq, Eq)]
pub enum Fetch {
    Snapshot(Vec<Market>),
    Failed,
}

/// The outcome of one fetch: what the poller holds now, what it emits onto
/// the bus, which markets it refused to compare, and how long it sleeps
/// before it fetches again, if it goes on.
#[derive(Debug, PartialEq, Eq)]
pub struct PollerStep {
    pub state: PollerState,
    pub commands: Vec<Command>,
    pub refused: Vec<String>,
    pub sleep_secs: Option<u64>,
}

/// What a `PollerState` says.
#[verifier::ext_equal]
pub enum PollerStateView {
    Starting,
    Running(Seq<MarketView>),
    Stopped,
}

/// What a `Fetch` says.
#[verifier::ext_equal]
pub enum FetchView {
    Snapshot(Seq<MarketView>),
    Failed,
}

/// What a `PollerStep` says.
#[verifier::ext_equal]
pub struct PollerStepView {
    pub state: PollerStateView,
    pub commands: Seq<CommandView>,
    pub refused: Seq<Seq<char>>,
    pub sleep_secs: Option<u64>,
}

impl View for PollerState {
    type V = PollerStateView;

    open spec fn view(&self) -> PollerStateView {
        match self {
            PollerState::Starting => PollerStateView::Starting,
            PollerState::Running(held) => PollerStateView::Running(views(held@)),
            PollerState::Stopped => PollerStateView::Stopped,
        }
    }
}

impl View for Fetch {
    type V = FetchView;

    open spec fn view(&self) -> FetchView {
        match self {
            Fetch::Snapshot(markets) => FetchView::Snapshot(views(markets@)),
            Fetch::Failed => FetchView::Failed,
        }
    }
}

impl View for PollerStep {
    type V = PollerStepView;

    open spec fn view(&self) -> PollerStepView {
        PollerStepView {
            state: self.state@,
            commands: views(self.commands@),
            refused: views(self.refused@),
            sleep_secs: self.sleep_secs,
        }
    }
}

/// The commands that carry the given rule results to the notification sink.
pub open spec fn notifications(results: Seq<RuleResultView>) -> Seq<CommandView> {
    results.map_values(
        |result: RuleResultView|
            CommandView::Discord(DiscordCommandView::SendCoingeckoRuleResult(result)),
    )
}

/// The first `count` pages of a listing, one command each.
pub open spec fn listing_commands(listing: Seq<MarketView>, count: nat) -> Seq<CommandView> {
    Seq::new(
        count,
        |k: int| CommandView::Discord(DiscordCommandView::SendCoingeckoBase(page(listing, k))),
    )
}

/// The commands that announce the first snapshot: one that says that the
/// poller has started, then one for each page of the listing of the markets
/// by rank. Each command gives one chat message.
pub open spec fn announcement(first: Seq<MarketView>) -> Seq<CommandView> {
    let listing = sorted_by_rank(first);
    seq![CommandView::Discord(DiscordCommandView::SendCoingeckoStarted)] + listing_commands(
        listing,
        page_count(listing.len()),
    )
}

/// What the poller does with the outcome of one fetch.
///
/// The first snapshot is announced and held. Every later snapshot is
/// compared with the one held, each rule result is emitted in order, the
/// markets that were refused are named, and the new snapshot replaces the
/// old. A failed first fetch ends the poller; a later failed fetch changes
/// nothing. While the poller runs it sleeps for `sleep_time_secs` before the
/// next fetch.
pub open spec fn advanced(
    state: PollerStateView,
    fetched: FetchView,
    rules: Seq<Rule>,
    sleep_time_secs: u64,
) -> PollerStepView {
    match (state, fetched) {
        (PollerStateView::Starting, FetchView::Snapshot(first)) => PollerStepView {
            state: PollerStateView::Running(first),
            commands: announcement(first),
            refused: Seq::empty(),
            sleep_secs: Some(sleep_time_secs),
        },
        (PollerStateView::Starting, FetchView::Failed) => PollerStepView {
            state: PollerStateView::Stopped,
            commands: Seq::empty(),
            refused: Seq::empty(),
            sleep_secs: None,
        },
        (PollerStateView::Running(previous), FetchView::Snapshot(new)) => PollerStepView {
            state: PollerStateView::Running(new),
            commands: notifications(state_results(rules, previous, new)),
            refused: refused_ids(previous, new),
            sleep_secs: Some(sleep_time_secs),
        },
        (PollerStateView::Running(previous), FetchView::Failed) => PollerStepView {
            state: PollerStateView::Running(previous),
            commands: Seq::empty(),
            refused: Seq::empty(),
            sleep_secs: Some(sleep_time_secs),
        },
        (PollerStateView::Stopped, _) => PollerStepView {
            state: PollerStateView::Stopped,
            commands: Seq::empty(),
            refused: Seq::empty(),
            sleep_secs: None,
        },
    }
}

/// Copies `listing[from..to]`.
fn copy_page(listing: &Vec<Market>, from: usize, to: usize) -> (copy: Vec<Market>)
    requires
        from <= to <= listing.len(),
    ensures
        views(copy@) == views(listing@).subrange(from as int, to as int),
{
    let mut copy: Vec<Market> = Vec::new();
    let mut i: usize = from;
    while i < to
        invariant
            from <= i <= to <= listing.len(),
            copy@.len() == i - from,
            forall|j: int| 0 <= j < i - from ==> copy@[j]@ == listing@[from + j]@,
        decreases to - i,
    {
        copy.push(listing[i].clone());
        i += 1;
    }
    copy
}

/// Writes the commands that announce the first snapshot.
fn announce(first: &Vec<Market>) -> (commands: Vec<Command>)
    ensures
        views(commands@) == announcement(views(first@)),
{
    let listing = sort_by_rank(first.as_slice());
    let mut commands: Vec<Command> = Vec::new();
    commands.push(Command::Discord(DiscordCommand::SendCoingeckoStarted));
    let mut k: usize = 0;
    while k < PAGE_LIMIT && k * PAGE_SIZE < listing.len()
        invariant
            k <= PAGE_LIMIT,
            k <= page_count(listing@.len()),
            views(listing@).len() == listing@.len(),
            views(commands@) == seq![CommandView::Discord(DiscordCommandView::SendCoingeckoStarted)]
                + listing_commands(views(listing@), k as nat),
        decreases PAGE_LIMIT - k,
    {
        let from: usize = k * PAGE_SIZE;
        let to: usize = if listing.len() - from > PAGE_SIZE {
            from + PAGE_SIZE
        } else {
            listing.len()
        };
        let ghost before = views(commands@);
        commands.push(Command::Discord(DiscordCommand::SendCoingeckoBase(copy_page(&listing, from, to))));
        proof {
            let shown = views(listing@);
            assert(views(commands@) =~= before.push(
                CommandView::Discord(DiscordCommandView::SendCoingeckoBase(page(shown, k as int))),
            ));
        }
        k += 1;
    }
    commands
}

/// Wraps each rule result into the command that reports it.
fn notify(results: &Vec<RuleResult>) -> (commands: Vec<Command>)
    ensures
        views(commands@) == notifications(views(results@)),
{
    let mut commands: Vec<Command> = Vec::new();
    let mut i: usize = 0;
    while i < results.len()
        invariant
            i <= results.len(),
            commands@.len() == i,
            forall|j: int|
                0 <= j < i ==> commands@[j]@ == CommandView::Discord(
                    DiscordCommandView::SendCoingeckoRuleResult(results@[j]@),
                ),
        decreases results.len() - i,
    {
        commands.push(Command::Discord(DiscordCommand::SendCoingeckoRuleResult(results[i].clone())));
        i += 1;
    }
    commands
}

impl PollerState {
    /// Takes the outcome of one fetch: see `advanced`.
    pub fn advance(self, config: &Config, fetched: Fetch) -> (step: PollerStep)
        ensures
            step@ == advanced(
                self@,
                fetched@,
                config.coingecko.rules@,
                config.coingecko.sleep_time_secs,
            ),
    {
        match self {
            PollerState::Starting => match fetched {
                Fetch::Snapshot(first) => PollerStep {
                    commands: announce(&first),
                    state: PollerState::Running(first),
                    refused: Vec::new(),
                    sleep_secs: Some(config.coingecko.sleep_time_secs),
                },
                Fetch::Failed => PollerStep {
                    state: PollerState::Stopped,
                    commands: Vec::new(),
                    refused: Vec::new(),
                    sleep_secs: None,
                },
            },
            PollerState::Running(previous) => match fetched {
                Fetch::Snapshot(new) => {
                    let results = compare_state(previous.as_slice(), new.as_slice(), config);
                    let refused = refused_markets(previous.as_slice(), new.as_slice());
                    PollerStep {
                        state: PollerState::Running(new),
                        commands: notify(&results),
                        refused,
                        sleep_secs: Some(config.coingecko.sleep_time_secs),
                    }
                },
                Fetch::Failed => PollerStep {
                    state: PollerState::Running(previous),
                    commands: Vec::new(),
                    refused: Vec::new(),
                    sleep_secs: Some(config.coingecko.sleep_time_secs),
                },
            },
            PollerState::Stopped => PollerStep {
                state: PollerState::Stopped,
                commands: Vec::new(),
                refused: Vec::new(),
                sleep_secs: None,
            },
        }
    }
}

/// The computed price change is the exact change cut to whole basis points:
/// it has the sign of the price movement and differs from
/// `BASIS_POINTS * (current - initial) / initial` by less than one.
pub proof fn price_diff_pct_is_exact(initial: u64, current: u64)
    requires
        initial > 0,
    ensures
        ({
            let pct = price_diff_pct(initial, current);
            let exact_times_initial = BASIS_POINTS * (current - initial);
            &&& current >= initial ==> pct >= 0 && pct * initial <= exact_times_initial < (pct
                + 1) * initial
            &&& current <= initial ==> pct <= 0 && (pct - 1) * initial < exact_times_initial
                <= pct * initial
            &&& current == initial ==> pct == 0
        }),
{
    let divisor = initial as int;
    if current >= initial {
        let rise = BASIS_POINTS * (current - initial);
        vstd::arithmetic::div_mod::lemma_fundamental_div_mod(rise, divisor);
        vstd::arithmetic::div_mod::lemma_mod_bound(rise, divisor);
        vstd::arithmetic::div_mod::lemma_div_pos_is_pos(rise, divisor);
        assert((rise / divisor) * divisor == divisor * (rise / divisor)) by (nonlinear_arith);
        assert((rise / divisor + 1) * divisor == divisor * (rise / divisor) + divisor)
            by (nonlinear_arith);
    }
    if current <= initial {
        let fall = BASIS_POINTS * (initial - current);
        vstd::arithmetic::div_mod::lemma_fundamental_div_mod(fall, divisor);
        vstd::arithmetic::div_mod::lemma_mod_bound(fall, divisor);
        vstd::arithmetic::div_mod::lemma_div_pos_is_pos(fall, divisor);
        assert((-(fall / divisor)) * divisor == -(divisor * (fall / divisor)))
            by (nonlinear_arith);
        assert((-(fall / divisor) - 1) * divisor == -(divisor * (fall / divisor)) - divisor)
            by (nonlinear_arith);
    }
}

/// The computed price change fits the type that results carry it in.
pub proof fn price_diff_pct_is_bounded(initial: u64, current: u64)
    requires
        initial > 0,
    ensures
        -10_000 * u64::MAX <= price_diff_pct(initial, current) <= 10_000 * u64::MAX,
{
    price_diff_pct_is_exact(initial, current);
    let pct = price_diff_pct(initial, current);
    if current >= initial {
        assert(pct <= pct * initial) by (nonlinear_arith)
            requires
                pct >= 0,
                initial >= 1,
        ;
    } else {
        assert(pct >= pct * initial) by (nonlinear_arith)
            requires
                pct <= 0,
                initial >= 1,
        ;
    }
}

/// A percent rule holds the exact change against its threshold: cutting the
/// change to whole basis points loses nothing, because thresholds are whole
/// basis points too.
pub proof fn percent_rules_compare_exactly(rule: Rule, initial: MarketView, current: MarketView)
    requires
        initial.current_price > 0,
    ensures
        match rule {
            Rule::PositivePercent(min) => rule_fires(rule, initial, current) <==> (
            current.current_price >= initial.current_price && BASIS_POINTS * (current.current_price
                - initial.current_price) >= min * initial.current_price),
            Rule::NegativePercent(max) => rule_fires(rule, initial, current) <==> (
            current.current_price <= initial.current_price && BASIS_POINTS * (current.current_price
                - initial.current_price) <= max * initial.current_price),
            _ => true,
        },
{
    price_diff_pct_is_exact(initial.current_price, current.current_price);
    let pct = price_diff_pct(initial.current_price, current.current_price);
    let price = initial.current_price as int;
    let exact = BASIS_POINTS * (current.current_price - initial.current_price);
    match rule {
        Rule::PositivePercent(min) => {
            if current.current_price >= initial.current_price {
                let min = min as int;
                assert(pct >= min ==> pct * price >= min * price) by (nonlinear_arith)
                    requires
                        price > 0,
                ;
                assert(min * price < (pct + 1) * price ==> min < pct + 1) by (nonlinear_arith)
                    requires
                        price > 0,
                ;
            }
        },
        Rule::NegativePercent(max) => {
            if current.current_price <= initial.current_price {
                let max = max as int;
                assert(pct <= max ==> pct * price <= max * price) by (nonlinear_arith)
                    requires
                        price > 0,
                ;
                assert((pct - 1) * price < max * price ==> pct - 1 < max) by (nonlinear_arith)
                    requires
                        price > 0,
                ;
            }
        },
        _ => {},
    }
}

/// Every result carries the later market and the computed change, and the
/// sign of the change agrees with the direction of the rule that fired.
pub proof fn results_match_direction(rules: Seq<Rule>, initial: MarketView, current: MarketView, i: int)
    requires
        initial.current_price > 0,
        0 <= i < rule_results(rules, initial, current).len(),
    ensures
        match rule_results(rules, initial, current)[i] {
            RuleResultView::Percent(rising, market, pct) => {
                &&& market == current
                &&& pct == price_diff_pct(initial.current_price, current.current_price)
                &&& rising ==> current.current_price >= initial.current_price && pct >= 0
                &&& !rising ==> current.current_price <= initial.current_price && pct <= 0
            },
            RuleResultView::Rank(rising, market, ranks) => {
                &&& market == current
                &&& ranks == rank_diff(initial, current)
                &&& rising ==> ranks >= 0
                &&& !rising ==> ranks <= 0
            },
        },
    decreases rules.len(),
{
    let outcome = |rule: Rule| rule_outcome(rule, initial, current);
    if rules.len() > 0 {
        let earlier = rules.drop_last().filter_map(outcome);
        if i < earlier.len() {
            results_match_direction(rules.drop_last(), initial, current, i);
        } else {
            price_diff_pct_is_bounded(initial.current_price, current.current_price);
            price_diff_pct_is_exact(initial.current_price, current.current_price);
        }
    }
}

/// One market yields as many results as there are rules that fire on its
/// changes: rules fire independently of one another, and none fires twice.
pub proof fn result_count_is_firing_rules(rules: Seq<Rule>, initial: MarketView, current: MarketView)
    ensures
        rule_results(rules, initial, current).len() == rules.filter(
            |rule: Rule| rule_fires(rule, initial, current),
        ).len(),
        rule_results(rules, initial, current).len() <= rules.len(),
    decreases rules.len(),
{
    reveal(Seq::filter);
    if rules.len() > 0 {
        result_count_is_firing_rules(rules.drop_last(), initial, current);
    }
}

/// Whether no two markets of a snapshot share an identifier.
pub open spec fn has_unique_ids(state: Seq<MarketView>) -> bool {
    forall|i: int, j: int| 0 <= i < j < state.len() ==> state[i].id != state[j].id
}

/// In a snapshot without repeated identifiers, a market is found by its
/// identifier wherever it stands.
pub proof fn unique_id_finds_its_market(state: Seq<MarketView>, at: int)
    requires
        has_unique_ids(state),
        0 <= at < state.len(),
    ensures
        find_by_id(state, state[at].id) == Some(state[at]),
    decreases state.len(),
{
    if at > 0 {
        let rest = state.drop_first();
        assert forall|i: int, j: int| 0 <= i < j < rest.len() implies rest[i].id != rest[j].id by {
        }
        unique_id_finds_its_market(rest, at - 1);
    }
}

/// Comparing a snapshot is comparing its parts one after the other: the
/// results come in the order of the later snapshot.
pub proof fn state_results_of_parts(
    rules: Seq<Rule>,
    initial_state: Seq<MarketView>,
    front: Seq<MarketView>,
    back: Seq<MarketView>,
)
    ensures
        state_results(rules, initial_state, front + back) == state_results(
            rules,
            initial_state,
            front,
        ) + state_results(rules, initial_state, back),
    decreases back.len(),
{
    if back.len() > 0 {
        assert((front + back).drop_last() =~= front + back.drop_last());
        state_results_of_parts(rules, initial_state, front, back.drop_last());
    }
}

/// A market that the earlier snapshot lacks yields no result, whatever the
/// rules are, and wherever it stands in the later snapshot it adds nothing
/// to the comparison.
pub proof fn unseen_market_is_silent(
    rules: Seq<Rule>,
    initial_state: Seq<MarketView>,
    front: Seq<MarketView>,
    current: MarketView,
    back: Seq<MarketView>,
)
    requires
        forall|j: int| 0 <= j < initial_state.len() ==> initial_state[j].id != current.id,
    ensures
        market_results(rules, initial_state, current) == Seq::<RuleResultView>::empty(),
        state_results(rules, initial_state, front + seq![current] + back) == state_results(
            rules,
            initial_state,
            front + back,
        ),
{
    absent_id_is_not_found(initial_state, current.id);
    state_results_of_parts(rules, initial_state, front + seq![current], back);
    state_results_of_parts(rules, initial_state, front, seq![current]);
    state_results_of_parts(rules, initial_state, front, back);
    let alone = seq![current];
    assert(state_results(rules, initial_state, alone.drop_last()) == Seq::<RuleResultView>::empty());
}

/// A market that is refused yields no result, and a market that yields a
/// result is not refused.
pub proof fn refused_market_is_silent(
    rules: Seq<Rule>,
    initial_state: Seq<MarketView>,
    current: MarketView,
)
    requires
        refused_id(initial_state, current) is Some,
    ensures
        refused_id(initial_state, current) == Some(current.id),
        market_results(rules, initial_state, current) == Seq::<RuleResultView>::empty(),
{
}

/// An identifier that no market of `state` has is not found in it.
proof fn absent_id_is_not_found(state: Seq<MarketView>, id: Seq<char>)
    requires
        forall|j: int| 0 <= j < state.len() ==> state[j].id != id,
    ensures
        find_by_id(state, id) is None,
    decreases state.len(),
{
    if state.len() > 0 {
        assert forall|j: int| 0 <= j < state.drop_first().len() implies state.drop_first()[j].id
            != id by {
        }
        absent_id_is_not_found(state.drop_first(), id);
    }
}

} // verus!
