//! The market listing: markets in the order of their ranks, written on
//! pages of a fixed number of lines.

use vstd::prelude::*;
use crate::gecko::{Market, MarketView, PRICE_UNIT};
use crate::model::views;
use crate::text::{decimal, decimal_text, fixed_point, format_grouped, grouped, price_text};

verus! {

/// How many markets one page of the market listing holds.
pub const PAGE_SIZE: usize = 20;

/// How many pages the market listing has at most.
pub const PAGE_LIMIT: usize = 10;

/// `sorted` with `market` put behind the last market whose rank is not
/// greater than its own.
pub open spec fn insert_by_rank(sorted: Seq<MarketView>, market: MarketView) -> Seq<MarketView>
    decreases sorted.len(),
{
    if sorted.len() == 0 || sorted.last().market_cap_rank <= market.market_cap_rank {
        sorted.push(market)
    } else {
        insert_by_rank(sorted.drop_last(), market).push(sorted.last())
    }
}

/// The markets in the order of their ranks, markets of equal rank in the
/// order in which they came.
pub open spec fn sorted_by_rank(markets: Seq<MarketView>) -> Seq<MarketView>
    decreases markets.len(),
{
    if markets.len() == 0 {
        Seq::empty()
    } else {
        insert_by_rank(sorted_by_rank(markets.drop_last()), markets.last())
    }
}

/// Whether the ranks never fall along `markets`.
pub open spec fn ordered_by_rank(markets: Seq<MarketView>) -> bool {
    forall|i: int, j: int|
        0 <= i <= j < markets.len() ==> markets[i].market_cap_rank <= markets[j].market_cap_rank
}

/// Where `insert_by_rank` puts `market`: behind the last market whose rank
/// is not greater than its own.
pub open spec fn rank_position(sorted: Seq<MarketView>, market: MarketView) -> int
    decreases sorted.len(),
{
    if sorted.len() == 0 || sorted.last().market_cap_rank <= market.market_cap_rank {
        sorted.len() as int
    } else {
        rank_position(sorted.drop_last(), market)
    }
}

/// Putting a market at the place that a scan from the end finds is putting
/// it in by rank.
proof fn insert_by_rank_at(sorted: Seq<MarketView>, market: MarketView, at: int)
    requires
        0 <= at <= sorted.len(),
        forall|k: int| at <= k < sorted.len() ==> sorted[k].market_cap_rank > market.market_cap_rank,
        at > 0 ==> sorted[at - 1].market_cap_rank <= market.market_cap_rank,
    ensures
        insert_by_rank(sorted, market) == sorted.insert(at, market),
    decreases sorted.len() - at,
{
    if at == sorted.len() {
    } else {
        insert_by_rank_at(sorted.drop_last(), market, at);
    }
}

/// `insert_by_rank` puts `market` at `rank_position`, in front of nothing
/// but markets of greater rank.
proof fn insert_by_rank_is_insert(sorted: Seq<MarketView>, market: MarketView)
    ensures
        ({
            let at = rank_position(sorted, market);
            &&& 0 <= at <= sorted.len()
            &&& forall|k: int|
                at <= k < sorted.len() ==> sorted[k].market_cap_rank > market.market_cap_rank
            &&& at > 0 ==> sorted[at - 1].market_cap_rank <= market.market_cap_rank
            &&& insert_by_rank(sorted, market) == sorted.insert(at, market)
        }),
    decreases sorted.len(),
{
    let at = rank_position(sorted, market);
    if !(sorted.len() == 0 || sorted.last().market_cap_rank <= market.market_cap_rank) {
        insert_by_rank_is_insert(sorted.drop_last(), market);
        assert forall|k: int| at <= k < sorted.len() implies sorted[k].market_cap_rank
            > market.market_cap_rank by {
            if k < sorted.len() - 1 {
                assert(sorted.drop_last()[k] == sorted[k]);
            }
        }
        if at > 0 {
        }
    }
    insert_by_rank_at(sorted, market, at);
}

/// A sequence none of whose members passes a test has nothing left after
/// filtering by that test.
proof fn filter_of_none(markets: Seq<MarketView>, test: spec_fn(MarketView) -> bool)
    requires
        forall|k: int| 0 <= k < markets.len() ==> !test(markets[k]),
    ensures
        markets.filter(test) == Seq::<MarketView>::empty(),
    decreases markets.len(),
{
    reveal(Seq::filter);
    if markets.len() > 0 {
        filter_of_none(markets.drop_last(), test);
    }
}

/// Sorting by rank yields the same markets, each as often as before, with
/// ranks that never fall.
pub proof fn sorted_by_rank_is_ordered_permutation(markets: Seq<MarketView>)
    ensures
        ordered_by_rank(sorted_by_rank(markets)),
        sorted_by_rank(markets).to_multiset() == markets.to_multiset(),
        sorted_by_rank(markets).len() == markets.len(),
    decreases markets.len(),
{
    if markets.len() > 0 {
        let earlier = sorted_by_rank(markets.drop_last());
        let market = markets.last();
        let at = rank_position(earlier, market);
        sorted_by_rank_is_ordered_permutation(markets.drop_last());
        insert_by_rank_is_insert(earlier, market);
        vstd::seq_lib::to_multiset_insert(earlier, at, market);
        vstd::seq_lib::to_multiset_build(markets.drop_last(), market);
        assert(markets.drop_last().push(market) =~= markets);
        earlier.insert_ensures(at, market);
        let sorted = earlier.insert(at, market);
        assert forall|i: int, j: int| 0 <= i <= j < sorted.len() implies sorted[i].market_cap_rank
            <= sorted[j].market_cap_rank by {
            if i < at && j == at {
            }
        }
    } else {
        assert(markets =~= Seq::<MarketView>::empty());
    }
}

/// Sorting by rank is stable: the markets of any one rank come out in the
/// order in which they went in.
pub proof fn sorted_by_rank_is_stable(markets: Seq<MarketView>, rank: u32)
    ensures
        sorted_by_rank(markets).filter(|market: MarketView| market.market_cap_rank == rank)
            == markets.filter(|market: MarketView| market.market_cap_rank == rank),
    decreases markets.len(),
{
    let of_rank = |market: MarketView| market.market_cap_rank == rank;
    reveal(Seq::filter);
    if markets.len() > 0 {
        let earlier = sorted_by_rank(markets.drop_last());
        let market = markets.last();
        let at = rank_position(earlier, market);
        sorted_by_rank_is_stable(markets.drop_last(), rank);
        insert_by_rank_is_insert(earlier, market);
        let front = earlier.subrange(0, at);
        let back = earlier.subrange(at, earlier.len() as int);
        assert(earlier =~= front + back);
        Seq::filter_distributes_over_add(front, back, of_rank);
        Seq::filter_distributes_over_add(front.push(market), back, of_rank);
        assert(front.push(market).drop_last() =~= front);
        if of_rank(market) {
            filter_of_none(back, of_rank);
        }
    }
}

/// Writes the markets in the order of their ranks.
pub fn sort_by_rank(markets: &[Market]) -> (sorted: Vec<Market>)
    ensures
        views(sorted@) == sorted_by_rank(views(markets@)),
        ordered_by_rank(views(sorted@)),
        views(sorted@).to_multiset() == views(markets@).to_multiset(),
{
    let mut sorted: Vec<Market> = Vec::new();
    let mut i: usize = 0;
    while i < markets.len()
        invariant
            i <= markets.len(),
            views(sorted@) == sorted_by_rank(views(markets@).take(i as int)),
            sorted@.len() == i,
        decreases markets.len() - i,
    {
        let rank: u32 = markets[i].market_cap_rank;
        let mut at: usize = sorted.len();
        while at > 0 && sorted[at - 1].market_cap_rank > rank
            invariant
                at <= sorted.len(),
                forall|k: int| at <= k < sorted.len() ==> sorted@[k].market_cap_rank > rank,
            decreases at,
        {
            at -= 1;
        }
        let market = markets[i].clone();
        proof {
            insert_by_rank_at(views(sorted@), market@, at as int);
            assert(views(markets@).take(i + 1).drop_last() =~= views(markets@).take(i as int));
        }
        sorted.insert(at, market);
        i += 1;
    }
    proof {
        assert(views(markets@).take(markets.len() as int) =~= views(markets@));
        sorted_by_rank_is_ordered_permutation(views(markets@));
    }
    sorted
}

/// One line of the market listing.
pub open spec fn market_line(market: MarketView) -> Seq<char> {
    "["@ + decimal(market.market_cap_rank as nat) + "] "@ + market.id + " [CURRENT_PRICE] $"@
        + fixed_point(market.current_price as nat, PRICE_UNIT as nat) + " [MARKET_CAP] $"@
        + grouped(market.market_cap as nat)
}

/// The lines of the given markets, each closed by a line feed.
pub open spec fn page_lines(markets: Seq<MarketView>) -> Seq<char>
    decreases markets.len(),
{
    if markets.len() == 0 {
        Seq::empty()
    } else {
        page_lines(markets.drop_last()) + market_line(markets.last()) + "\n"@
    }
}

/// The text of one page of the listing: the lines of its markets inside a
/// code block.
pub open spec fn page_content(markets: Seq<MarketView>) -> Seq<char> {
    "```css\n\n"@ + page_lines(markets) + "```"@
}

/// The number of pages that a listing of `len` markets has.
pub open spec fn page_count(len: nat) -> nat {
    if len >= PAGE_SIZE * PAGE_LIMIT {
        PAGE_LIMIT as nat
    } else {
        ((len + PAGE_SIZE - 1) / (PAGE_SIZE as int)) as nat
    }
}

/// The markets on page `k` of a listing.
pub open spec fn page(listing: Seq<MarketView>, k: int) -> Seq<MarketView> {
    listing.subrange(
        k * PAGE_SIZE,
        if (k + 1) * PAGE_SIZE <= listing.len() {
            (k + 1) * PAGE_SIZE
        } else {
            listing.len() as int
        },
    )
}

/// Writes one line of the market listing.
pub fn render_market_line(market: &Market) -> (line: String)
    ensures
        line@ == market_line(market@),
{
    let mut line = String::from_str("[");
    line.append(decimal_text(market.market_cap_rank as u128).as_str());
    line.append("] ");
    line.append(market.id.as_str());
    line.append(" [CURRENT_PRICE] $");
    line.append(price_text(market.current_price).as_str());
    line.append(" [MARKET_CAP] $");
    line.append(format_grouped(market.market_cap).as_str());
    line
}

/// Writes the page that lists the given markets.
pub fn render_page(markets: &[Market]) -> (content: String)
    ensures
        content@ == page_content(views(markets@)),
{
    let mut content = String::from_str("```css\n\n");
    let mut i: usize = 0;
    while i < markets.len()
        invariant
            i <= markets.len(),
            content@ == "```css\n\n"@ + page_lines(views(markets@).take(i as int)),
        decreases markets.len() - i,
    {
        proof {
            assert(views(markets@).take(i + 1).drop_last() =~= views(markets@).take(i as int));
        }
        content.append(render_market_line(&markets[i]).as_str());
        content.append("\n");
        i += 1;
    }
    proof {
        assert(views(markets@).take(markets.len() as int) =~= views(markets@));
    }
    content.append("```");
    content
}

/// A listing has no more than `PAGE_LIMIT` pages, and a page no more than
/// `PAGE_SIZE` markets.
pub proof fn pages_are_bounded(listing: Seq<MarketView>, k: int)
    requires
        0 <= k < page_count(listing.len()),
    ensures
        page_count(listing.len()) <= PAGE_LIMIT,
        0 < page(listing, k).len() <= PAGE_SIZE,
{
}

} // verus!
