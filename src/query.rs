use vstd::prelude::*;

use crate::error::ContractError;
use crate::msg::{ParsePriceFeedsResponse, ParseSinglePriceFeedResponse};
use crate::price::{Price, PriceFeed};

verus! {

/// The feeds of all updates, update by update, each in its own order.
pub open spec fn all_feeds(updates: Seq<Vec<PriceFeed>>) -> Seq<PriceFeed>
    decreases updates.len(),
{
    if updates.len() == 0 {
        Seq::empty()
    } else {
        all_feeds(updates.drop_last()) + updates.last()@
    }
}

/// The current price of `f` was published within `[min, max]`.
pub open spec fn in_window(f: PriceFeed, min: i64, max: i64) -> bool {
    min <= f.price.publish_time <= max
}

/// The first feed of `feeds` with identifier `id` and a publish time within
/// `[min, max]`.
pub open spec fn first_match(feeds: Seq<PriceFeed>, id: Seq<u8>, min: i64, max: i64) -> Option<
    PriceFeed,
>
    decreases feeds.len(),
{
    if feeds.len() == 0 {
        None
    } else if feeds[0].id@ == id && in_window(feeds[0], min, max) {
        Some(feeds[0])
    } else {
        first_match(feeds.drop_first(), id, min, max)
    }
}

/// Every requested identifier has a feed within the window.
pub open spec fn all_found(feeds: Seq<PriceFeed>, ids: Seq<[u8; 32]>, min: i64, max: i64) -> bool {
    forall|i: int| 0 <= i < ids.len() ==> (#[trigger] first_match(feeds, ids[i]@, min, max)) is Some
}

/// What the single-feed query gives: only the first feed is looked at, and
/// its publish time must lie strictly inside the window.
pub open spec fn single_feed_outcome(feeds: Seq<PriceFeed>, id: Seq<u8>, min: i64, max: i64) -> Result<
    Price,
    ContractError,
> {
    if feeds.len() == 0 {
        Ok(Price { price: 0, conf: 0, expo: 0, publish_time: 0 })
    } else if feeds[0].id@ == id && min < feeds[0].price.publish_time < max {
        Ok(feeds[0].price)
    } else {
        Err(ContractError::PriceNotFound)
    }
}

pub fn ids_eq(a: &[u8; 32], b: &[u8; 32]) -> (r: bool)
    ensures
        r == (a@ == b@),
{
    let mut i: usize = 0;
    while i < 32
        invariant
            i <= 32,
            a@.len() == 32,
            b@.len() == 32,
            forall|j: int| 0 <= j < i ==> a@[j] == b@[j],
        decreases 32 - i,
    {
        if a[i] != b[i] {
            return false;
        }
        i = i + 1;
    }
    assert(a@ =~= b@);
    true
}

fn concat_updates(updates: &Vec<Vec<PriceFeed>>) -> (r: Vec<PriceFeed>)
    ensures
        r@ == all_feeds(updates@),
{
    let mut r: Vec<PriceFeed> = Vec::new();
    let mut i: usize = 0;
    while i < updates.len()
        invariant
            i <= updates@.len(),
            r@ == all_feeds(updates@.take(i as int)),
        decreases updates.len() - i,
    {
        let feeds = &updates[i];
        let ghost before = r@;
        let mut j: usize = 0;
        while j < feeds.len()
            invariant
                j <= feeds@.len(),
                r@ == before + feeds@.take(j as int),
            decreases feeds.len() - j,
        {
            r.push(feeds[j]);
            j = j + 1;
            assert(r@ =~= before + feeds@.take(j as int));
        }
        assert(feeds@.take(j as int) =~= feeds@);
        assert(updates@.take(i + 1).drop_last() =~= updates@.take(i as int));
        i = i + 1;
    }
    assert(updates@.take(i as int) =~= updates@);
    r
}

fn find_first(feeds: &Vec<PriceFeed>, id: &[u8; 32], min: i64, max: i64) -> (r: Option<PriceFeed>)
    ensures
        r == first_match(feeds@, id@, min, max),
{
    let mut k: usize = 0;
    assert(feeds@.subrange(0, feeds@.len() as int) =~= feeds@);
    while k < feeds.len()
        invariant
            k <= feeds@.len(),
            first_match(feeds@, id@, min, max) == first_match(
                feeds@.subrange(k as int, feeds@.len() as int),
                id@,
                min,
                max,
            ),
        decreases feeds.len() - k,
    {
        let f = feeds[k];
        let ghost rest = feeds@.subrange(k as int, feeds@.len() as int);
        assert(rest[0] == f);
        assert(rest.drop_first() =~= feeds@.subrange(k + 1, feeds@.len() as int));
        if ids_eq(&f.id, id) && min <= f.price.publish_time && f.price.publish_time <= max {
            return Some(f);
        }
        k = k + 1;
    }
    None
}

/// For each requested identifier, the first feed over all updates with that
/// identifier and a publish time within `[min_publish_time,
/// max_publish_time]`; fails unless every identifier has one.
pub fn query_parse_price_feed_updates(
    updates: &Vec<Vec<PriceFeed>>,
    price_feeds: &Vec<[u8; 32]>,
    min_publish_time: i64,
    max_publish_time: i64,
) -> (r: Result<ParsePriceFeedsResponse, ContractError>)
    ensures
        all_found(all_feeds(updates@), price_feeds@, min_publish_time, max_publish_time) ==> {
            &&& r is Ok
            &&& r->Ok_0.price_feeds@.len() == price_feeds@.len()
            &&& forall|i: int|
                0 <= i < price_feeds@.len() ==> #[trigger] r->Ok_0.price_feeds@[i] == first_match(
                    all_feeds(updates@),
                    price_feeds@[i]@,
                    min_publish_time,
                    max_publish_time,
                )->Some_0
        },
        !all_found(all_feeds(updates@), price_feeds@, min_publish_time, max_publish_time) ==> r
            == Err::<ParsePriceFeedsResponse, ContractError>(ContractError::IncompleteResult),
{
    let feeds = concat_updates(updates);
    let ghost all = all_feeds(updates@);
    let mut found: Vec<PriceFeed> = Vec::new();
    let mut i: usize = 0;
    while i < price_feeds.len()
        invariant
            feeds@ == all,
            all == all_feeds(updates@),
            i <= price_feeds@.len(),
            found@.len() == i,
            forall|j: int|
                0 <= j < i ==> (#[trigger] first_match(all, price_feeds@[j]@, min_publish_time, max_publish_time))
                    == Some(found@[j]),
        decreases price_feeds.len() - i,
    {
        match find_first(&feeds, &price_feeds[i], min_publish_time, max_publish_time) {
            Some(f) => found.push(f),
            None => {
                assert(first_match(all, price_feeds@[i as int]@, min_publish_time, max_publish_time) is None);
                assert(!all_found(all_feeds(updates@), price_feeds@, min_publish_time, max_publish_time));
                return Err(ContractError::IncompleteResult);
            },
        }
        i = i + 1;
    }
    Ok(ParsePriceFeedsResponse { price_feeds: found })
}

/// Looks at the first feed of an update only: it must carry `price_feed`
/// and a publish time strictly between the bounds.
pub fn query_parse_single_price_feed_update(
    feeds: &Vec<PriceFeed>,
    price_feed: &[u8; 32],
    min_publish_time: i64,
    max_publish_time: i64,
) -> (r: Result<ParseSinglePriceFeedResponse, ContractError>)
    ensures
        match single_feed_outcome(feeds@, price_feed@, min_publish_time, max_publish_time) {
            Ok(p) => r == Ok::<ParseSinglePriceFeedResponse, ContractError>(
                ParseSinglePriceFeedResponse { price: p },
            ),
            Err(e) => r == Err::<ParseSinglePriceFeedResponse, ContractError>(e),
        },
{
    if feeds.len() == 0 {
        return Ok(
            ParseSinglePriceFeedResponse {
                price: Price { price: 0, conf: 0, expo: 0, publish_time: 0 },
            },
        );
    }
    let feed = feeds[0];
    let feed_price = feed.get_price_unchecked();
    if ids_eq(&feed.id, price_feed) && feed_price.publish_time > min_publish_time
        && feed_price.publish_time < max_publish_time {
        Ok(ParseSinglePriceFeedResponse { price: feed_price })
    } else {
        Err(ContractError::PriceNotFound)
    }
}

} // verus!
