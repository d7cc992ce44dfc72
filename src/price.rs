use vstd::prelude::*;

verus! {

/// A price with its confidence interval, decimal exponent and publish time.
#[derive(Clone, Copy, Debug, PartialEq, Eq, Structural)]
pub struct Price {
    pub price: i64,
    pub conf: u64,
    pub expo: i32,
    pub publish_time: i64,
}

/// A feed: its identifier, current price and moving-average price.
#[derive(Clone, Copy, Debug, PartialEq, Eq)]
pub struct PriceFeed {
    pub id: [u8; 32],
    pub price: Price,
    pub ema_price: Price,
}

impl PriceFeed {
    pub fn new(id: [u8; 32], price: Price, ema_price: Price) -> (r: PriceFeed)
        ensures
            r == (PriceFeed { id, price, ema_price }),
    {
        PriceFeed { id, price, ema_price }
    }

    /// The current price, whatever its age.
    pub fn get_price_unchecked(&self) -> (r: Price)
        ensures
            r == self.price,
    {
        self.price
    }
}

/// Trading status carried by a legacy attestation record.
#[derive(Clone, Copy, Debug, PartialEq, Eq, Structural)]
pub enum PriceStatus {
    Unknown,
    Trading,
    Halted,
    Auction,
    Ignored,
}

/// The fields of a legacy batch attestation record that a feed is built from.
#[derive(Clone, Copy, Debug, PartialEq, Eq)]
pub struct PriceAttestation {
    pub price_id: [u8; 32],
    pub price: i64,
    pub conf: u64,
    pub expo: i32,
    pub ema_price: i64,
    pub ema_conf: u64,
    pub status: PriceStatus,
    pub publish_time: i64,
    pub prev_publish_time: i64,
    pub prev_price: i64,
    pub prev_conf: u64,
}

/// The feed that a legacy record stands for: live values while trading, the
/// previous values otherwise; the moving average always from the live fields.
pub open spec fn feed_of_attestation(a: PriceAttestation) -> PriceFeed {
    if a.status == PriceStatus::Trading {
        PriceFeed {
            id: a.price_id,
            price: Price { price: a.price, conf: a.conf, expo: a.expo, publish_time: a.publish_time },
            ema_price: Price {
                price: a.ema_price,
                conf: a.ema_conf,
                expo: a.expo,
                publish_time: a.publish_time,
            },
        }
    } else {
        PriceFeed {
            id: a.price_id,
            price: Price {
                price: a.prev_price,
                conf: a.prev_conf,
                expo: a.expo,
                publish_time: a.prev_publish_time,
            },
            ema_price: Price {
                price: a.ema_price,
                conf: a.ema_conf,
                expo: a.expo,
                publish_time: a.prev_publish_time,
            },
        }
    }
}

pub fn create_price_feed_from_price_attestation(price_attestation: &PriceAttestation) -> (r:
    PriceFeed)
    ensures
        r == feed_of_attestation(*price_attestation),
{
    let a = price_attestation;
    match a.status {
        PriceStatus::Trading => PriceFeed::new(
            a.price_id,
            Price { price: a.price, conf: a.conf, expo: a.expo, publish_time: a.publish_time },
            Price { price: a.ema_price, conf: a.ema_conf, expo: a.expo, publish_time: a.publish_time },
        ),
        _ => PriceFeed::new(
            a.price_id,
            Price {
                price: a.prev_price,
                conf: a.prev_conf,
                expo: a.expo,
                publish_time: a.prev_publish_time,
            },
            Price {
                price: a.ema_price,
                conf: a.ema_conf,
                expo: a.expo,
                publish_time: a.prev_publish_time,
            },
        ),
    }
}

/// The feeds of a decoded legacy batch, one per record, in order.
pub fn parse_batch_attestation(price_attestations: &Vec<PriceAttestation>) -> (r: Vec<PriceFeed>)
    ensures
        r@ == price_attestations@.map_values(|a: PriceAttestation| feed_of_attestation(a)),
{
    let mut feeds: Vec<PriceFeed> = Vec::new();
    let mut i: usize = 0;
    while i < price_attestations.len()
        invariant
            i <= price_attestations@.len(),
            feeds@ == price_attestations@.take(i as int).map_values(
                |a: PriceAttestation| feed_of_attestation(a),
            ),
        decreases price_attestations.len() - i,
    {
        let feed = create_price_feed_from_price_attestation(&price_attestations[i]);
        feeds.push(feed);
        i = i + 1;
        assert(feeds@ =~= price_attestations@.take(i as int).map_values(
            |a: PriceAttestation| feed_of_attestation(a),
        ));
    }
    assert(price_attestations@.take(i as int) =~= price_attestations@);
    feeds
}

/// A record that is not trading yields its previous price as the current
/// one, and its live moving average.
pub proof fn lemma_status_fallback(a: PriceAttestation)
    requires
        a.status != PriceStatus::Trading,
    ensures
        feed_of_attestation(a).price.price == a.prev_price,
        feed_of_attestation(a).price.conf == a.prev_conf,
        feed_of_attestation(a).price.publish_time == a.prev_publish_time,
        feed_of_attestation(a).ema_price.price == a.ema_price,
        feed_of_attestation(a).ema_price.conf == a.ema_conf,
{
}

} // verus!
