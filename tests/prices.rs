use pyth_cosmwasm::error::ContractError;
use pyth_cosmwasm::price::{
    create_price_feed_from_price_attestation, parse_batch_attestation, Price, PriceAttestation,
    PriceFeed, PriceStatus,
};
use pyth_cosmwasm::query::{query_parse_price_feed_updates, query_parse_single_price_feed_update};

fn feed(id: u8, price: i64, time: i64) -> PriceFeed {
    PriceFeed::new(
        [id; 32],
        Price { price, conf: 1, expo: -8, publish_time: time },
        Price { price: price + 1, conf: 2, expo: -8, publish_time: time },
    )
}

fn attestation(status: PriceStatus) -> PriceAttestation {
    PriceAttestation {
        price_id: [7; 32],
        price: 100,
        conf: 5,
        expo: -2,
        ema_price: 90,
        ema_conf: 4,
        status,
        publish_time: 1000,
        prev_publish_time: 900,
        prev_price: 80,
        prev_conf: 3,
    }
}

#[test]
fn trading_record_uses_live_fields() {
    let f = create_price_feed_from_price_attestation(&attestation(PriceStatus::Trading));
    assert_eq!(f.id, [7; 32]);
    assert_eq!(f.price, Price { price: 100, conf: 5, expo: -2, publish_time: 1000 });
    assert_eq!(f.ema_price, Price { price: 90, conf: 4, expo: -2, publish_time: 1000 });
}

#[test]
fn non_trading_record_falls_back_to_previous_price() {
    for status in [PriceStatus::Unknown, PriceStatus::Halted, PriceStatus::Auction, PriceStatus::Ignored] {
        let f = create_price_feed_from_price_attestation(&attestation(status));
        assert_eq!(f.price, Price { price: 80, conf: 3, expo: -2, publish_time: 900 });
        assert_eq!(f.ema_price, Price { price: 90, conf: 4, expo: -2, publish_time: 900 });
    }
}

#[test]
fn batch_maps_each_record_in_order() {
    let feeds = parse_batch_attestation(&vec![
        attestation(PriceStatus::Trading),
        attestation(PriceStatus::Halted),
    ]);
    assert_eq!(feeds.len(), 2);
    assert_eq!(feeds[0].price.price, 100);
    assert_eq!(feeds[1].price.price, 80);
    assert!(parse_batch_attestation(&vec![]).is_empty());
}

#[test]
fn multi_feed_returns_requested_order() {
    let updates = vec![vec![feed(1, 10, 50), feed(2, 20, 50)], vec![feed(3, 30, 60)]];
    let r = query_parse_price_feed_updates(&updates, &vec![[3; 32], [1; 32], [2; 32]], 50, 60).unwrap();
    assert_eq!(r.price_feeds, vec![feed(3, 30, 60), feed(1, 10, 50), feed(2, 20, 50)]);
}

#[test]
fn multi_feed_missing_one_is_incomplete() {
    let updates = vec![vec![feed(1, 10, 50), feed(2, 20, 50)]];
    let r = query_parse_price_feed_updates(&updates, &vec![[1; 32], [2; 32], [3; 32]], 0, 100);
    assert_eq!(r, Err(ContractError::IncompleteResult));
}

#[test]
fn multi_feed_window_is_inclusive_and_first_match_wins() {
    let updates = vec![
        vec![feed(1, 10, 49), feed(1, 11, 50)],
        vec![feed(1, 12, 55), feed(2, 20, 61), feed(2, 21, 60)],
    ];
    let r = query_parse_price_feed_updates(&updates, &vec![[1; 32], [2; 32], [1; 32]], 50, 60).unwrap();
    assert_eq!(r.price_feeds, vec![feed(1, 11, 50), feed(2, 21, 60), feed(1, 11, 50)]);
    let r = query_parse_price_feed_updates(&updates, &vec![[2; 32]], 62, 70);
    assert_eq!(r, Err(ContractError::IncompleteResult));
}

#[test]
fn multi_feed_with_no_ids_is_empty() {
    let r = query_parse_price_feed_updates(&vec![], &vec![], 0, 0).unwrap();
    assert!(r.price_feeds.is_empty());
}

#[test]
fn single_feed_window_is_exclusive() {
    let feeds = vec![feed(1, 10, 50)];
    assert_eq!(query_parse_single_price_feed_update(&feeds, &[1; 32], 49, 51).unwrap().price.price, 10);
    assert_eq!(
        query_parse_single_price_feed_update(&feeds, &[1; 32], 50, 51),
        Err(ContractError::PriceNotFound)
    );
    assert_eq!(
        query_parse_single_price_feed_update(&feeds, &[1; 32], 49, 50),
        Err(ContractError::PriceNotFound)
    );
}

#[test]
fn single_feed_fails_on_first_non_matching_feed() {
    let feeds = vec![feed(2, 20, 50), feed(1, 10, 50)];
    assert_eq!(
        query_parse_single_price_feed_update(&feeds, &[1; 32], 0, 100),
        Err(ContractError::PriceNotFound)
    );
}

#[test]
fn single_feed_on_empty_update_is_default_price() {
    let r = query_parse_single_price_feed_update(&vec![], &[1; 32], 0, 100).unwrap();
    assert_eq!(r.price, Price { price: 0, conf: 0, expo: 0, publish_time: 0 });
}
