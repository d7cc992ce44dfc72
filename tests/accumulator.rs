use byteorder::BigEndian;
use pythnet_sdk::accumulators::merkle::{MerklePath, MerkleTree};
use pythnet_sdk::hashers::keccak256_160::Keccak160;
use pythnet_sdk::messages::{Message, PriceFeedMessage, TwapMessage};
use pythnet_sdk::wire::to_vec;
use pythnet_sdk::wire::v1::{
    AccumulatorUpdateData, MerklePriceUpdate, Proof, WormholeMerkleRoot, WormholeMessage,
    WormholePayload, PYTHNET_ACCUMULATOR_UPDATE_MAGIC,
};
use pyth_cosmwasm::accumulator::{
    is_accumulator_update, parse_accumulator, parse_accumulator_data, verify_merkle_proof,
    MerkleUpdate,
};
use pyth_cosmwasm::error::ContractError;
use pyth_cosmwasm::price::Price;
use pyth_cosmwasm::state::{ConfigInfo, ParsedVaa, PythDataSource};

fn price_message(id: u8, price: i64) -> Vec<u8> {
    to_vec::<_, BigEndian>(&Message::PriceFeedMessage(PriceFeedMessage {
        feed_id: [id; 32],
        price,
        conf: 3,
        exponent: -5,
        publish_time: 77,
        prev_publish_time: 70,
        ema_price: price - 1,
        ema_conf: 4,
    }))
    .unwrap()
}

fn twap_message() -> Vec<u8> {
    to_vec::<_, BigEndian>(&Message::TwapMessage(TwapMessage {
        feed_id: [1; 32],
        cumulative_price: 1,
        cumulative_conf: 1,
        num_down_slots: 0,
        exponent: 0,
        publish_time: 1,
        prev_publish_time: 0,
        publish_slot: 1,
    }))
    .unwrap()
}

struct Tree {
    root: [u8; 20],
    proofs: Vec<Vec<[u8; 20]>>,
}

fn tree(messages: &[Vec<u8>]) -> Tree {
    let items: Vec<&[u8]> = messages.iter().map(|m| m.as_slice()).collect();
    let t = MerkleTree::<Keccak160>::new(&items).unwrap();
    let leaves = messages.len().next_power_of_two();
    let proofs = (0..messages.len()).map(|i| t.find_path(leaves + i).to_vec()).collect();
    Tree { root: t.root.as_bytes().try_into().unwrap(), proofs }
}

fn root_payload(root: [u8; 20]) -> Vec<u8> {
    to_vec::<_, BigEndian>(&WormholeMessage::new(WormholePayload::Merkle(WormholeMerkleRoot {
        slot: 1,
        ring_size: 2,
        root,
    })))
    .unwrap()
}

fn config() -> ConfigInfo {
    ConfigInfo {
        wormhole_contract: "w".to_string(),
        data_sources: vec![PythDataSource { emitter: vec![1; 32], chain_id: 26 }],
        chain_id: 3,
        governance_source: PythDataSource { emitter: vec![2; 32], chain_id: 1 },
        governance_source_index: 0,
        governance_sequence_number: 0,
    }
}

fn vaa(payload: Vec<u8>) -> ParsedVaa {
    ParsedVaa { emitter_address: vec![1; 32], emitter_chain: 26, sequence: 1, payload }
}

#[test]
fn magic_selects_accumulator_format() {
    assert_eq!(PYTHNET_ACCUMULATOR_UPDATE_MAGIC, b"PNAU");
    assert!(is_accumulator_update(b"PNAU\x01"));
    assert!(is_accumulator_update(b"PNAU"));
    assert!(!is_accumulator_update(b"PNA"));
    assert!(!is_accumulator_update(b"P2WH\x00"));
}

#[test]
fn merkle_proofs_verify_and_bit_flips_fail() {
    let messages = vec![price_message(1, 10), price_message(2, 20), price_message(3, 30)];
    let t = tree(&messages);
    for (i, m) in messages.iter().enumerate() {
        assert!(verify_merkle_proof(&t.root, &t.proofs[i], m));
        for bit in [0usize, 7, 100] {
            let mut flipped = m.clone();
            flipped[bit / 8] ^= 1 << (bit % 8);
            assert!(!verify_merkle_proof(&t.root, &t.proofs[i], &flipped));
        }
        let mut bad_proof = t.proofs[i].clone();
        bad_proof[0][5] ^= 0x10;
        assert!(!verify_merkle_proof(&t.root, &bad_proof, m));
        let mut bad_root = t.root;
        bad_root[19] ^= 1;
        assert!(!verify_merkle_proof(&bad_root, &t.proofs[i], m));
    }
}

#[test]
fn accumulator_blob_round_trips_through_decoder() {
    let messages = vec![price_message(1, 10), price_message(2, 20)];
    let t = tree(&messages);
    let updates = messages
        .iter()
        .zip(t.proofs.iter())
        .map(|(m, p)| MerklePriceUpdate {
            message: m.clone().into(),
            proof: MerklePath::new(p.clone()),
        })
        .collect();
    let blob = to_vec::<_, BigEndian>(&AccumulatorUpdateData::new(Proof::WormholeMerkle {
        vaa: vec![9u8, 8, 7].into(),
        updates,
    }))
    .unwrap();
    assert!(is_accumulator_update(&blob));
    let decoded = parse_accumulator_data(&blob).unwrap();
    assert_eq!(decoded.vaa, vec![9, 8, 7]);
    assert_eq!(decoded.updates.len(), 2);
    assert_eq!(decoded.updates[1].message, messages[1]);
    assert_eq!(decoded.updates[1].proof, t.proofs[1]);

    let feeds = parse_accumulator(&config(), &vaa(root_payload(t.root)), &decoded.updates).unwrap();
    assert_eq!(feeds.len(), 2);
    assert_eq!(feeds[1].id, [2; 32]);
    assert_eq!(feeds[1].price, Price { price: 20, conf: 3, expo: -5, publish_time: 77 });
    assert_eq!(feeds[1].ema_price, Price { price: 19, conf: 4, expo: -5, publish_time: 77 });
}

#[test]
fn accumulator_garbage_is_rejected() {
    assert_eq!(parse_accumulator_data(b"PNAU\x07"), Err(ContractError::InvalidAccumulatorPayload));
    assert_eq!(parse_accumulator_data(b""), Err(ContractError::InvalidAccumulatorPayload));
}

#[test]
fn accumulator_refusals() {
    let messages = vec![price_message(1, 10), twap_message(), vec![9, 9]];
    let t = tree(&messages);
    let upd = |i: usize| MerkleUpdate { message: messages[i].clone(), proof: t.proofs[i].clone() };
    let good = vaa(root_payload(t.root));

    let mut stranger = good.clone();
    stranger.emitter_chain = 27;
    assert_eq!(parse_accumulator(&config(), &stranger, &vec![upd(0)]), Err(ContractError::UnauthorizedSource));
    assert_eq!(
        parse_accumulator(&config(), &vaa(vec![1, 2, 3]), &vec![upd(0)]),
        Err(ContractError::InvalidWormholeMessage)
    );
    let mut forged = upd(0);
    forged.message[40] ^= 1;
    assert_eq!(parse_accumulator(&config(), &good, &vec![upd(0), forged]), Err(ContractError::InvalidProof));
    assert_eq!(
        parse_accumulator(&config(), &good, &vec![upd(0), upd(1)]),
        Err(ContractError::UnsupportedMessageType)
    );
    assert_eq!(
        parse_accumulator(&config(), &good, &vec![upd(2), upd(0)]),
        Err(ContractError::InvalidAccumulatorMessage)
    );
    assert_eq!(parse_accumulator(&config(), &good, &vec![]).unwrap().len(), 0);
}
