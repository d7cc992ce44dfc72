use vstd::prelude::*;

use pythnet_sdk::accumulators::merkle::{MerklePath, MerkleRoot};
use pythnet_sdk::hashers::keccak256_160::Keccak160;
use pythnet_sdk::messages::Message;
use pythnet_sdk::wire::from_slice;
use pythnet_sdk::wire::v1::{
    AccumulatorUpdateData, Proof, WormholeMessage, WormholePayload,
    PYTHNET_ACCUMULATOR_UPDATE_MAGIC,
};

use crate::error::ContractError;
use crate::price::{Price, PriceFeed};
use crate::state::{verify_vaa_from_data_source, ConfigInfo, ParsedVaa};

verus! {

/// One leaf of an accumulator update: a serialized message and the sibling
/// hashes that lead from it to the root.
#[derive(Clone, Debug, PartialEq, Eq)]
pub struct MerkleUpdate {
    pub message: Vec<u8>,
    pub proof: Vec<[u8; 20]>,
}

pub open spec fn proof_view(p: Seq<[u8; 20]>) -> Seq<Seq<u8>> {
    p.map_values(|h: [u8; 20]| h@)
}

impl View for MerkleUpdate {
    type V = (Seq<u8>, Seq<Seq<u8>>);

    open spec fn view(&self) -> (Seq<u8>, Seq<Seq<u8>>) {
        (self.message@, proof_view(self.proof@))
    }
}

/// A decoded accumulator update: the signed envelope and its leaves.
#[derive(Clone, Debug, PartialEq, Eq)]
pub struct AccumulatorUpdate {
    pub vaa: Vec<u8>,
    pub updates: Vec<MerkleUpdate>,
}

impl View for AccumulatorUpdate {
    type V = (Seq<u8>, Seq<(Seq<u8>, Seq<Seq<u8>>)>);

    open spec fn view(&self) -> (Seq<u8>, Seq<(Seq<u8>, Seq<Seq<u8>>)>) {
        (self.vaa@, self.updates@.map_values(|u: MerkleUpdate| u@))
    }
}

/// The price fields of an accumulator price feed message.
#[derive(Clone, Copy, Debug, PartialEq, Eq)]
pub struct PriceFeedMessage {
    pub feed_id: [u8; 32],
    pub price: i64,
    pub conf: u64,
    pub exponent: i32,
    pub publish_time: i64,
    pub prev_publish_time: i64,
    pub ema_price: i64,
    pub ema_conf: u64,
}

/// An accumulator leaf, decoded.
#[derive(Clone, Copy, Debug, PartialEq, Eq)]
pub enum AccumulatorMessage {
    PriceFeed(PriceFeedMessage),
    /// A message of another type.
    Other,
    /// Bytes that do not decode as a message.
    Invalid,
}

/// What the accumulator wire decoder makes of an update blob.
pub uninterp spec fn accumulator_update_of(data: Seq<u8>) -> Option<
    (Seq<u8>, Seq<(Seq<u8>, Seq<Seq<u8>>)>),
>;

/// The Merkle root that a verified envelope payload commits to.
pub uninterp spec fn merkle_root_of(payload: Seq<u8>) -> Option<Seq<u8>>;

/// The proof leads from the leaf to the root under the fixed hash construction.
pub uninterp spec fn merkle_proof_holds(root: Seq<u8>, proof: Seq<Seq<u8>>, leaf: Seq<u8>) -> bool;

/// What the message wire decoder makes of a leaf.
pub uninterp spec fn accumulator_message_of(bytes: Seq<u8>) -> AccumulatorMessage;

/// The magic that opens an accumulator update: ASCII "PNAU".
pub open spec fn accumulator_magic() -> Seq<u8> {
    seq![0x50u8, 0x4eu8, 0x41u8, 0x55u8]
}

/// Relies on pythnet_sdk's PYTHNET_ACCUMULATOR_UPDATE_MAGIC, the bytes "PNAU".
#[verifier::external_body]
fn accumulator_update_magic() -> (r: [u8; 4])
    ensures
        r@ == accumulator_magic(),
{
    *PYTHNET_ACCUMULATOR_UPDATE_MAGIC
}

/// Relies on pythnet_sdk's AccumulatorUpdateData::try_from_slice: the envelope
/// and the (message, proof) pairs of a blob, or nothing where it does not decode.
#[verifier::external_body]
fn decode_accumulator_update(data: &[u8]) -> (r: Option<AccumulatorUpdate>)
    ensures
        match accumulator_update_of(data@) {
            None => r is None,
            Some(u) => r is Some && r->Some_0@ == u,
        },
{
    match AccumulatorUpdateData::try_from_slice(data) {
        Ok(d) => match d.proof {
            Proof::WormholeMerkle { vaa, updates } => Some(AccumulatorUpdate {
                vaa: Vec::from(vaa),
                updates: updates
                    .into_iter()
                    .map(|u| MerkleUpdate { message: Vec::from(u.message), proof: u.proof.to_vec() })
                    .collect(),
            }),
        },
        Err(_) => None,
    }
}

/// Relies on pythnet_sdk's WormholeMessage::try_from_bytes: the Merkle root
/// carried by an envelope payload, or nothing where it does not decode.
#[verifier::external_body]
fn decode_merkle_root(payload: &[u8]) -> (r: Option<[u8; 20]>)
    ensures
        match merkle_root_of(payload@) {
            None => r is None,
            Some(root) => r is Some && r->Some_0@ == root,
        },
{
    match WormholeMessage::try_from_bytes(payload) {
        Ok(m) => match m.payload {
            WormholePayload::Merkle(root) => Some(root.root),
        },
        Err(_) => None,
    }
}

/// Relies on pythnet_sdk's MerkleRoot::<Keccak160>::check: whether the proof
/// leads from the leaf to the root.
#[verifier::external_body]
fn merkle_check(root: &[u8; 20], proof: &Vec<[u8; 20]>, leaf: &[u8]) -> (r: bool)
    ensures
        r == merkle_proof_holds(root@, proof_view(proof@), leaf@),
{
    MerkleRoot::<Keccak160>::new(*root).check(MerklePath::new(proof.clone()), leaf)
}

/// Relies on pythnet_sdk's wire::from_slice::<BigEndian, Message>: the message
/// that a leaf encodes, in big-endian wire order.
#[verifier::external_body]
fn decode_message(bytes: &[u8]) -> (r: AccumulatorMessage)
    ensures
        r == accumulator_message_of(bytes@),
{
    match from_slice::<byteorder::BigEndian, Message>(bytes) {
        Ok(Message::PriceFeedMessage(m)) => AccumulatorMessage::PriceFeed(PriceFeedMessage {
            feed_id: m.feed_id,
            price: m.price,
            conf: m.conf,
            exponent: m.exponent,
            publish_time: m.publish_time,
            prev_publish_time: m.prev_publish_time,
            ema_price: m.ema_price,
            ema_conf: m.ema_conf,
        }),
        Ok(_) => AccumulatorMessage::Other,
        Err(_) => AccumulatorMessage::Invalid,
    }
}

/// The update blob opens with the accumulator magic.
pub fn is_accumulator_update(data: &[u8]) -> (r: bool)
    ensures
        r == (data@.len() >= 4 && data@.subrange(0, 4) == accumulator_magic()),
{
    if data.len() < 4 {
        return false;
    }
    let magic = accumulator_update_magic();
    let r = data[0] == magic[0] && data[1] == magic[1] && data[2] == magic[2] && data[3] == magic[3];
    proof {
        if r {
            assert(data@.subrange(0, 4) =~= accumulator_magic());
        } else {
            assert(magic@ == accumulator_magic());
            if data@.subrange(0, 4) == accumulator_magic() {
                assert(data@.subrange(0, 4)[0] == data@[0]);
                assert(data@.subrange(0, 4)[1] == data@[1]);
                assert(data@.subrange(0, 4)[2] == data@[2]);
                assert(data@.subrange(0, 4)[3] == data@[3]);
            }
        }
    }
    r
}

/// Decodes an accumulator update blob into its envelope and leaves.
pub fn parse_accumulator_data(data: &[u8]) -> (r: Result<AccumulatorUpdate, ContractError>)
    ensures
        match accumulator_update_of(data@) {
            None => r == Err::<AccumulatorUpdate, ContractError>(
                ContractError::InvalidAccumulatorPayload,
            ),
            Some(u) => r is Ok && r->Ok_0@ == u,
        },
{
    match decode_accumulator_update(data) {
        Some(u) => Ok(u),
        None => Err(ContractError::InvalidAccumulatorPayload),
    }
}

/// Whether `proof` leads from `leaf` to `root`.
pub fn verify_merkle_proof(root: &[u8; 20], proof: &Vec<[u8; 20]>, leaf: &[u8]) -> (r: bool)
    ensures
        r == merkle_proof_holds(root@, proof_view(proof@), leaf@),
{
    merkle_check(root, proof, leaf)
}

/// The feed that an accumulator price message stands for.
pub open spec fn feed_of_message(m: PriceFeedMessage) -> PriceFeed {
    PriceFeed {
        id: m.feed_id,
        price: Price {
            price: m.price,
            conf: m.conf,
            expo: m.exponent,
            publish_time: m.publish_time,
        },
        ema_price: Price {
            price: m.ema_price,
            conf: m.ema_conf,
            expo: m.exponent,
            publish_time: m.publish_time,
        },
    }
}

pub fn price_feed_from_message(m: &PriceFeedMessage) -> (r: PriceFeed)
    ensures
        r == feed_of_message(*m),
{
    PriceFeed::new(
        m.feed_id,
        Price { price: m.price, conf: m.conf, expo: m.exponent, publish_time: m.publish_time },
        Price { price: m.ema_price, conf: m.ema_conf, expo: m.exponent, publish_time: m.publish_time },
    )
}

/// What one leaf gives under a trusted root: its feed, or why it is refused.
pub open spec fn leaf_outcome(root: Seq<u8>, u: (Seq<u8>, Seq<Seq<u8>>)) -> Result<
    PriceFeed,
    ContractError,
> {
    if !merkle_proof_holds(root, u.1, u.0) {
        Err(ContractError::InvalidProof)
    } else {
        match accumulator_message_of(u.0) {
            AccumulatorMessage::PriceFeed(m) => Ok(feed_of_message(m)),
            AccumulatorMessage::Other => Err(ContractError::UnsupportedMessageType),
            AccumulatorMessage::Invalid => Err(ContractError::InvalidAccumulatorMessage),
        }
    }
}

/// The feeds of all leaves in order, or the refusal of the first leaf refused.
pub open spec fn leaves_outcome(root: Seq<u8>, us: Seq<(Seq<u8>, Seq<Seq<u8>>)>) -> Result<
    Seq<PriceFeed>,
    ContractError,
>
    decreases us.len(),
{
    if us.len() == 0 {
        Ok(Seq::empty())
    } else {
        match leaves_outcome(root, us.drop_last()) {
            Err(e) => Err(e),
            Ok(fs) => match leaf_outcome(root, us.last()) {
                Err(e) => Err(e),
                Ok(f) => Ok(fs.push(f)),
            },
        }
    }
}

proof fn lemma_refusal_persists(root: Seq<u8>, us: Seq<(Seq<u8>, Seq<Seq<u8>>)>, i: int)
    requires
        0 <= i <= us.len(),
        leaves_outcome(root, us.take(i)) is Err,
    ensures
        leaves_outcome(root, us) == leaves_outcome(root, us.take(i)),
    decreases us.len() - i,
{
    if i < us.len() {
        assert(us.take(i + 1).drop_last() =~= us.take(i));
        lemma_refusal_persists(root, us, i + 1);
    } else {
        assert(us.take(i) =~= us);
    }
}

/// What an accumulator update gives once its envelope has been verified:
/// the envelope must come from a price data source and carry a root, and
/// every leaf must prove against that root and be a price feed message.
pub open spec fn accumulator_outcome(
    config: ConfigInfo,
    vaa: ParsedVaa,
    us: Seq<(Seq<u8>, Seq<Seq<u8>>)>,
) -> Result<Seq<PriceFeed>, ContractError> {
    if !config.source_set().contains(vaa.source()) {
        Err(ContractError::UnauthorizedSource)
    } else {
        match merkle_root_of(vaa.payload@) {
            None => Err(ContractError::InvalidWormholeMessage),
            Some(root) => leaves_outcome(root, us),
        }
    }
}

/// The feeds of an accumulator update whose envelope `vaa` the envelope
/// verifier has accepted; all leaves are admitted or the call fails.
pub fn parse_accumulator(config: &ConfigInfo, vaa: &ParsedVaa, updates: &Vec<MerkleUpdate>) -> (r:
    Result<Vec<PriceFeed>, ContractError>)
    ensures
        match accumulator_outcome(*config, *vaa, updates@.map_values(|u: MerkleUpdate| u@)) {
            Ok(fs) => r is Ok && r->Ok_0@ == fs,
            Err(e) => r == Err::<Vec<PriceFeed>, ContractError>(e),
        },
{
    let ghost us = updates@.map_values(|u: MerkleUpdate| u@);
    verify_vaa_from_data_source(config, vaa)?;
    let root = match decode_merkle_root(vaa.payload.as_slice()) {
        Some(root) => root,
        None => return Err(ContractError::InvalidWormholeMessage),
    };
    let mut feeds: Vec<PriceFeed> = Vec::new();
    let mut i: usize = 0;
    while i < updates.len()
        invariant
            i <= updates@.len(),
            us == updates@.map_values(|u: MerkleUpdate| u@),
            config.source_set().contains(vaa.source()),
            merkle_root_of(vaa.payload@) == Some(root@),
            leaves_outcome(root@, us.take(i as int)) == Ok::<Seq<PriceFeed>, ContractError>(
                feeds@,
            ),
        decreases updates.len() - i,
    {
        let update = &updates[i];
        assert(us.take(i + 1).drop_last() =~= us.take(i as int));
        assert(us.take(i + 1).last() == update@);
        if !merkle_check(&root, &update.proof, update.message.as_slice()) {
            proof {
                lemma_refusal_persists(root@, us, i + 1);
            }
            return Err(ContractError::InvalidProof);
        }
        match decode_message(update.message.as_slice()) {
            AccumulatorMessage::PriceFeed(m) => {
                feeds.push(price_feed_from_message(&m));
            },
            AccumulatorMessage::Other => {
                proof {
                    lemma_refusal_persists(root@, us, i + 1);
                }
                return Err(ContractError::UnsupportedMessageType);
            },
            AccumulatorMessage::Invalid => {
                proof {
                    lemma_refusal_persists(root@, us, i + 1);
                }
                return Err(ContractError::InvalidAccumulatorMessage);
            },
        }
        i = i + 1;
    }
    assert(us.take(i as int) =~= us);
    Ok(feeds)
}

} // verus!
