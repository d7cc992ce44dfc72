use vstd::prelude::*;

use crate::error::ContractError;
use crate::governance::sources_view;

verus! {

/// An (emitter, chain) pair trusted to originate price data or governance.
#[derive(Clone, Debug, PartialEq, Eq, Hash)]
pub struct PythDataSource {
    pub emitter: Vec<u8>,
    pub chain_id: u16,
}

impl View for PythDataSource {
    type V = (u16, Seq<u8>);

    open spec fn view(&self) -> (u16, Seq<u8>) {
        (self.chain_id, self.emitter@)
    }
}

/// The trust configuration of one deployment.
#[derive(Clone, Debug, PartialEq, Eq)]
pub struct ConfigInfo {
    /// Address of the contract that verifies signed envelopes.
    pub wormhole_contract: String,
    /// Authorized price data sources, without repetition.
    pub data_sources: Vec<PythDataSource>,
    /// The chain id this deployment serves.
    pub chain_id: u16,
    /// The single authorized governance source.
    pub governance_source: PythDataSource,
    /// Index of the governance source (informational).
    pub governance_source_index: u32,
    /// The sequence number of the last applied governance instruction.
    pub governance_sequence_number: u64,
}

impl ConfigInfo {
    /// The data sources hold no pair twice.
    pub open spec fn wf(&self) -> bool {
        sources_view(self.data_sources@).no_duplicates()
    }

    pub open spec fn source_set(&self) -> Set<(u16, Seq<u8>)> {
        sources_view(self.data_sources@).to_set()
    }
}

/// What the envelope verifier reports of an authentic signed message.
#[derive(Clone, Debug, PartialEq, Eq)]
pub struct ParsedVaa {
    pub emitter_address: Vec<u8>,
    pub emitter_chain: u16,
    pub sequence: u64,
    pub payload: Vec<u8>,
}

impl ParsedVaa {
    /// The (chain id, emitter) pair that the envelope claims.
    pub open spec fn source(&self) -> (u16, Seq<u8>) {
        (self.emitter_chain, self.emitter_address@)
    }
}

pub fn bytes_eq(a: &[u8], b: &[u8]) -> (r: bool)
    ensures
        r == (a@ == b@),
{
    if a.len() != b.len() {
        return false;
    }
    let mut i: usize = 0;
    while i < a.len()
        invariant
            a@.len() == b@.len(),
            i <= a@.len(),
            forall|j: int| 0 <= j < i ==> a@[j] == b@[j],
        decreases a.len() - i,
    {
        if a[i] != b[i] {
            return false;
        }
        i = i + 1;
    }
    assert(a@ =~= b@);
    true
}

fn source_is(d: &PythDataSource, chain_id: u16, emitter: &[u8]) -> (r: bool)
    ensures
        r == (d@ == (chain_id, emitter@)),
{
    d.chain_id == chain_id && bytes_eq(d.emitter.as_slice(), emitter)
}

fn contains_source(v: &Vec<PythDataSource>, chain_id: u16, emitter: &[u8]) -> (r: bool)
    ensures
        r == sources_view(v@).contains((chain_id, emitter@)),
{
    let mut i: usize = 0;
    while i < v.len()
        invariant
            i <= v@.len(),
            forall|j: int| 0 <= j < i ==> v@[j]@ != (chain_id, emitter@),
        decreases v.len() - i,
    {
        if source_is(&v[i], chain_id, emitter) {
            assert(sources_view(v@)[i as int] == (chain_id, emitter@));
            return true;
        }
        i = i + 1;
    }
    assert(!sources_view(v@).contains((chain_id, emitter@))) by {
        if sources_view(v@).contains((chain_id, emitter@)) {
            let j = choose|j: int| 0 <= j < v@.len() && sources_view(v@)[j] == (chain_id, emitter@);
            assert(v@[j]@ == (chain_id, emitter@));
        }
    }
    false
}

/// The data sources of `v` in order of first appearance, each once.
pub fn dedup_sources(v: &Vec<PythDataSource>) -> (r: Vec<PythDataSource>)
    ensures
        sources_view(r@).no_duplicates(),
        sources_view(r@).to_set() == sources_view(v@).to_set(),
{
    let mut r: Vec<PythDataSource> = Vec::new();
    let mut i: usize = 0;
    while i < v.len()
        invariant
            i <= v@.len(),
            sources_view(r@).no_duplicates(),
            sources_view(r@).to_set() == sources_view(v@.take(i as int)).to_set(),
        decreases v.len() - i,
    {
        let d = &v[i];
        let ghost before = r@;
        assert(sources_view(v@.take(i + 1)) =~= sources_view(v@.take(i as int)).push(d@));
        if !contains_source(&r, d.chain_id, d.emitter.as_slice()) {
            let c = PythDataSource { emitter: copy_bytes(d.emitter.as_slice()), chain_id: d.chain_id };
            r.push(c);
            assert(sources_view(r@) =~= sources_view(before).push(d@));
            proof {
                sources_view(before).lemma_push_to_set_commute(d@);
            }
        } else {
            assert(sources_view(v@.take(i as int)).to_set().insert(d@) =~= sources_view(
                v@.take(i as int),
            ).to_set());
        }
        proof {
            sources_view(v@.take(i as int)).lemma_push_to_set_commute(d@);
        }
        i = i + 1;
    }
    assert(v@.take(i as int) =~= v@);
    r
}

pub fn copy_bytes(b: &[u8]) -> (r: Vec<u8>)
    ensures
        r@ == b@,
{
    let mut r: Vec<u8> = Vec::new();
    let mut i: usize = 0;
    while i < b.len()
        invariant
            i <= b@.len(),
            r@ == b@.take(i as int),
        decreases b.len() - i,
    {
        r.push(b[i]);
        i = i + 1;
    }
    assert(b@.take(i as int) =~= b@);
    r
}

/// Admits an envelope only from an authorized price data source.
pub fn verify_vaa_from_data_source(state: &ConfigInfo, vaa: &ParsedVaa) -> (r: Result<(), ContractError>)
    ensures
        r is Ok <==> state.source_set().contains(vaa.source()),
        r is Err ==> r == Err::<(), ContractError>(ContractError::UnauthorizedSource),
{
    if contains_source(&state.data_sources, vaa.emitter_chain, vaa.emitter_address.as_slice()) {
        Ok(())
    } else {
        Err(ContractError::UnauthorizedSource)
    }
}

/// Admits an envelope only from the governance source.
pub fn verify_vaa_from_governance_source(state: &ConfigInfo, vaa: &ParsedVaa) -> (r: Result<(), ContractError>)
    ensures
        r is Ok <==> state.governance_source@ == vaa.source(),
        r is Err ==> r == Err::<(), ContractError>(ContractError::UnauthorizedSource),
{
    if source_is(&state.governance_source, vaa.emitter_chain, vaa.emitter_address.as_slice()) {
        Ok(())
    } else {
        Err(ContractError::UnauthorizedSource)
    }
}

impl PythDataSource {
    /// A copy of this data source.
    pub fn duplicate(&self) -> (r: PythDataSource)
        ensures
            r@ == self@,
    {
        PythDataSource { emitter: copy_bytes(self.emitter.as_slice()), chain_id: self.chain_id }
    }
}

} // verus!
