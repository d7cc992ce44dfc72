use vstd::prelude::*;

use crate::error::ContractError;
use crate::governance::{decode_spec, GovernanceAction, GovernanceInstruction, GovernanceModule};
use crate::msg::InstantiateMsg;
use crate::state::{dedup_sources, verify_vaa_from_governance_source, ConfigInfo, ParsedVaa};
use crate::governance::sources_view;

verus! {

/// What a governance envelope does to a configuration: the new set of price
/// data sources, or the error that stops it.
pub open spec fn governance_outcome(c: ConfigInfo, v: ParsedVaa) -> Result<
    Set<(u16, Seq<u8>)>,
    ContractError,
> {
    if c.governance_source@ != v.source() {
        Err(ContractError::UnauthorizedSource)
    } else if v.sequence <= c.governance_sequence_number {
        Err(ContractError::StaleGovernanceMessage)
    } else {
        match decode_spec(v.payload@) {
            Err(_) => Err(ContractError::MalformedInstruction),
            Ok(m) => if m.target_chain_id != 0 && m.target_chain_id != c.chain_id {
                Err(ContractError::WrongChain)
            } else if m.module != GovernanceModule::Target {
                Err(ContractError::WrongModule)
            } else {
                Ok(m.data_sources.to_set())
            },
        }
    }
}

/// Applies a verified governance envelope to the configuration, giving the
/// configuration to persist.
pub fn execute_governance_instruction(config: &ConfigInfo, vaa: &ParsedVaa) -> (r: Result<
    ConfigInfo,
    ContractError,
>)
    ensures
        match governance_outcome(*config, *vaa) {
            Ok(sources) => r is Ok && {
                let n = r->Ok_0;
                &&& n.wf()
                &&& n.source_set() == sources
                &&& n.governance_sequence_number == vaa.sequence
                &&& n.wormhole_contract@ == config.wormhole_contract@
                &&& n.chain_id == config.chain_id
                &&& n.governance_source@ == config.governance_source@
                &&& n.governance_source_index == config.governance_source_index
            },
            Err(e) => r == Err::<ConfigInfo, ContractError>(e),
        },
        vaa.sequence <= config.governance_sequence_number ==> r is Err,
        r is Ok ==> config.governance_sequence_number < r->Ok_0.governance_sequence_number
            == vaa.sequence,
{
    verify_vaa_from_governance_source(config, vaa)?;
    if vaa.sequence <= config.governance_sequence_number {
        return Err(ContractError::StaleGovernanceMessage);
    }
    let instruction = match GovernanceInstruction::deserialize(vaa.payload.as_slice()) {
        Ok(i) => i,
        Err(_) => return Err(ContractError::MalformedInstruction),
    };
    if instruction.target_chain_id != config.chain_id && instruction.target_chain_id != 0 {
        return Err(ContractError::WrongChain);
    }
    if instruction.module != GovernanceModule::Target {
        return Err(ContractError::WrongModule);
    }
    let data_sources = match &instruction.action {
        GovernanceAction::SetDataSources { data_sources } => dedup_sources(data_sources),
    };
    Ok(
        ConfigInfo {
            wormhole_contract: config.wormhole_contract.clone(),
            data_sources,
            chain_id: config.chain_id,
            governance_source: config.governance_source.duplicate(),
            governance_source_index: config.governance_source_index,
            governance_sequence_number: vaa.sequence,
        },
    )
}

/// The configuration that a deployment starts with.
pub fn instantiate(msg: &InstantiateMsg) -> (r: ConfigInfo)
    ensures
        r.wf(),
        r.source_set() == sources_view(msg.data_sources@).to_set(),
        r.wormhole_contract@ == msg.wormhole_contract@,
        r.chain_id == msg.chain_id,
        r.governance_source@ == msg.governance_source@,
        r.governance_source_index == msg.governance_source_index,
        r.governance_sequence_number == msg.governance_sequence_number,
{
    ConfigInfo {
        wormhole_contract: msg.wormhole_contract.clone(),
        data_sources: dedup_sources(&msg.data_sources),
        chain_id: msg.chain_id,
        governance_source: msg.governance_source.duplicate(),
        governance_source_index: msg.governance_source_index,
        governance_sequence_number: msg.governance_sequence_number,
    }
}

/// A replayed or stale governance envelope is rejected, whatever it holds.
pub proof fn lemma_replay_rejected(c: ConfigInfo, v: ParsedVaa)
    requires
        v.sequence <= c.governance_sequence_number,
    ensures
        governance_outcome(c, v) is Err,
{
}

/// An instruction for all chains (target 0) passes the chain check on any
/// deployment; one for another chain never does.
pub proof fn lemma_chain_targeting(c: ConfigInfo, v: ParsedVaa)
    requires
        c.governance_source@ == v.source(),
        v.sequence > c.governance_sequence_number,
        decode_spec(v.payload@) is Ok,
        decode_spec(v.payload@)->Ok_0.module == GovernanceModule::Target,
    ensures
        decode_spec(v.payload@)->Ok_0.target_chain_id == 0 ==> governance_outcome(c, v) is Ok,
        decode_spec(v.payload@)->Ok_0.target_chain_id != 0 && decode_spec(v.payload@)->Ok_0.target_chain_id
            != c.chain_id ==> governance_outcome(c, v) == Err::<Set<(u16, Seq<u8>)>, ContractError>(
            ContractError::WrongChain,
        ),
{
}

} // verus!
