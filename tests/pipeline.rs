use pyth_cosmwasm::contract::{execute_governance_instruction, instantiate};
use pyth_cosmwasm::error::ContractError;
use pyth_cosmwasm::governance::{GovernanceAction, GovernanceInstruction, GovernanceModule};
use pyth_cosmwasm::msg::InstantiateMsg;
use pyth_cosmwasm::state::{
    verify_vaa_from_data_source, verify_vaa_from_governance_source, ConfigInfo, ParsedVaa,
    PythDataSource,
};

fn source(chain_id: u16, fill: u8) -> PythDataSource {
    PythDataSource { emitter: vec![fill; 32], chain_id }
}

fn config() -> ConfigInfo {
    instantiate(&InstantiateMsg {
        wormhole_contract: "wormhole".to_string(),
        data_sources: vec![source(1, 1), source(2, 2), source(1, 1)],
        governance_source: source(9, 9),
        governance_source_index: 4,
        governance_sequence_number: 10,
        chain_id: 60,
    })
}

fn payload(module: GovernanceModule, target: u16, sources: Vec<PythDataSource>) -> Vec<u8> {
    GovernanceInstruction {
        module,
        action: GovernanceAction::SetDataSources { data_sources: sources },
        target_chain_id: target,
    }
    .serialize()
    .unwrap()
}

fn gov_vaa(sequence: u64, payload: Vec<u8>) -> ParsedVaa {
    ParsedVaa { emitter_address: vec![9; 32], emitter_chain: 9, sequence, payload }
}

#[test]
fn instantiate_keeps_fields_and_drops_repeats() {
    let c = config();
    assert_eq!(c.data_sources, vec![source(1, 1), source(2, 2)]);
    assert_eq!(c.wormhole_contract, "wormhole");
    assert_eq!(c.chain_id, 60);
    assert_eq!(c.governance_source, source(9, 9));
    assert_eq!(c.governance_source_index, 4);
    assert_eq!(c.governance_sequence_number, 10);
}

#[test]
fn data_source_gate() {
    let c = config();
    let vaa = |chain, fill| ParsedVaa {
        emitter_address: vec![fill; 32],
        emitter_chain: chain,
        sequence: 0,
        payload: vec![],
    };
    assert_eq!(verify_vaa_from_data_source(&c, &vaa(2, 2)), Ok(()));
    assert_eq!(verify_vaa_from_data_source(&c, &vaa(2, 1)), Err(ContractError::UnauthorizedSource));
    assert_eq!(verify_vaa_from_data_source(&c, &vaa(3, 2)), Err(ContractError::UnauthorizedSource));
    assert_eq!(verify_vaa_from_governance_source(&c, &vaa(9, 9)), Ok(()));
    assert_eq!(
        verify_vaa_from_governance_source(&c, &vaa(2, 2)),
        Err(ContractError::UnauthorizedSource)
    );
}

#[test]
fn governance_replaces_sources_and_advances_sequence() {
    let c = config();
    let p = payload(GovernanceModule::Target, 60, vec![source(5, 5), source(5, 5), source(6, 6)]);
    let n = execute_governance_instruction(&c, &gov_vaa(11, p)).unwrap();
    assert_eq!(n.data_sources, vec![source(5, 5), source(6, 6)]);
    assert_eq!(n.governance_sequence_number, 11);
    assert_eq!(n.chain_id, 60);
    assert_eq!(n.governance_source, source(9, 9));
    assert_eq!(n.wormhole_contract, "wormhole");
}

#[test]
fn governance_for_all_chains_is_accepted() {
    let c = config();
    let p = payload(GovernanceModule::Target, 0, vec![source(5, 5)]);
    let n = execute_governance_instruction(&c, &gov_vaa(100, p)).unwrap();
    assert_eq!(n.governance_sequence_number, 100);
    assert_eq!(n.data_sources, vec![source(5, 5)]);
}

#[test]
fn governance_replay_is_rejected() {
    let c = config();
    for seq in [0u64, 9, 10] {
        let p = payload(GovernanceModule::Target, 60, vec![source(5, 5)]);
        assert_eq!(
            execute_governance_instruction(&c, &gov_vaa(seq, p)),
            Err(ContractError::StaleGovernanceMessage)
        );
    }
    assert_eq!(
        execute_governance_instruction(&c, &gov_vaa(3, vec![1, 2, 3])),
        Err(ContractError::StaleGovernanceMessage)
    );
}

#[test]
fn governance_from_other_source_is_rejected() {
    let c = config();
    let mut v = gov_vaa(11, payload(GovernanceModule::Target, 60, vec![]));
    v.emitter_chain = 1;
    assert_eq!(execute_governance_instruction(&c, &v), Err(ContractError::UnauthorizedSource));
}

#[test]
fn governance_malformed_wrong_chain_wrong_module() {
    let c = config();
    let mut bad = payload(GovernanceModule::Target, 60, vec![]);
    bad.push(0);
    assert_eq!(
        execute_governance_instruction(&c, &gov_vaa(11, bad)),
        Err(ContractError::MalformedInstruction)
    );
    assert_eq!(
        execute_governance_instruction(&c, &gov_vaa(11, payload(GovernanceModule::Target, 61, vec![]))),
        Err(ContractError::WrongChain)
    );
    assert_eq!(
        execute_governance_instruction(&c, &gov_vaa(11, payload(GovernanceModule::Executor, 60, vec![]))),
        Err(ContractError::WrongModule)
    );
}
