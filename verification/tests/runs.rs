//! Whole-run scenarios driven through the engine.

use deployer::address::Address;
use deployer::contract_id::ContractId;
use deployer::engine::{
    Action, DeployError, Engine, Event, FailureKind, GenesisState, Notice, Phase, StepResult,
    LIGHT_CLIENT_INIT_ARG,
};
use deployer::linker::UnlinkedBytecode;
use deployer::registry::AddressRegistry;

fn addr(fill: u8) -> Address {
    Address::from_bytes(vec![fill; 20]).expect("twenty bytes")
}

fn light_client_bytecode() -> UnlinkedBytecode {
    let mut code = UnlinkedBytecode::new();
    code.push_code(vec![0x60, 0x80, 0x60, 0x40]);
    code.push_library_ref(ContractId::PlonkVerifier);
    code.push_code(vec![0x52]);
    code.push_library_ref(ContractId::StateUpdateVk);
    code.push_code(vec![0x00]);
    code
}

fn is_deploy_action(a: &Action) -> bool {
    matches!(
        a,
        Action::DeployHotShot
            | Action::DeployPlonkVerifier
            | Action::DeployStateUpdateVk
            | Action::DeployLightClient(_)
            | Action::DeployProxy { .. }
    )
}

/// A full run with only the standalone contract pre-deployed: exactly four
/// deployments happen, the record has five entries, and the pre-supplied
/// address comes through unchanged.
#[test]
fn run_deploys_four_when_standalone_pre_supplied() {
    let registry = AddressRegistry::from_predeployed(Some(addr(0x11)), None, None, None, None);
    let mut engine = Engine::new(registry);
    let mut deploys = 0;

    let r = engine.step(Event::Start);
    assert!(matches!(r.notices[0], Notice::Skipped(ContractId::HotShot, _)));
    assert!(matches!(r.action, Action::DeployPlonkVerifier));
    deploys += 1;

    let r = engine.step(Event::Deployed(addr(0x22)));
    assert!(matches!(r.notices[0], Notice::Deployed(ContractId::PlonkVerifier, _)));
    assert!(matches!(r.action, Action::DeployStateUpdateVk));
    deploys += 1;

    let r = engine.step(Event::Deployed(addr(0x33)));
    assert!(matches!(r.action, Action::LoadLightClientBytecode));

    let r = engine.step(Event::BytecodeLoaded(light_client_bytecode()));
    let linked = match r.action {
        Action::DeployLightClient(code) => code,
        other => panic!("expected a light-client deployment, got {:?}", kind_of(&other)),
    };
    deploys += 1;
    let mut expected = vec![0x60u8, 0x80, 0x60, 0x40];
    expected.extend(vec![0x22u8; 20]);
    expected.push(0x52);
    expected.extend(vec![0x33u8; 20]);
    expected.push(0x00);
    assert_eq!(linked.bytes().clone(), expected);

    let r = engine.step(Event::Deployed(addr(0x44)));
    assert!(matches!(r.action, Action::FetchGenesis));

    let r = engine.step(Event::GenesisFetched(GenesisState::new(vec![9, 9, 9])));
    match &r.action {
        Action::DeployProxy { implementation, genesis, init_arg } => {
            assert_eq!(implementation.to_bytes(), vec![0x44u8; 20]);
            assert_eq!(genesis.data().clone(), vec![9, 9, 9]);
            assert_eq!(*init_arg, LIGHT_CLIENT_INIT_ARG);
            assert_eq!(*init_arg, u32::MAX);
        },
        _ => panic!("expected a proxy deployment"),
    }
    deploys += 1;

    let r = engine.step(Event::Deployed(addr(0x55)));
    let entries = match r.action {
        Action::WriteRecord(entries) => entries,
        _ => panic!("expected the record to be written"),
    };
    assert_eq!(entries.len(), 5);
    assert_eq!(entries[0].0, ContractId::HotShot);
    assert_eq!(entries[0].1.to_bytes(), vec![0x11u8; 20]);

    let r = engine.step(Event::Written);
    assert!(matches!(r.action, Action::Finished));
    assert_eq!(engine.phase(), Phase::Finished);
    assert_eq!(deploys, 4);
}

fn kind_of(a: &Action) -> &'static str {
    match a {
        Action::DeployHotShot => "DeployHotShot",
        Action::DeployPlonkVerifier => "DeployPlonkVerifier",
        Action::DeployStateUpdateVk => "DeployStateUpdateVk",
        Action::LoadLightClientBytecode => "LoadLightClientBytecode",
        Action::DeployLightClient(_) => "DeployLightClient",
        Action::FetchGenesis => "FetchGenesis",
        Action::DeployProxy { .. } => "DeployProxy",
        Action::WriteRecord(_) => "WriteRecord",
        Action::Finished => "Finished",
        Action::Abort(_) => "Abort",
    }
}

/// A rerun with every address pre-supplied performs zero deployments and
/// writes back exactly the supplied addresses.
#[test]
fn rerun_with_all_addresses_deploys_nothing() {
    let registry = AddressRegistry::from_predeployed(
        Some(addr(1)),
        Some(addr(2)),
        Some(addr(3)),
        Some(addr(4)),
        Some(addr(5)),
    );
    let mut engine = Engine::new(registry);

    let StepResult { notices, action } = engine.step(Event::Start);
    assert_eq!(notices.len(), 2);
    assert!(matches!(notices[0], Notice::Skipped(ContractId::HotShot, _)));
    assert!(matches!(notices[1], Notice::Skipped(ContractId::LightClientProxy, _)));
    assert!(!is_deploy_action(&action));
    let entries = match action {
        Action::WriteRecord(entries) => entries,
        _ => panic!("expected the record to be written immediately"),
    };
    assert_eq!(entries.len(), 5);
    for (i, fill) in [1u8, 2, 3, 4, 5].iter().enumerate() {
        assert_eq!(entries[i].1.to_bytes(), vec![*fill; 20]);
    }

    let r = engine.step(Event::Written);
    assert!(matches!(r.action, Action::Finished));
    assert_eq!(engine.phase(), Phase::Finished);
}

/// A pre-supplied library is skipped, never redeployed, and its address is
/// used for linking unchanged.
#[test]
fn pre_supplied_library_is_memoized() {
    let registry =
        AddressRegistry::from_predeployed(None, Some(addr(0xaa)), None, None, None);
    let mut engine = Engine::new(registry);

    let r = engine.step(Event::Start);
    assert!(matches!(r.action, Action::DeployHotShot));

    let r = engine.step(Event::Deployed(addr(0x11)));
    // The verifier library is consulted, found, and skipped.
    assert!(matches!(r.notices[1], Notice::Skipped(ContractId::PlonkVerifier, _)));
    assert!(matches!(r.action, Action::DeployStateUpdateVk));

    let r = engine.step(Event::Deployed(addr(0xbb)));
    assert!(matches!(r.action, Action::LoadLightClientBytecode));

    let r = engine.step(Event::BytecodeLoaded(light_client_bytecode()));
    let linked = match r.action {
        Action::DeployLightClient(code) => code,
        _ => panic!("expected a light-client deployment"),
    };
    // The pre-supplied library address was substituted unchanged.
    assert_eq!(linked.bytes()[4..24].to_vec(), vec![0xaau8; 20]);
    assert_eq!(
        engine.registry().get(ContractId::PlonkVerifier).unwrap().to_bytes(),
        vec![0xaau8; 20]
    );
}

/// If the verification-key library's deployment fails, the run aborts: no
/// light-client or proxy deployment is emitted and the record is never
/// written.
#[test]
fn vk_failure_blocks_light_client_and_proxy() {
    let registry = AddressRegistry::new();
    let mut engine = Engine::new(registry);
    let mut actions = Vec::new();

    let r = engine.step(Event::Start);
    actions.push(kind_of(&r.action).to_string());
    assert!(matches!(r.action, Action::DeployHotShot));
    let r = engine.step(Event::Deployed(addr(1)));
    actions.push(kind_of(&r.action).to_string());
    assert!(matches!(r.action, Action::DeployPlonkVerifier));
    let r = engine.step(Event::Deployed(addr(2)));
    actions.push(kind_of(&r.action).to_string());
    assert!(matches!(r.action, Action::DeployStateUpdateVk));

    let r = engine.step(Event::Failed(FailureKind::Transport));
    actions.push(kind_of(&r.action).to_string());
    assert!(matches!(r.action, Action::Abort(DeployError::Transport)));
    assert_eq!(engine.phase(), Phase::Failed);

    for a in &actions {
        assert_ne!(a, "DeployLightClient");
        assert_ne!(a, "DeployProxy");
        assert_ne!(a, "WriteRecord");
    }
    assert!(!engine.registry().contains(ContractId::StateUpdateVk));
    assert!(!engine.registry().contains(ContractId::LightClient));
    assert!(!engine.registry().contains(ContractId::LightClientProxy));
}

/// A placeholder for a library that is not in the link table aborts the
/// run with a linking error naming that library.
#[test]
fn unresolved_placeholder_aborts_with_link_error() {
    let registry = AddressRegistry::from_predeployed(
        Some(addr(1)),
        Some(addr(2)),
        Some(addr(3)),
        None,
        None,
    );
    let mut engine = Engine::new(registry);

    let r = engine.step(Event::Start);
    assert!(matches!(r.action, Action::LoadLightClientBytecode));

    let mut code = UnlinkedBytecode::new();
    code.push_library_ref(ContractId::HotShot);
    let r = engine.step(Event::BytecodeLoaded(code));
    assert!(matches!(r.action, Action::Abort(DeployError::Link(ContractId::HotShot))));
    assert_eq!(engine.phase(), Phase::Failed);
}

/// A genesis fetch failure aborts before any proxy deployment.
#[test]
fn genesis_failure_aborts_before_proxy() {
    let registry = AddressRegistry::from_predeployed(
        Some(addr(1)),
        None,
        None,
        Some(addr(4)),
        None,
    );
    let mut engine = Engine::new(registry);

    let r = engine.step(Event::Start);
    // Light client is pre-deployed, so only genesis is needed next.
    assert!(matches!(r.action, Action::FetchGenesis));

    let r = engine.step(Event::Failed(FailureKind::Transport));
    assert!(matches!(r.action, Action::Abort(DeployError::Transport)));
    assert_eq!(engine.phase(), Phase::Failed);
    assert!(!engine.registry().contains(ContractId::LightClientProxy));
}

/// An encoding failure while deploying the proxy surfaces as an encoding
/// error, distinct from a transport error.
#[test]
fn encoding_failure_is_distinguished() {
    let registry = AddressRegistry::from_predeployed(
        Some(addr(1)),
        None,
        None,
        Some(addr(4)),
        None,
    );
    let mut engine = Engine::new(registry);

    let r = engine.step(Event::Start);
    assert!(matches!(r.action, Action::FetchGenesis));
    let r = engine.step(Event::GenesisFetched(GenesisState::new(vec![7])));
    assert!(matches!(r.action, Action::DeployProxy { .. }));
    let r = engine.step(Event::Failed(FailureKind::Encoding));
    assert!(matches!(r.action, Action::Abort(DeployError::Encoding)));
}

/// A full run from an empty registry deploys all five contracts in
/// dependency order and records each confirmed address.
#[test]
fn full_run_from_empty_registry() {
    let mut engine = Engine::new(AddressRegistry::new());

    let r = engine.step(Event::Start);
    assert!(r.notices.is_empty());
    assert!(matches!(r.action, Action::DeployHotShot));

    let r = engine.step(Event::Deployed(addr(1)));
    assert!(matches!(r.notices[0], Notice::Deployed(ContractId::HotShot, _)));
    assert!(matches!(r.action, Action::DeployPlonkVerifier));

    let r = engine.step(Event::Deployed(addr(2)));
    assert!(matches!(r.action, Action::DeployStateUpdateVk));

    let r = engine.step(Event::Deployed(addr(3)));
    assert!(matches!(r.notices[0], Notice::Deployed(ContractId::StateUpdateVk, _)));
    assert!(matches!(r.action, Action::LoadLightClientBytecode));

    let r = engine.step(Event::BytecodeLoaded(light_client_bytecode()));
    assert!(matches!(r.action, Action::DeployLightClient(_)));

    let r = engine.step(Event::Deployed(addr(4)));
    assert!(matches!(r.action, Action::FetchGenesis));

    let r = engine.step(Event::GenesisFetched(GenesisState::new(Vec::new())));
    assert!(matches!(r.action, Action::DeployProxy { .. }));

    let r = engine.step(Event::Deployed(addr(5)));
    assert!(matches!(r.notices[0], Notice::Deployed(ContractId::LightClientProxy, _)));
    let entries = match r.action {
        Action::WriteRecord(entries) => entries,
        _ => panic!("expected the record to be written"),
    };
    assert_eq!(entries.len(), 5);
    let expected = [
        (ContractId::HotShot, 1u8),
        (ContractId::PlonkVerifier, 2),
        (ContractId::StateUpdateVk, 3),
        (ContractId::LightClient, 4),
        (ContractId::LightClientProxy, 5),
    ];
    for (entry, (id, fill)) in entries.iter().zip(expected.iter()) {
        assert_eq!(entry.0, *id);
        assert_eq!(entry.1.to_bytes(), vec![*fill; 20]);
    }

    let r = engine.step(Event::Written);
    assert!(matches!(r.action, Action::Finished));
    assert_eq!(engine.phase(), Phase::Finished);
}
