//! Tests of addresses, the registry and the bytecode linker.

use deployer::address::Address;
use deployer::contract_id::ContractId;
use deployer::linker::{link, UnlinkedBytecode};
use deployer::registry::AddressRegistry;

fn addr(fill: u8) -> Address {
    Address::from_bytes(vec![fill; 20]).expect("twenty bytes")
}

#[test]
fn address_rejects_wrong_length() {
    assert!(Address::from_bytes(vec![0u8; 19]).is_none());
    assert!(Address::from_bytes(vec![0u8; 21]).is_none());
    assert!(Address::from_bytes(Vec::new()).is_none());
    assert!(Address::from_bytes(vec![0u8; 20]).is_some());
}

#[test]
fn address_hex_rendering() {
    let mut bytes = vec![0xdeu8, 0xad, 0xbe, 0xef];
    bytes.extend(vec![0u8; 15]);
    bytes.push(0x01);
    let a = Address::from_bytes(bytes).unwrap();
    let hex = a.to_hex_bytes();
    assert_eq!(String::from_utf8(hex).unwrap(), format!("deadbeef{}01", "0".repeat(30)));
}

#[test]
fn address_hex_exact() {
    let a = Address::from_bytes((0u8..20).collect()).unwrap();
    assert_eq!(
        String::from_utf8(a.to_hex_bytes()).unwrap(),
        "000102030405060708090a0b0c0d0e0f10111213"
    );
}

#[test]
fn address_equality_and_copies() {
    let a = addr(7);
    let b = a.duplicate();
    assert!(a.same(&b));
    assert_eq!(a.to_bytes(), b.to_bytes());
    assert!(!a.same(&addr(8)));
}

#[test]
fn registry_starts_empty() {
    let r = AddressRegistry::new();
    assert!(!r.contains(ContractId::HotShot));
    assert!(r.get(ContractId::LightClient).is_none());
    assert_eq!(r.entries().len(), 0);
}

#[test]
fn registry_records_and_returns() {
    let mut r = AddressRegistry::new();
    r.record(ContractId::HotShot, addr(1));
    r.record(ContractId::LightClient, addr(2));
    assert!(r.contains(ContractId::HotShot));
    assert!(!r.contains(ContractId::PlonkVerifier));
    let got = r.get(ContractId::HotShot).unwrap();
    assert_eq!(got.to_bytes(), vec![1u8; 20]);
    let entries = r.entries();
    assert_eq!(entries.len(), 2);
    assert_eq!(entries[0].0, ContractId::HotShot);
    assert_eq!(entries[1].0, ContractId::LightClient);
    assert_eq!(entries[1].1.to_bytes(), vec![2u8; 20]);
}

#[test]
fn registry_from_predeployed() {
    let r = AddressRegistry::from_predeployed(Some(addr(9)), None, None, None, Some(addr(5)));
    assert!(r.contains(ContractId::HotShot));
    assert!(r.contains(ContractId::LightClientProxy));
    assert!(!r.contains(ContractId::PlonkVerifier));
    assert!(!r.contains(ContractId::StateUpdateVk));
    assert!(!r.contains(ContractId::LightClient));
    assert_eq!(r.get(ContractId::LightClientProxy).unwrap().to_bytes(), vec![5u8; 20]);
}

#[test]
fn link_substitutes_placeholders() {
    let mut code = UnlinkedBytecode::new();
    code.push_code(vec![0x60, 0x80]);
    code.push_library_ref(ContractId::PlonkVerifier);
    code.push_code(vec![0xfe]);
    code.push_library_ref(ContractId::StateUpdateVk);

    let mut libs = AddressRegistry::new();
    libs.record(ContractId::PlonkVerifier, addr(0xaa));
    libs.record(ContractId::StateUpdateVk, addr(0xbb));

    let linked = link(&code, &libs).expect("all placeholders resolved");
    let mut expected = vec![0x60u8, 0x80];
    expected.extend(vec![0xaau8; 20]);
    expected.push(0xfe);
    expected.extend(vec![0xbbu8; 20]);
    assert_eq!(linked.bytes().clone(), expected);
}

#[test]
fn link_without_placeholders_is_identity() {
    let mut code = UnlinkedBytecode::new();
    code.push_code(vec![1, 2, 3]);
    let libs = AddressRegistry::new();
    let linked = link(&code, &libs).unwrap();
    assert_eq!(linked.bytes().clone(), vec![1, 2, 3]);
}

#[test]
fn link_fails_naming_the_missing_library() {
    let mut code = UnlinkedBytecode::new();
    code.push_library_ref(ContractId::PlonkVerifier);
    code.push_library_ref(ContractId::StateUpdateVk);
    let mut libs = AddressRegistry::new();
    libs.record(ContractId::PlonkVerifier, addr(0xaa));
    let err = link(&code, &libs).expect_err("verification-key library unresolved");
    assert_eq!(err.missing, ContractId::StateUpdateVk);
}

#[test]
fn link_reports_first_missing_library() {
    let mut code = UnlinkedBytecode::new();
    code.push_code(vec![0]);
    code.push_library_ref(ContractId::StateUpdateVk);
    code.push_library_ref(ContractId::PlonkVerifier);
    let libs = AddressRegistry::new();
    let err = link(&code, &libs).unwrap_err();
    assert_eq!(err.missing, ContractId::StateUpdateVk);
}
