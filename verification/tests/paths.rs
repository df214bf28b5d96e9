use cell_engine::cell_id::CellId;
use cell_engine::hash::Address;
use cell_engine::kind::{join, storage_path, EnvironmentKind};
use std::path::Path;

fn cell(dna: &[u8], agent: &[u8]) -> CellId {
    CellId::new(Address::new(dna.to_vec()), Address::new(agent.to_vec()))
}

#[test]
fn addresses_are_written_in_lower_case_hex() {
    assert_eq!(Address::new(vec![]).to_hex(), "");
    assert_eq!(Address::new(vec![0x00, 0x0f, 0xa0, 0xff, 0x10]).to_hex(), "000fa0ff10");
    assert_eq!(Address::new(vec![0xde, 0xad, 0xbe, 0xef]).to_hex(), "deadbeef");
}

#[test]
fn addresses_compare_by_their_bytes() {
    let a = Address::new(vec![1, 2, 3]);
    assert_eq!(a, Address::new(vec![1, 2, 3]));
    assert_ne!(a, Address::new(vec![1, 2]));
    assert_ne!(a, Address::new(vec![1, 2, 4]));
    assert_eq!(a.clone(), a);
    assert_eq!(a.as_bytes(), &vec![1, 2, 3]);
    assert_eq!(a.into_inner(), vec![1, 2, 3]);
}

#[test]
fn cell_id_text() {
    let id = cell(&[0xab, 0x01], &[0x7f]);
    assert_eq!(id.to_string(), "cell-ab01-7f");
    assert_eq!(cell(&[], &[]).to_string(), "cell--");
    assert_eq!(id.dna_hash(), &Address::new(vec![0xab, 0x01]));
    assert_eq!(id.agent_pubkey(), &Address::new(vec![0x7f]));
}

#[test]
fn cell_ids_are_equal_when_both_parts_are() {
    assert_eq!(cell(&[1], &[2]), cell(&[1], &[2]));
    assert_ne!(cell(&[1], &[2]), cell(&[1], &[3]));
    assert_ne!(cell(&[1], &[2]), cell(&[2], &[2]));
    assert_eq!(cell(&[1], &[2]).clone(), cell(&[1], &[2]));
}

#[test]
fn different_cell_ids_have_different_texts() {
    // The same hexadecimal digits, split differently between the two parts.
    assert_ne!(cell(&[0xab], &[0xcd, 0xef]).to_string(), cell(&[0xab, 0xcd], &[0xef]).to_string());
    assert_ne!(cell(&[], &[0xab]).to_string(), cell(&[0xab], &[]).to_string());
}

#[test]
fn kind_subpaths() {
    assert_eq!(EnvironmentKind::Conductor.path(), "conductor");
    assert_eq!(EnvironmentKind::Wasm.path(), "wasm");
    assert_eq!(EnvironmentKind::P2p.path(), "p2p");
    assert_eq!(EnvironmentKind::Cell(cell(&[0x01], &[0x02])).path(), "cell-01-02");
}

#[test]
fn equal_ids_give_equal_subpaths_every_time() {
    let a = EnvironmentKind::Cell(cell(&[9, 8, 7], &[6, 5]));
    let b = EnvironmentKind::Cell(cell(&[9, 8, 7], &[6, 5]));
    assert_eq!(a.path(), b.path());
    assert_eq!(a.path(), a.path());
    assert_eq!(a.clone().path(), a.path());
}

#[test]
fn storage_paths() {
    assert_eq!(storage_path("/tmp/x", &EnvironmentKind::Conductor), "/tmp/x/conductor");
    assert_eq!(storage_path("/tmp/x/", &EnvironmentKind::Wasm), "/tmp/x/wasm");
    assert_eq!(storage_path("", &EnvironmentKind::P2p), "p2p");
    assert_eq!(storage_path("/", &EnvironmentKind::P2p), "/p2p");
    assert_eq!(
        storage_path("data", &EnvironmentKind::Cell(cell(&[0xff], &[0x00]))),
        "data/cell-ff-00"
    );
}

#[test]
fn join_agrees_with_std_paths() {
    for root in ["", "/", "/tmp", "/tmp/", "a/b", "a/b/", "relative", "/tmp/ü"] {
        for sub in ["conductor", "wasm", "p2p", "cell-01-02"] {
            let expected = Path::new(root).join(sub);
            assert_eq!(join(root, sub), expected.to_str().unwrap(), "{:?} {:?}", root, sub);
        }
    }
}

#[test]
fn kind_of_a_cell_knows_its_id() {
    let id = cell(&[1], &[2]);
    assert_eq!(EnvironmentKind::Cell(id.clone()).cell_id(), Some(&id));
    assert_eq!(EnvironmentKind::Conductor.cell_id(), None);
}

#[test]
fn cell_ids_key_collections() {
    let mut seen = std::collections::HashSet::new();
    assert!(seen.insert(cell(&[1], &[2])));
    assert!(!seen.insert(cell(&[1], &[2])));
    assert!(seen.insert(cell(&[1], &[3])));
    assert_eq!(seen.len(), 2);
}
