use cell_engine::bundle::SourceChainCommitBundle;
use cell_engine::cell_id::CellId;
use cell_engine::chain::ChainEntry;
use cell_engine::env::{DbConnection, KeystoreSender, Opened, ReadManager, WriteManager, Writer};
use cell_engine::error::{DatabaseError, WorkflowError};
use cell_engine::hash::Address;
use cell_engine::kind::EnvironmentKind;
use cell_engine::registry::{Registration, Registry, StorageHandle};
use cell_engine::workflow::{commit_bundle, commit_step, same_head};

const KEYSTORE: KeystoreSender = KeystoreSender { id: 7 };

fn entry(address: u8, content: &[u8]) -> ChainEntry {
    ChainEntry::new(Address::new(vec![address]), content.to_vec())
}

fn open(registry: &mut Registry, root: &str, kind: EnvironmentKind) -> Opened {
    DbConnection::new(registry, root, kind, KEYSTORE, true).unwrap()
}

fn conductor_db(registry: &mut Registry, root: &str) -> DbConnection {
    open(registry, root, EnvironmentKind::Conductor).created.unwrap()
}

fn commit(conn: &mut DbConnection, entries: Vec<ChainEntry>) {
    let r: Result<(), ()> = conn.with_commit(|mut w: Writer| {
        w.put_all(entries);
        (w, Ok(()))
    });
    assert_eq!(r, Ok(()));
}

fn addresses(conn: &DbConnection) -> Vec<Vec<u8>> {
    let reader = conn.reader();
    (0..conn.len())
        .map(|i| conn.get(&reader, i).unwrap().address().as_bytes().clone())
        .collect()
}

#[test]
fn registry_gives_one_handle_per_path() {
    let mut registry = Registry::new();
    assert_eq!(registry.len(), 0);
    assert_eq!(registry.lookup("/tmp/a"), None);
    let first = registry.register("/tmp/a").unwrap();
    assert_eq!(first, Registration { handle: StorageHandle { id: 0 }, fresh: true });
    let again = registry.register("/tmp/a").unwrap();
    assert_eq!(again, Registration { handle: StorageHandle { id: 0 }, fresh: false });
    let other = registry.register("/tmp/b").unwrap();
    assert_eq!(other, Registration { handle: StorageHandle { id: 1 }, fresh: true });
    assert_eq!(registry.register("/tmp/a").unwrap().handle, first.handle);
    assert_eq!(registry.len(), 2);
    assert_eq!(registry.lookup("/tmp/a"), Some(first.handle));
    assert_eq!(registry.lookup("/tmp/b"), Some(other.handle));
}

#[test]
fn unregistered_path_gets_a_new_handle_when_opened_again() {
    let mut registry = Registry::new();
    let first = registry.register("/tmp/a").unwrap();
    registry.register("/tmp/b").unwrap();
    assert!(registry.unregister("/tmp/a"));
    assert!(!registry.unregister("/tmp/a"));
    assert_eq!(registry.lookup("/tmp/a"), None);
    assert_eq!(registry.lookup("/tmp/b"), Some(StorageHandle { id: 1 }));
    let second = registry.register("/tmp/a").unwrap();
    assert!(second.fresh);
    assert_ne!(second.handle, first.handle);
    assert_eq!(second.handle, StorageHandle { id: 2 });
}

#[test]
fn registry_fails_when_no_handle_is_left() {
    let mut registry = Registry::starting_at(u64::MAX - 1);
    let last = registry.register("/tmp/a").unwrap();
    assert_eq!(last.handle, StorageHandle { id: u64::MAX - 1 });
    assert_eq!(registry.register("/tmp/b"), Err(DatabaseError::HandlesExhausted));
    assert_eq!(registry.len(), 1);
    // A path that is open can still be opened.
    assert_eq!(registry.register("/tmp/a").unwrap().handle, last.handle);
    let r = DbConnection::new(&mut registry, "/tmp", EnvironmentKind::Wasm, KEYSTORE, true);
    assert_eq!(r.err(), Some(DatabaseError::HandlesExhausted));
}

#[test]
fn two_opens_of_one_path_share_the_handle() {
    let mut registry = Registry::new();
    let first = open(&mut registry, "/tmp/x", EnvironmentKind::Conductor);
    let second = open(&mut registry, "/tmp/x", EnvironmentKind::Conductor);
    assert!(first.created.is_some());
    assert!(second.created.is_none());
    assert_eq!(first.env.handle(), second.env.handle());
    assert_eq!(first.env.path(), "/tmp/x/conductor");
    assert_eq!(second.env.path(), "/tmp/x/conductor");
    assert_eq!(*first.env.keystore(), KEYSTORE);
    assert_eq!(registry.len(), 1);
    let conn = first.created.unwrap();
    assert_eq!(conn.handle(), first.env.handle());
    assert_eq!(conn.path(), "/tmp/x/conductor");
    assert_eq!(conn.len(), 0);
    assert!(conn.head().is_none());
    assert_eq!(conn.read_only().handle(), second.env.handle());
}

#[test]
fn opens_in_either_order_end_with_one_handle_per_path() {
    for order in [[0usize, 1, 0, 1], [1, 0, 1, 0], [0, 0, 1, 1], [1, 1, 0, 0]] {
        let mut registry = Registry::new();
        let mut handles: [Vec<StorageHandle>; 2] = [Vec::new(), Vec::new()];
        let mut created = [0, 0];
        for who in order {
            let kind = if who == 0 { EnvironmentKind::Wasm } else { EnvironmentKind::P2p };
            let opened = open(&mut registry, "/tmp/x", kind);
            handles[who].push(opened.env.handle());
            if opened.created.is_some() {
                created[who] += 1;
            }
        }
        assert_eq!(handles[0][0], handles[0][1]);
        assert_eq!(handles[1][0], handles[1][1]);
        assert_ne!(handles[0][0], handles[1][0]);
        assert_eq!(created, [1, 1]);
        assert_eq!(registry.len(), 2);
    }
}

#[test]
fn different_kinds_and_cells_get_different_paths_and_handles() {
    let mut registry = Registry::new();
    let a = CellId::new(Address::new(vec![1]), Address::new(vec![2]));
    let b = CellId::new(Address::new(vec![1]), Address::new(vec![3]));
    let opened = [
        open(&mut registry, "/r", EnvironmentKind::Conductor),
        open(&mut registry, "/r", EnvironmentKind::Wasm),
        open(&mut registry, "/r", EnvironmentKind::P2p),
        DbConnection::new_cell(&mut registry, "/r", a, KEYSTORE, true).unwrap(),
        DbConnection::new_cell(&mut registry, "/r", b, KEYSTORE, true).unwrap(),
    ];
    for i in 0..opened.len() {
        for j in 0..i {
            assert_ne!(opened[i].env.path(), opened[j].env.path());
            assert_ne!(opened[i].env.handle(), opened[j].env.handle());
        }
    }
    assert_eq!(opened[3].env.path(), "/r/cell-01-02");
    assert_eq!(opened[4].env.path(), "/r/cell-01-03");
}

#[test]
fn missing_directory_fails_the_open() {
    let mut registry = Registry::new();
    let r = DbConnection::new(&mut registry, "/nowhere", EnvironmentKind::P2p, KEYSTORE, false);
    assert_eq!(r.err(), Some(DatabaseError::EnvironmentMissing("/nowhere/p2p".to_string())));
    assert_eq!(registry.len(), 0);
    // Also when the path is open already.
    open(&mut registry, "/nowhere", EnvironmentKind::P2p);
    let r = DbConnection::new(&mut registry, "/nowhere", EnvironmentKind::P2p, KEYSTORE, false);
    assert_eq!(r.err(), Some(DatabaseError::EnvironmentMissing("/nowhere/p2p".to_string())));
    assert_eq!(registry.len(), 1);
}

#[test]
fn removed_environment_opens_again_empty() {
    let mut registry = Registry::new();
    let first = open(&mut registry, "/tmp/x", EnvironmentKind::Conductor);
    let old_handle = first.env.handle();
    let mut conn = first.created.unwrap();
    commit(&mut conn, vec![entry(1, b"one"), entry(2, b"two")]);
    assert_eq!(conn.len(), 2);
    let stale_reader = conn.reader();

    assert_eq!(conn.remove(&mut registry), Some("/tmp/x/conductor".to_string()));
    assert_eq!(registry.len(), 0);
    assert_eq!(registry.lookup("/tmp/x/conductor"), None);

    let second = open(&mut registry, "/tmp/x", EnvironmentKind::Conductor);
    let fresh = second.created.expect("a removed path is registered anew");
    assert_eq!(fresh.len(), 0);
    assert!(fresh.head().is_none());
    assert_ne!(fresh.handle(), old_handle);
    assert_eq!(second.env.path(), "/tmp/x/conductor");
    // A reader of the removed instance sees nothing of the new one.
    assert_eq!(fresh.visible_len(&stale_reader), 0);
    assert!(fresh.get(&stale_reader, 0).is_none());
}

#[test]
fn stale_connection_removes_nothing() {
    let mut registry = Registry::new();
    let old = conductor_db(&mut registry, "/tmp/x");
    assert!(registry.unregister("/tmp/x/conductor"));
    let new_handle = open(&mut registry, "/tmp/x", EnvironmentKind::Conductor).env.handle();
    assert_eq!(old.remove(&mut registry), None);
    assert_eq!(registry.lookup("/tmp/x/conductor"), Some(new_handle));
}

#[test]
fn commit_appends_in_order_and_moves_the_head() {
    let mut registry = Registry::new();
    let mut conn = conductor_db(&mut registry, "/tmp/x");
    commit(&mut conn, vec![entry(1, b"a"), entry(2, b"b")]);
    commit(&mut conn, vec![]);
    commit(&mut conn, vec![entry(3, b"c")]);
    assert_eq!(addresses(&conn), vec![vec![1], vec![2], vec![3]]);
    assert_eq!(conn.head(), Some(&Address::new(vec![3])));
    let reader = conn.reader();
    assert_eq!(conn.get(&reader, 1).unwrap().content(), &b"b".to_vec());
    assert!(conn.get(&reader, 3).is_none());
}

#[test]
fn failed_closure_rolls_back_and_hands_on_its_error() {
    let mut registry = Registry::new();
    let mut conn = conductor_db(&mut registry, "/tmp/x");
    commit(&mut conn, vec![entry(1, b"a")]);
    let r: Result<u8, String> = conn.with_commit(|mut w: Writer| {
        w.put(entry(2, b"b"));
        w.put(entry(3, b"c"));
        assert_eq!(w.len(), 2);
        (w, Err("the cause".to_string()))
    });
    assert_eq!(r, Err("the cause".to_string()));
    assert_eq!(addresses(&conn), vec![vec![1]]);
    assert_eq!(conn.head(), Some(&Address::new(vec![1])));
    let r: Result<u8, String> = conn.with_commit(|mut w: Writer| {
        w.put(entry(2, b"b"));
        (w, Ok(5))
    });
    assert_eq!(r, Ok(5));
    assert_eq!(addresses(&conn), vec![vec![1], vec![2]]);
}

#[test]
fn writer_sees_the_head_it_began_on_and_what_it_staged() {
    let mut registry = Registry::new();
    let mut conn = conductor_db(&mut registry, "/tmp/x");
    assert!(conn.txn().head().is_none());
    commit(&mut conn, vec![entry(1, b"a")]);
    let mut w = conn.txn();
    assert_eq!(w.len(), 0);
    assert_eq!(w.head(), Some(&Address::new(vec![1])));
    w.put(entry(9, b"z"));
    assert_eq!(w.head(), Some(&Address::new(vec![9])));
    // Nothing is committed by staging.
    assert_eq!(conn.len(), 1);
}

#[test]
fn reader_never_sees_later_commits() {
    let mut registry = Registry::new();
    let mut conn = conductor_db(&mut registry, "/tmp/x");
    commit(&mut conn, vec![entry(1, b"a")]);
    let before = conn.reader();
    commit(&mut conn, vec![entry(2, b"b"), entry(3, b"c")]);
    let after = conn.reader();

    assert_eq!(conn.visible_len(&before), 1);
    assert_eq!(conn.head_at(&before), Some(&Address::new(vec![1])));
    assert!(conn.get(&before, 1).is_none());
    assert!(conn.get_entry(&before, &Address::new(vec![2])).is_none());
    assert!(conn.get_entry(&before, &Address::new(vec![1])).is_some());

    assert_eq!(conn.visible_len(&after), 3);
    assert_eq!(conn.head_at(&after), Some(&Address::new(vec![3])));
    assert_eq!(conn.get_entry(&after, &Address::new(vec![2])).unwrap().content(), &b"b".to_vec());
}

#[test]
fn lookup_by_address_finds_the_earliest_entry() {
    let mut registry = Registry::new();
    let mut conn = conductor_db(&mut registry, "/tmp/x");
    commit(&mut conn, vec![entry(1, b"first"), entry(2, b"x"), entry(1, b"second")]);
    let reader = conn.reader();
    let found = conn.get_entry(&reader, &Address::new(vec![1])).unwrap();
    assert_eq!(found.content(), &b"first".to_vec());
    assert!(conn.get_entry(&reader, &Address::new(vec![5])).is_none());
}

#[test]
fn reader_of_another_instance_sees_nothing() {
    let mut registry = Registry::new();
    let mut a = conductor_db(&mut registry, "/a");
    let mut b = conductor_db(&mut registry, "/b");
    commit(&mut a, vec![entry(1, b"a")]);
    commit(&mut b, vec![entry(2, b"b")]);
    let of_a = a.reader();
    assert_eq!(b.visible_len(&of_a), 0);
    assert!(b.get(&of_a, 0).is_none());
    assert!(b.head_at(&of_a).is_none());
    assert!(b.get_entry(&of_a, &Address::new(vec![2])).is_none());
    assert_eq!(a.read_only().guard(&b), None);
    assert_eq!(a.read_only().guard(&a), Some(of_a));
}

#[test]
fn with_reader_runs_on_a_snapshot() {
    let mut registry = Registry::new();
    let mut conn = conductor_db(&mut registry, "/tmp/x");
    commit(&mut conn, vec![entry(1, b"a"), entry(2, b"b")]);
    let handle = conn.handle();
    let r: Result<usize, ()> = conn.with_reader(|reader| {
        assert_eq!(reader.handle, handle);
        Ok(reader.visible)
    });
    assert_eq!(r, Ok(2));
    let r: Result<usize, u8> = conn.with_reader(|_| Err(3));
    assert_eq!(r, Err(3));
}

#[test]
fn guard_is_the_connection_itself() {
    let mut registry = Registry::new();
    let mut conn = conductor_db(&mut registry, "/tmp/x");
    commit(conn.guard(), vec![entry(1, b"a")]);
    assert_eq!(conn.len(), 1);
}

#[test]
fn bundle_keeps_order_and_head() {
    let mut bundle = SourceChainCommitBundle::new(Some(Address::new(vec![9])));
    assert!(bundle.is_empty());
    bundle.stage(entry(1, b"a"));
    bundle.stage(entry(2, b"b"));
    assert_eq!(bundle.len(), 2);
    assert!(!bundle.is_empty());
    assert_eq!(bundle.captured_head(), Some(&Address::new(vec![9])));
    let staged: Vec<_> = bundle.entries().iter().map(|e| e.address().as_bytes().clone()).collect();
    assert_eq!(staged, vec![vec![1], vec![2]]);
    let (head, entries) = bundle.into_parts();
    assert_eq!(head, Some(Address::new(vec![9])));
    assert_eq!(entries.len(), 2);
    assert!(SourceChainCommitBundle::new(None).captured_head().is_none());
}

#[test]
fn bundle_on_the_current_head_commits() {
    let mut registry = Registry::new();
    let mut conn = conductor_db(&mut registry, "/tmp/x");
    let mut bundle = SourceChainCommitBundle::new(None);
    bundle.stage(entry(1, b"a"));
    bundle.stage(entry(2, b"b"));
    assert_eq!(commit_bundle(&mut conn, bundle), Ok(()));
    assert_eq!(addresses(&conn), vec![vec![1], vec![2]]);

    let mut next = SourceChainCommitBundle::new(Some(Address::new(vec![2])));
    next.stage(entry(3, b"c"));
    assert_eq!(commit_bundle(&mut conn, next), Ok(()));
    assert_eq!(addresses(&conn), vec![vec![1], vec![2], vec![3]]);
}

#[test]
fn bundle_on_a_stale_head_is_rejected() {
    let mut registry = Registry::new();
    let mut conn = conductor_db(&mut registry, "/tmp/x");
    commit(&mut conn, vec![entry(1, b"a")]);
    // Two bundles are made on head 1.
    let mut first = SourceChainCommitBundle::new(Some(Address::new(vec![1])));
    first.stage(entry(2, b"b"));
    let mut second = SourceChainCommitBundle::new(Some(Address::new(vec![1])));
    second.stage(entry(3, b"c"));
    second.stage(entry(4, b"d"));

    assert_eq!(commit_bundle(&mut conn, first), Ok(()));
    assert_eq!(commit_bundle(&mut conn, second), Err(WorkflowError::StaleHead));
    // The chain is as the first commit left it.
    assert_eq!(addresses(&conn), vec![vec![1], vec![2]]);
    assert_eq!(conn.head(), Some(&Address::new(vec![2])));

    // A bundle made on no head is stale on a chain that has one.
    let empty_head = SourceChainCommitBundle::new(None);
    assert_eq!(commit_bundle(&mut conn, empty_head), Err(WorkflowError::StaleHead));
    assert_eq!(conn.len(), 2);
}

#[test]
fn commit_step_checks_the_head_that_the_writer_sees() {
    let mut registry = Registry::new();
    let mut conn = conductor_db(&mut registry, "/tmp/x");
    commit(&mut conn, vec![entry(1, b"a")]);
    let mut bundle = SourceChainCommitBundle::new(Some(Address::new(vec![1])));
    bundle.stage(entry(2, b"b"));
    let (w, r) = commit_step(conn.txn(), bundle);
    assert_eq!(r, Ok(()));
    assert_eq!(w.len(), 1);
    let (w, r) = commit_step(conn.txn(), SourceChainCommitBundle::new(Some(Address::new(vec![7]))));
    assert_eq!(r, Err(WorkflowError::StaleHead));
    assert_eq!(w.len(), 0);
}

#[test]
fn same_head_compares_optional_addresses() {
    let a = Address::new(vec![1]);
    let b = Address::new(vec![2]);
    assert!(same_head(None, None));
    assert!(same_head(Some(&a), Some(&a.clone())));
    assert!(!same_head(Some(&a), Some(&b)));
    assert!(!same_head(Some(&a), None));
    assert!(!same_head(None, Some(&a)));
}
