use cell_engine::cell::ConductorHandle;
use cell_engine::cell_id::CellId;
use cell_engine::config::KitsuneP2pTuningParams;
use cell_engine::cool_conductor::{
    standard_config, AppSetup, CoolApp, CoolCell, CoolConductor, CoolConductorBatch,
    CoolConductorHandle, CoolZome, InstalledCell, TransportConfig,
};
use cell_engine::env::KeystoreSender;
use cell_engine::error::DatabaseError;
use cell_engine::hash::Address;
use cell_engine::kind::EnvironmentKind;
use cell_engine::nucleus::ZomeInvocationResponse;
use cell_engine::error::WorkflowError;
use cell_engine::registry::Registry;
use holochain_serialized_bytes::{SerializedBytes, UnsafeBytes};
use cell_engine::test_utils::{
    test_cell_env, test_conductor_env, test_env, test_environments, test_p2p_env, test_wasm_env,
    TestEnvironments,
};

const KEYSTORE: KeystoreSender = KeystoreSender { id: 11 };

fn sb(bytes: &[u8]) -> SerializedBytes {
    SerializedBytes::from(UnsafeBytes::from(bytes.to_vec()))
}

fn hashes(bytes: &[u8]) -> Vec<Address> {
    bytes.iter().map(|b| Address::new(vec![*b])).collect()
}

fn conductor(registry: &mut Registry, root: &str, id: u64) -> CoolConductor {
    let envs = test_environments(registry, root, KEYSTORE, true).unwrap();
    CoolConductor::new(ConductorHandle { id }, envs, standard_config())
}

fn check_setup(app: &AppSetup, id: &str, agent: u8, dnas: &[u8], activate: bool) {
    assert_eq!(app.installed_app_id, id);
    assert_eq!(app.dnas, hashes(dnas));
    assert_eq!(app.activate, activate);
    assert_eq!(app.cells.len(), dnas.len());
    for (cell, dna) in app.cells.iter().zip(dnas) {
        let expected = CellId::new(Address::new(vec![*dna]), Address::new(vec![agent]));
        assert_eq!(cell.as_id(), &expected);
        assert_eq!(cell.as_nick(), &format!("{:02x}", dna));
    }
}

#[test]
fn test_environments_open_three_partitions() {
    let mut registry = Registry::new();
    let envs = TestEnvironments::new(&mut registry, "/tmp/t", KEYSTORE, true).unwrap();
    assert_eq!(envs.conductor().path(), "/tmp/t/conductor");
    assert_eq!(envs.wasm().path(), "/tmp/t/wasm");
    assert_eq!(envs.p2p().path(), "/tmp/t/p2p");
    assert_ne!(envs.conductor().handle(), envs.wasm().handle());
    assert_ne!(envs.conductor().handle(), envs.p2p().handle());
    assert_ne!(envs.wasm().handle(), envs.p2p().handle());
    assert_eq!(envs.tempdir(), "/tmp/t");
    assert_eq!(envs.keystore(), KEYSTORE);
    assert_eq!(registry.len(), 3);
    assert_eq!(registry.lookup("/tmp/t/wasm"), Some(envs.wasm().handle()));
}

#[test]
fn test_environments_need_their_directories_and_handles() {
    let mut registry = Registry::new();
    let r = test_environments(&mut registry, "/tmp/t", KEYSTORE, false);
    assert_eq!(r.err(), Some(DatabaseError::EnvironmentMissing("/tmp/t/conductor".to_string())));
    assert_eq!(registry.len(), 0);
    let mut nearly_full = Registry::starting_at(u64::MAX - 2);
    let r = test_environments(&mut nearly_full, "/tmp/t", KEYSTORE, true);
    assert_eq!(r.err(), Some(DatabaseError::HandlesExhausted));
    let mut enough = Registry::starting_at(u64::MAX - 3);
    assert!(test_environments(&mut enough, "/tmp/t", KEYSTORE, true).is_ok());
}

#[test]
fn single_test_environments() {
    let mut registry = Registry::new();
    let id = CellId::new(Address::new(vec![1]), Address::new(vec![2]));
    let cell = test_cell_env(&mut registry, "/t", id.clone(), KEYSTORE, true).unwrap();
    assert_eq!(cell.env().path(), "/t/cell-01-02");
    assert_eq!(cell.env().kind().cell_id(), Some(&id));
    assert_eq!(cell.tmpdir(), "/t");
    let conductor = test_conductor_env(&mut registry, "/t", KEYSTORE, true).unwrap();
    assert_eq!(conductor.env().path(), "/t/conductor");
    assert_eq!(test_wasm_env(&mut registry, "/t", KEYSTORE, true).unwrap().env().path(), "/t/wasm");
    assert_eq!(test_p2p_env(&mut registry, "/t", KEYSTORE, true).unwrap().env().path(), "/t/p2p");
    let again = test_env(&mut registry, "/t", EnvironmentKind::Conductor, KEYSTORE, true).unwrap();
    assert_eq!(again.env().handle(), conductor.env().handle());
    let opened = conductor.into_opened();
    assert_eq!(opened.created.unwrap().len(), 0);
    assert!(again.into_opened().created.is_none());
    let missing = test_p2p_env(&mut registry, "/u", KEYSTORE, false);
    assert_eq!(missing.err(), Some(DatabaseError::EnvironmentMissing("/u/p2p".to_string())));
}

#[test]
fn standard_config_uses_quic() {
    let config = standard_config();
    let network = config.network.unwrap();
    assert_eq!(
        network.transport_pool,
        vec![TransportConfig::Quic { bind_to: None, override_host: None, override_port: None }]
    );
    assert_eq!(network.tuning_params, KitsuneP2pTuningParams::default());
}

#[test]
fn conductor_shuts_down_and_starts_again() {
    let mut registry = Registry::new();
    let mut c = conductor(&mut registry, "/c", 1);
    assert!(c.is_running());
    assert_eq!(c.handle(), CoolConductorHandle(ConductorHandle { id: 1 }));
    assert_eq!(c.keystore(), KEYSTORE);
    assert_eq!(c.envs().wasm().path(), "/c/wasm");
    assert_eq!(c.config(), &standard_config());
    c.setup_app_for_agent("app", &Address::new(vec![9]), &hashes(&[1, 2]));
    c.setup_app_inner("other", &Address::new(vec![9]), &hashes(&[3]), false);

    assert_eq!(c.shutdown(), CoolConductorHandle(ConductorHandle { id: 1 }));
    assert!(!c.is_running());
    assert_eq!(c.dnas(), &hashes(&[1, 2, 3]));

    // The DNAs are installed anew, in the order of their first installation.
    assert_eq!(c.startup(ConductorHandle { id: 2 }), hashes(&[1, 2, 3]));
    assert!(c.is_running());
    assert_eq!(c.handle(), CoolConductorHandle(ConductorHandle { id: 2 }));
    assert_eq!(c.dnas(), &hashes(&[1, 2, 3]));
}

#[test]
fn app_setup_has_one_cell_for_each_dna() {
    let mut registry = Registry::new();
    let mut c = conductor(&mut registry, "/c", 1);
    let app = c.setup_app_inner("app", &Address::new(vec![0xa1]), &hashes(&[1, 0xfe]), false);
    check_setup(&app, "app", 0xa1, &[1, 0xfe], false);
    let app = c.setup_app_for_agent("app2", &Address::new(vec![0xa2]), &hashes(&[7]));
    check_setup(&app, "app2", 0xa2, &[7], true);
    let none = c.setup_app_for_agent("empty", &Address::new(vec![0xa2]), &hashes(&[]));
    check_setup(&none, "empty", 0xa2, &[], true);
    assert_eq!(c.dnas(), &hashes(&[1, 0xfe, 7]));
}

#[test]
fn one_app_for_each_agent_in_the_order_of_the_agents() {
    let mut registry = Registry::new();
    let mut c = conductor(&mut registry, "/c", 1);
    let apps = c.setup_app_for_agents("app-", &hashes(&[0x0a, 0x0b, 0x0c]), &hashes(&[1, 2]));
    assert_eq!(apps.len(), 3);
    check_setup(&apps[0], "app-0a", 0x0a, &[1, 2], true);
    check_setup(&apps[1], "app-0b", 0x0b, &[1, 2], true);
    check_setup(&apps[2], "app-0c", 0x0c, &[1, 2], true);
    // The DNAs are noted once for each app.
    assert_eq!(c.dnas(), &hashes(&[1, 2, 1, 2, 1, 2]));
    assert!(c.setup_app_for_agents("app-", &hashes(&[]), &hashes(&[1])).is_empty());
}

#[test]
fn batch_sets_up_one_app_on_each_conductor() {
    let mut registry = Registry::new();
    let conductors =
        vec![conductor(&mut registry, "/a", 1), conductor(&mut registry, "/b", 2)];
    let mut batch = CoolConductorBatch::new(conductors);
    assert_eq!(batch.len(), 2);
    assert!(batch.all_running());
    let apps = batch.setup_app_for_zipped_agents("app", &hashes(&[0x10, 0x20]), &hashes(&[5]));
    assert_eq!(apps.len(), 2);
    check_setup(&apps[0], "app", 0x10, &[5], true);
    check_setup(&apps[1], "app", 0x20, &[5], true);
    assert_eq!(batch.index(0).dnas(), &hashes(&[5]));
    assert_eq!(batch.index(1).dnas(), &hashes(&[5]));
    assert_eq!(batch.iter().len(), 2);

    let p2p = batch.exchange_peer_info();
    assert_eq!(p2p.len(), 2);
    assert_eq!(p2p[0].path(), "/a/p2p");
    assert_eq!(p2p[1].path(), "/b/p2p");

    let mut conductors = batch.into_inner();
    conductors[1].shutdown();
    assert!(!CoolConductorBatch::new(conductors).all_running());
    assert!(CoolConductorBatch::new(Vec::new()).all_running());
}

#[test]
fn calls_are_made_on_behalf_of_an_agent() {
    let handle = CoolConductorHandle(ConductorHandle { id: 1 });
    let cell_id = CellId::new(Address::new(vec![1]), Address::new(vec![2]));
    let zome = CoolZome::new(cell_id.clone(), "zome1".to_string());
    assert_eq!(zome.cell_id(), &cell_id);
    assert_eq!(zome.name(), "zome1");

    let call = handle.call(&zome, "create", sb(&[1, 2, 3]));
    assert_eq!(call.cell_id, cell_id);
    assert_eq!(call.zome_name, "zome1");
    assert_eq!(call.fn_name, "create");
    assert_eq!(call.cap, None);
    assert_eq!(call.provenance, Address::new(vec![2]));
    assert_eq!(call.payload, sb(&[1, 2, 3]));

    let other = Address::new(vec![0xee]);
    let call = handle.call_from(&other, Some(vec![4, 4]), &zome, "read", sb(&[]));
    assert_eq!(call.cell_id, cell_id);
    assert_eq!(call.fn_name, "read");
    assert_eq!(call.cap, Some(vec![4, 4]));
    assert_eq!(call.provenance, other);
    assert_eq!(call.payload, sb(&[]));
}

#[test]
fn output_of_a_call() {
    let ok = ZomeInvocationResponse::ZomeApiFn(sb(&[1, 2]));
    assert_eq!(CoolConductorHandle::call_inner(ok), Some(sb(&[1, 2])));
    let failed = ZomeInvocationResponse::Error(WorkflowError::StaleHead);
    assert_eq!(CoolConductorHandle::call_inner(failed), None);
}

#[test]
fn apps_and_cells_keep_what_they_are_given() {
    let mut registry = Registry::new();
    let id = CellId::new(Address::new(vec![1]), Address::new(vec![2]));
    let env = test_cell_env(&mut registry, "/t", id.clone(), KEYSTORE, true).unwrap().env();
    let handle = env.handle();
    let cell = CoolCell { cell_id: id.clone(), cell_env: env };
    assert_eq!(cell.cell_id(), &id);
    assert_eq!(cell.env().handle(), handle);
    let app = CoolApp::new("app".to_string(), vec![cell]);
    assert_eq!(app.installed_app_id(), "app");
    assert_eq!(app.cells().len(), 1);
    let installed = InstalledCell::new(id.clone(), "nick".to_string());
    assert_eq!(installed.as_id(), &id);
    assert_eq!(installed.as_nick(), "nick");
}
