use cell_engine::config::{EntryOutcome, KitsuneP2pTuningParams, TuningParam, PARAM_COUNT};

fn entries(pairs: &[(&str, &str)]) -> Vec<(String, String)> {
    pairs.iter().map(|(k, v)| (k.to_string(), v.to_string())).collect()
}

#[test]
fn default_values() {
    let p = KitsuneP2pTuningParams::default();
    assert_eq!(p.gossip_loop_iteration_delay_ms, 10);
    assert_eq!(p.default_notify_remote_agent_count, 5);
    assert_eq!(p.default_notify_timeout_ms, 1000);
    assert_eq!(p.default_rpc_single_timeout_ms, 2000);
    assert_eq!(p.default_rpc_multi_remote_agent_count, 2);
    assert_eq!(p.default_rpc_multi_timeout_ms, 2000);
    assert_eq!(p.agent_info_expires_after_ms, 1000 * 60 * 20);
    assert_eq!(p.tls_in_mem_session_storage, 512);
    assert_eq!(p.proxy_keepalive_ms, 1000 * 60 * 2);
    assert_eq!(p.proxy_to_expire_ms, 1000 * 60 * 5);
    assert_eq!(p.concurrent_recv_buffer, 512);
    assert_eq!(p.quic_max_idle_timeout_ms, 1000 * 30);
    assert_eq!(p.quic_connection_channel_limit, 512);
    assert_eq!(p.quic_window_multiplier, 1);
    assert_eq!(p.quic_crypto_buffer_multiplier, 1);
}

#[test]
fn empty_map_gives_defaults() {
    let (p, outcomes) = KitsuneP2pTuningParams::from_entries(&Vec::new());
    assert_eq!(p, KitsuneP2pTuningParams::default());
    assert!(outcomes.is_empty());
}

#[test]
fn entries_override_defaults() {
    let (p, outcomes) = KitsuneP2pTuningParams::from_entries(&entries(&[
        ("gossip_loop_iteration_delay_ms", "42"),
        ("quic_window_multiplier", "+7"),
        ("proxy_to_expire_ms", "0"),
    ]));
    let mut expected = KitsuneP2pTuningParams::default();
    expected.gossip_loop_iteration_delay_ms = 42;
    expected.quic_window_multiplier = 7;
    expected.proxy_to_expire_ms = 0;
    assert_eq!(p, expected);
    assert_eq!(outcomes, vec![EntryOutcome::Applied; 3]);
}

#[test]
fn unknown_and_invalid_entries_are_reported_and_ignored() {
    let (p, outcomes) = KitsuneP2pTuningParams::from_entries(&entries(&[
        ("no_such_param", "1"),
        ("proxy_keepalive_ms", "soon"),
        ("proxy_keepalive_ms", "-1"),
        ("proxy_keepalive_ms", "4294967296"),
        ("proxy_keepalive_ms", ""),
        ("Proxy_keepalive_ms", "5"),
        ("concurrent_recv_buffer", "1024"),
    ]));
    let mut expected = KitsuneP2pTuningParams::default();
    expected.concurrent_recv_buffer = 1024;
    assert_eq!(p, expected);
    assert_eq!(
        outcomes,
        vec![
            EntryOutcome::UnknownParam,
            EntryOutcome::InvalidValue,
            EntryOutcome::InvalidValue,
            EntryOutcome::InvalidValue,
            EntryOutcome::InvalidValue,
            EntryOutcome::UnknownParam,
            EntryOutcome::Applied,
        ]
    );
}

#[test]
fn later_entry_of_a_name_wins() {
    let (p, _) = KitsuneP2pTuningParams::from_entries(&entries(&[
        ("tls_in_mem_session_storage", "1"),
        ("tls_in_mem_session_storage", "2"),
    ]));
    assert_eq!(p.tls_in_mem_session_storage, 2);
}

#[test]
fn entries_with_different_names_commute() {
    let a = entries(&[("quic_max_idle_timeout_ms", "1"), ("default_notify_timeout_ms", "2")]);
    let b = entries(&[("default_notify_timeout_ms", "2"), ("quic_max_idle_timeout_ms", "1")]);
    assert_eq!(
        KitsuneP2pTuningParams::from_entries(&a).0,
        KitsuneP2pTuningParams::from_entries(&b).0
    );
}

#[test]
fn written_map_has_every_param_in_order() {
    let written = KitsuneP2pTuningParams::default().to_entries();
    let expected = entries(&[
        ("gossip_loop_iteration_delay_ms", "10"),
        ("default_notify_remote_agent_count", "5"),
        ("default_notify_timeout_ms", "1000"),
        ("default_rpc_single_timeout_ms", "2000"),
        ("default_rpc_multi_remote_agent_count", "2"),
        ("default_rpc_multi_timeout_ms", "2000"),
        ("agent_info_expires_after_ms", "1200000"),
        ("tls_in_mem_session_storage", "512"),
        ("proxy_keepalive_ms", "120000"),
        ("proxy_to_expire_ms", "300000"),
        ("concurrent_recv_buffer", "512"),
        ("quic_max_idle_timeout_ms", "30000"),
        ("quic_connection_channel_limit", "512"),
        ("quic_window_multiplier", "1"),
        ("quic_crypto_buffer_multiplier", "1"),
    ]);
    assert_eq!(written, expected);
    assert_eq!(written.len(), PARAM_COUNT);
}

#[test]
fn written_map_reads_back() {
    let mut p = KitsuneP2pTuningParams::default();
    for i in 0..PARAM_COUNT {
        p.set(TuningParam::at(i), (i as u32) * 1_000_003 + 17);
    }
    p.quic_crypto_buffer_multiplier = u32::MAX;
    let (back, outcomes) = KitsuneP2pTuningParams::from_entries(&p.to_entries());
    assert_eq!(back, p);
    assert!(outcomes.iter().all(|o| *o == EntryOutcome::Applied));
}

#[test]
fn names_lead_back_to_params() {
    for i in 0..PARAM_COUNT {
        let param = TuningParam::at(i);
        assert_eq!(TuningParam::from_name(param.name()), Some(param));
    }
    assert_eq!(TuningParam::from_name("proxy_keepalive_ms"), Some(TuningParam::ProxyKeepaliveMs));
    assert_eq!(TuningParam::from_name("proxy_keepalive"), None);
    assert_eq!(TuningParam::from_name(""), None);
}

#[test]
fn apply_entry_sets_one_param() {
    let mut p = KitsuneP2pTuningParams::default();
    assert_eq!(p.apply_entry("default_rpc_multi_timeout_ms", "77"), EntryOutcome::Applied);
    assert_eq!(p.get(TuningParam::DefaultRpcMultiTimeoutMs), 77);
    let before = p;
    assert_eq!(p.apply_entry("default_rpc_multi_timeout_ms", "7.7"), EntryOutcome::InvalidValue);
    assert_eq!(p.apply_entry("default_rpc_multi_timeout", "7"), EntryOutcome::UnknownParam);
    assert_eq!(p, before);
}
