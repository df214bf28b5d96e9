use cell_engine::db_string::DbString;
use cell_engine::debug::DebugMsg;
use cell_engine::options::{
    create_lmdb_env, default_flags, required_flags, rkv_builder, EnvironmentOptions,
    DEFAULT_INITIAL_MAP_SIZE, MAX_DBS,
};
use rkv::EnvironmentFlags;

#[test]
fn db_string_is_its_utf8_bytes() {
    let s = DbString::from("héllo");
    assert_eq!(s.as_ref(), "héllo".as_bytes());
    assert_eq!(s.as_str(), "héllo");
    assert_eq!(DbString::from(String::from("abc")).as_ref(), b"abc");
    assert_eq!(DbString::from("").as_ref(), b"");
}

#[test]
fn db_string_reads_key_bytes_back() {
    let bytes = "clé-ключ-鍵".as_bytes();
    let s = DbString::from_key_bytes_or_friendly_panic(bytes);
    assert_eq!(s, DbString::from("clé-ключ-鍵"));
    assert_eq!(s.as_ref(), bytes);
    assert_eq!(DbString::from_key_bytes(bytes), Some(s));
    assert_eq!(DbString::from_key_bytes(b""), Some(DbString::from("")));
}

#[test]
fn db_string_rejects_bytes_that_are_no_utf8() {
    assert_eq!(DbString::from_key_bytes(&[0xff]), None);
    assert_eq!(DbString::from_key_bytes(&[b'a', 0xc3]), None);
    assert_eq!(DbString::from_key_bytes(&[0xed, 0xa0, 0x80]), None);
    assert_eq!(DbString::from_key_bytes(&[0xc0, 0x80]), None);
}

#[test]
fn db_strings_are_ordered_as_their_texts() {
    assert!(DbString::from("a") < DbString::from("b"));
    assert!(DbString::from("a") < DbString::from("aa"));
    assert_eq!(DbString::from("x").clone(), DbString::from("x"));
}

#[test]
fn debug_msg_keeps_its_parts() {
    let m = DebugMsg::new(
        "my_zome::handlers".to_string(),
        "src/debug.rs".to_string(),
        5,
        "info: operation complete".to_string(),
    );
    assert_eq!(m.msg(), "info: operation complete");
    assert_eq!(m.module_name(), "my_zome::handlers");
    assert_eq!(m.file(), "src/debug.rs");
    assert_eq!(m.line(), 5);
    assert_eq!(m.clone(), m);
}

#[test]
fn default_flags_trade_durability_for_speed() {
    let flags = default_flags();
    assert_eq!(flags, EnvironmentFlags::WRITE_MAP | EnvironmentFlags::MAP_ASYNC);
    assert!(flags.contains(EnvironmentFlags::WRITE_MAP));
    assert!(flags.contains(EnvironmentFlags::MAP_ASYNC));
    assert!(!flags.contains(EnvironmentFlags::NO_SYNC));
    assert!(!flags.contains(EnvironmentFlags::READ_ONLY));
    assert!(!flags.contains(EnvironmentFlags::NO_TLS));
    assert_eq!(flags.bits(), 0x80000 + 0x100000);
}

#[test]
fn required_flags_depend_on_reader_slots() {
    assert_eq!(required_flags(false), EnvironmentFlags::empty());
    assert_eq!(required_flags(true), EnvironmentFlags::NO_TLS);
}

#[test]
fn builder_options() {
    assert_eq!(DEFAULT_INITIAL_MAP_SIZE, 100 * 1024 * 1024);
    assert_eq!(MAX_DBS, 32);
    assert_eq!(
        rkv_builder(None, None, false),
        EnvironmentOptions { map_size: 104_857_600, max_dbs: 32, flags: default_flags() }
    );
    assert_eq!(rkv_builder(None, None, false), create_lmdb_env());
    assert_eq!(
        rkv_builder(Some(4096), None, true),
        EnvironmentOptions {
            map_size: 4096,
            max_dbs: 32,
            flags: EnvironmentFlags::WRITE_MAP
                | EnvironmentFlags::MAP_ASYNC
                | EnvironmentFlags::NO_TLS,
        }
    );
    // Named flags replace the default ones; the required ones are added.
    let named = EnvironmentFlags::READ_ONLY | EnvironmentFlags::NO_LOCK;
    assert_eq!(rkv_builder(None, Some(named), false).flags, named);
    assert_eq!(rkv_builder(None, Some(named), true).flags, named | EnvironmentFlags::NO_TLS);
    assert_eq!(
        rkv_builder(None, Some(EnvironmentFlags::empty()), false).flags,
        EnvironmentFlags::empty()
    );
    assert_eq!(
        rkv_builder(None, Some(EnvironmentFlags::NO_TLS), true).flags,
        EnvironmentFlags::NO_TLS
    );
}

#[test]
fn init_fails_with_its_reason() {
    let globals = cell_engine::init_fail::ZomeGlobals { zome_name: "init_fail".to_string() };
    assert_eq!(
        cell_engine::init_fail::init(globals),
        cell_engine::init_fail::InitCallbackResult::Fail(
            "init_fail".to_string(),
            "because i said so".to_string()
        )
    );
}
