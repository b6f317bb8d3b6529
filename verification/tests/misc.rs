use lib_shared::libconfig::configs::monster::MonsterConfig;
use lib_shared::libconfig::IConfig;
use lib_shared::logger::{
    debug_for_level, file_keeps, file_line, file_name_pattern, info_line, native_level, native_record, remove_all_of,
    LogFile, LogLevel,
};
use lib_shared::proto::msg_channel::{ChannelClientType, FieldRead, MsgChannelConnect, WireKind};
use lib_shared::{file_listed, normalize_path, session_token_of, ConditionCheck};

#[test]
fn condition_check_codes() {
    assert_eq!(ConditionCheck::new(1, 5), ConditionCheck::BiggerOrEqual(5));
    assert_eq!(ConditionCheck::new(2, 5), ConditionCheck::SmallerOrEqual(5));
    assert_eq!(ConditionCheck::new(3, 5), ConditionCheck::Bigger(5));
    assert_eq!(ConditionCheck::new(4, 5), ConditionCheck::Smaller(5));
    assert_eq!(ConditionCheck::new(5, 5), ConditionCheck::Equal(5));
    assert_eq!(ConditionCheck::new(6, 5), ConditionCheck::NotEqual(5));
    assert_eq!(ConditionCheck::new(0, 5), ConditionCheck::NotEqual(5));
}

#[test]
fn condition_check_compares_stored_with_given() {
    assert!(ConditionCheck::Bigger(5).valid(&4));
    assert!(!ConditionCheck::Bigger(5).valid(&5));
    assert!(ConditionCheck::BiggerOrEqual(5).valid(&5));
    assert!(!ConditionCheck::BiggerOrEqual(5).valid(&6));
    assert!(ConditionCheck::Smaller(5).valid(&6));
    assert!(!ConditionCheck::Smaller(5).valid(&5));
    assert!(ConditionCheck::SmallerOrEqual(5).valid(&5));
    assert!(ConditionCheck::Equal(5).valid(&5));
    assert!(!ConditionCheck::Equal(5).valid(&4));
    assert!(ConditionCheck::NotEqual(5).valid(&4));
    assert!(!ConditionCheck::NotEqual(5).valid(&5));
}

#[test]
fn session_token_packs_worker_above_sequence() {
    assert_eq!(session_token_of(1, 2), 0x0000_0002_0000_0001);
    assert_eq!(session_token_of(0x1_2345_6789, 0xFFFF_FFFF_0000_0003), 0x0000_0003_2345_6789);
}

#[test]
fn files_are_listed_by_extension() {
    assert!(file_listed("", None));
    assert!(file_listed("", Some("rs")));
    assert!(file_listed("json,toml", Some("json")));
    assert!(!file_listed("json,toml", Some("yaml")));
    assert!(!file_listed("json", None));
    assert_eq!(normalize_path("a\\b\\\\c/d"), "a/b//c/d");
    assert_eq!(normalize_path("plain/path"), "plain/path");
}

#[test]
fn monster_config_id() {
    assert_eq!(MonsterConfig { id: 12 }.id(), 12);
    assert_eq!(MonsterConfig { id: -1 }.id(), u32::MAX);
    assert_eq!(MonsterConfig::default().id(), 0);
}

#[test]
fn channel_client_type_numbers() {
    assert_eq!(ChannelClientType::LoginServer.value(), 0);
    assert_eq!(ChannelClientType::UnDefined.value(), 9);
    assert_eq!(ChannelClientType::from_i32(2), Some(ChannelClientType::ExploreServer));
    assert_eq!(ChannelClientType::from_i32(3), None);
    assert_eq!(ChannelClientType::values().len(), 4);
    assert_eq!(ChannelClientType::default(), ChannelClientType::LoginServer);
}

#[test]
fn msg_channel_connect_fields() {
    let mut m = MsgChannelConnect::new();
    assert_eq!(m.get_client_id(), 0);
    assert_eq!(m.get_client_type(), ChannelClientType::LoginServer);
    assert_eq!(m.compute_size(0), 0);
    m.set_client_id(300);
    m.set_client_type(ChannelClientType::PlatServer);
    assert_eq!(m.get_client_id(), 300);
    assert_eq!(m.fields_to_write(), (Some(300), Some(1)));
    assert_eq!(m.compute_size(0), 5);
    assert_eq!(m.compute_size(4), 9);
    m.clear_client_id();
    assert_eq!(m.compute_size(0), 2);
    m.clear_client_type();
    assert_eq!(m, MsgChannelConnect::default());
    m.set_client_id(u64::MAX);
    assert_eq!(m.compute_size(0), 11);
    m.clear();
    assert!(m.is_initialized());
    assert_eq!(m.get_client_id(), 0);
}

#[test]
fn msg_channel_connect_reading() {
    assert_eq!(MsgChannelConnect::field_read(1, WireKind::Varint), FieldRead::ClientId);
    assert_eq!(MsgChannelConnect::field_read(1, WireKind::Fixed64), FieldRead::WrongWireType);
    assert_eq!(MsgChannelConnect::field_read(2, WireKind::Varint), FieldRead::ClientType);
    assert_eq!(MsgChannelConnect::field_read(3, WireKind::LengthDelimited), FieldRead::Unknown);
    let mut m = MsgChannelConnect::new();
    assert!(m.merge_client_type(2));
    assert_eq!(m.client_type, ChannelClientType::ExploreServer);
    assert!(!m.merge_client_type(7));
    assert_eq!(m.client_type, ChannelClientType::ExploreServer);
}

#[test]
fn native_logger_rules() {
    assert_eq!(native_level(LogLevel::Error, 0), Some(1));
    assert_eq!(native_level(LogLevel::Warn, 1), None);
    assert_eq!(native_level(LogLevel::Warn, 2), Some(2));
    assert_eq!(native_level(LogLevel::Info, 3), Some(3));
    assert_eq!(native_level(LogLevel::Debug, 3), None);
    assert_eq!(native_level(LogLevel::Debug, 4), Some(4));
    assert_eq!(native_level(LogLevel::Trace, 9), None);
    assert_eq!(
        native_record(LogLevel::Warn, 4, "net", "slow"),
        Some((String::from("[Native][ERROR] [net]: slow"), 2))
    );
    assert_eq!(
        native_record(LogLevel::Info, 4, "db", "up"),
        Some((String::from("[Native][DEBUG] [db]: up"), 3))
    );
    assert_eq!(native_record(LogLevel::Info, 2, "db", "up"), None);
    assert!(debug_for_level(4));
    assert!(!debug_for_level(3));
    assert!(file_keeps(LogFile::Errors, LogLevel::Warn));
    assert!(!file_keeps(LogFile::Errors, LogLevel::Info));
    assert!(file_keeps(LogFile::Infos, LogLevel::Error));
    assert!(!file_keeps(LogFile::Infos, LogLevel::Warn));
    assert!(file_keeps(LogFile::Traces, LogLevel::Trace));
    assert!(!file_keeps(LogFile::Traces, LogLevel::Debug));
}

#[test]
fn log_file_names_and_lines() {
    assert_eq!(file_name_pattern(LogFile::Errors, "GameSrv"), "gamesrv-error-%Y%m%d.log");
    assert_eq!(file_name_pattern(LogFile::Infos, "GameSrv"), "gamesrv-log-%Y%m%d.log");
    assert_eq!(file_name_pattern(LogFile::Traces, "X"), "x-trace-%Y%m%d.log");
    assert_eq!(file_line("srv", "hello"), "[srv] hello");
    assert_eq!(
        info_line(
            "srv",
            "msg { id: 1, unknown_fields: UnknownFields { fields: None }, cached_size: CachedSize { size: 0 } }"
        ),
        "[srv] msg { id: 1,  }"
    );
    assert_eq!(remove_all_of("aaaa", "aa"), "");
    assert_eq!(remove_all_of("abcabc", "ca"), "abbc");
    assert_eq!(remove_all_of("日志abc日志", "abc"), "日志日志");
    assert_eq!(remove_all_of("keep", ""), "keep");
}

#[test]
fn condition_checks_agree_with_their_mirrors() {
    for a in -2..3 {
        for b in -2..3 {
            assert_eq!(ConditionCheck::Bigger(a).valid(&b), ConditionCheck::Smaller(b).valid(&a));
            assert_eq!(
                ConditionCheck::BiggerOrEqual(a).valid(&b),
                ConditionCheck::Bigger(a).valid(&b) || ConditionCheck::Equal(a).valid(&b)
            );
            assert_eq!(ConditionCheck::NotEqual(a).valid(&b), !ConditionCheck::Equal(a).valid(&b));
        }
    }
}

#[test]
fn normalizing_twice_changes_nothing() {
    let once = normalize_path("x\\\\y\\z");
    assert_eq!(normalize_path(&once), once);
    assert!(!once.contains('\\'));
}

#[test]
fn session_tokens_differ_between_workers() {
    assert_ne!(session_token_of(7, 1), session_token_of(7, 2));
    assert_eq!(session_token_of(7, 1), session_token_of(7 + (1 << 32), 1 + (1 << 32)));
}

#[test]
fn raising_the_log_level_keeps_forwarded_records() {
    for level in [LogLevel::Error, LogLevel::Warn, LogLevel::Info, LogLevel::Debug, LogLevel::Trace] {
        for low in 0..6 {
            if let Some(code) = native_level(level, low) {
                for high in low..7 {
                    assert_eq!(native_level(level, high), Some(code));
                }
            }
        }
    }
}

#[test]
fn channel_client_type_round_trip() {
    for k in ChannelClientType::values() {
        assert_eq!(ChannelClientType::from_i32(k.value()), Some(k));
    }
}

#[test]
fn msg_channel_connect_reads_back_what_it_writes() {
    let mut m = MsgChannelConnect::new();
    m.set_client_id(42);
    m.set_client_type(ChannelClientType::ExploreServer);
    let (id, kind) = m.fields_to_write();
    assert_eq!((id, kind), (Some(42), Some(2)));
    let mut n = MsgChannelConnect::new();
    assert_eq!(n.merge_varint(1, id.unwrap()), None);
    assert_eq!(n.merge_varint(2, kind.unwrap() as i64 as u64), None);
    assert_eq!(n, m);
    assert_eq!(MsgChannelConnect::field_read(2, WireKind::Fixed32), FieldRead::WrongWireType);
}

#[test]
fn msg_channel_connect_keeps_what_it_does_not_know() {
    let mut n = MsgChannelConnect::new();
    assert_eq!(n.merge_varint(2, 7), Some(7));
    assert_eq!(n.merge_varint(2, (-3i64) as u64), Some((-3i64) as u64));
    assert_eq!(n.client_type, ChannelClientType::LoginServer);
    assert_eq!(n.merge_varint(2, (1u64 << 32) | 1), None);
    assert_eq!(n.client_type, ChannelClientType::PlatServer);
    assert_eq!(n.merge_varint(5, 11), Some(11));
    assert_eq!(n.client_id, 0);
}

#[test]
fn files_are_listed_wherever_the_extension_occurs() {
    assert!(file_listed("json,toml", Some("toml")));
    assert!(file_listed("json,toml", Some("on,t")));
    assert!(file_listed("json", Some("")));
    assert!(!file_listed("js", Some("json")));
    assert!(!file_listed("json", Some("jsx")));
}
