use mqkit::configuration;
use mqkit::cos::ClientBuilder;
use mqkit::cos::Region;
use mqkit::datalink::Interface;
use mqkit::datalink::IfaceAddress;
use mqkit::datalink::pick_address;
use mqkit::decimal::format_bool;
use mqkit::decimal::format_i32;
use mqkit::decimal::format_u64;
use mqkit::decimal::parse_u32;
use mqkit::kafka::ConsumerBuilder;
use mqkit::nacos;
use mqkit::nacos::Key;
use mqkit::nacos::Nacos;

#[test]
fn test_consumer_builder_defaults() {
    let b = ConsumerBuilder::default();
    assert_eq!(b.bootstrap, None);
    assert_eq!(b.group_id, None);
    assert_eq!(b.client_id, None);
    assert_eq!(b.auto_offset_reset, "earliest");
    assert!(!b.enable_auto_offset_store);
    assert!(b.enable_auto_commit);
    assert!(!b.enable_partition_eof);
    assert_eq!(b.auto_commit_interval_ms, 1000);
    assert_eq!(b.max_poll_interval_ms, 300000);
    assert_eq!(b.session_timeout_ms, 10000);
    assert_eq!(b.heartbeat_interval_ms, 3000);
}

#[test]
fn test_consumer_builder_setters() {
    let b = ConsumerBuilder::default()
        .set_bootstrap("localhost:9092".to_string())
        .set_group_id("test".to_string())
        .set_client_id("client".to_string())
        .set_auto_offset_reset("latest".to_string())
        .set_enable_auto_offset_store(true)
        .set_enable_auto_commit(false)
        .set_enable_partition_eof(true)
        .set_auto_commit_interval_ms(500)
        .set_max_poll_interval_ms(60000)
        .set_heartbeat_interval_ms(1500)
        .set_session_timeout_ms(20000);
    assert_eq!(b.bootstrap, Some("localhost:9092".to_string()));
    assert_eq!(b.group_id, Some("test".to_string()));
    assert_eq!(b.client_id, Some("client".to_string()));
    assert_eq!(b.auto_offset_reset, "latest");
    assert!(b.enable_auto_offset_store);
    assert!(!b.enable_auto_commit);
    assert!(b.enable_partition_eof);
    assert_eq!(b.auto_commit_interval_ms, 500);
    assert_eq!(b.max_poll_interval_ms, 60000);
    assert_eq!(b.heartbeat_interval_ms, 1500);
    assert_eq!(b.session_timeout_ms, 20000);
}

#[test]
fn test_config_entries() {
    let entries = ConsumerBuilder::default()
        .set_bootstrap("localhost:9092".to_string())
        .set_group_id("test".to_string())
        .set_client_id("client".to_string())
        .config_entries();
    let expected: Vec<(String, String)> = vec![
        ("bootstrap.servers".to_string(), "localhost:9092".to_string()),
        ("group.id".to_string(), "test".to_string()),
        ("client.id".to_string(), "client".to_string()),
        ("auto.offset.reset".to_string(), "earliest".to_string()),
        ("enable.auto.offset.store".to_string(), "false".to_string()),
        ("enable.auto.commit".to_string(), "true".to_string()),
        ("enable.partition.eof".to_string(), "false".to_string()),
        ("auto.commit.interval.ms".to_string(), "1000".to_string()),
        ("max.poll.interval.ms".to_string(), "300000".to_string()),
        ("session.timeout.ms".to_string(), "10000".to_string()),
        ("heartbeat.interval.ms".to_string(), "3000".to_string()),
    ];
    assert_eq!(entries, expected);
}

#[test]
fn test_config_entries_empty_bootstrap() {
    let entries = ConsumerBuilder::default().config_entries();
    assert_eq!(entries[0], ("bootstrap.servers".to_string(), String::new()));
    assert_eq!(entries[1], ("group.id".to_string(), String::new()));
    assert_eq!(entries[2], ("client.id".to_string(), String::new()));
}

#[test]
fn test_decimal_formatting() {
    assert_eq!(format_u64(0), "0");
    assert_eq!(format_u64(7), "7");
    assert_eq!(format_u64(300000), "300000");
    assert_eq!(format_u64(u64::MAX), "18446744073709551615");
    assert_eq!(format_i32(0), "0");
    assert_eq!(format_i32(1000), "1000");
    assert_eq!(format_i32(-42), "-42");
    assert_eq!(format_i32(i32::MIN), "-2147483648");
    assert_eq!(format_bool(true), "true");
    assert_eq!(format_bool(false), "false");
}

#[test]
fn test_parse_u32() {
    assert_eq!(parse_u32("0"), Some(0));
    assert_eq!(parse_u32("8848"), Some(8848));
    assert_eq!(parse_u32("+12"), Some(12));
    assert_eq!(parse_u32("4294967295"), Some(u32::MAX));
    assert_eq!(parse_u32("4294967296"), None);
    assert_eq!(parse_u32(""), None);
    assert_eq!(parse_u32("+"), None);
    assert_eq!(parse_u32("12a"), None);
    assert_eq!(parse_u32("-1"), None);
    assert_eq!(parse_u32(" 3"), None);
}

#[test]
fn test_region_parse() {
    assert!(matches!(Region::parse("ap-beijing"), Ok(Region::Beijing)));
    assert!(matches!(Region::parse(" ap-beijing "), Ok(Region::Beijing)));
    match Region::parse("us-east") {
        Ok(_) => panic!("unknown region accepted"),
        Err(e) => assert_eq!(e.0, "us-east"),
    }
    assert_eq!(Region::Beijing.value(), "ap-beijing");
    assert!(matches!("ap-beijing".parse::<Region>(), Ok(Region::Beijing)));
}

#[test]
fn test_client_builder_trims() {
    let b = ClientBuilder::default()
        .access_key(" ak ".to_string())
        .secret_key("\tsk\n".to_string())
        .bucket(" bucket".to_string())
        .region(Region::Beijing);
    assert_eq!(b.access_key, Some("ak".to_string()));
    assert_eq!(b.secret_key, Some("sk".to_string()));
    assert_eq!(b.bucket, Some("bucket".to_string()));
    assert!(matches!(b.region, Some(Region::Beijing)));
}

#[test]
fn test_nacos_key_from_values() {
    let on = Some("true".to_string());
    let r = Key::from_values(&on, None, Some("data".to_string()), None);
    match r {
        Ok(k) => {
            assert_eq!(k.tenant, "");
            assert_eq!(k.data_id, "data");
            assert_eq!(k.group, "DEFAULT_GROUP");
        },
        Err(_) => panic!("key expected"),
    }
    let r = Key::from_values(
        &on,
        Some("ns".to_string()),
        Some("data".to_string()),
        Some("grp".to_string()),
    );
    match r {
        Ok(k) => {
            assert_eq!(k.tenant, "ns");
            assert_eq!(k.group, "grp");
        },
        Err(_) => panic!("key expected"),
    }
    match Key::from_values(&on, None, None, None) {
        Err(nacos::Error::EnvNotFound(v)) => assert_eq!(v, "NACOS_DATA_ID"),
        _ => panic!("missing data id must be reported"),
    }
    assert!(matches!(
        Key::from_values(&None, None, Some("data".to_string()), None),
        Err(nacos::Error::Disable)
    ));
    assert!(matches!(
        Key::from_values(&Some("false".to_string()), None, Some("data".to_string()), None),
        Err(nacos::Error::Disable)
    ));
    assert!(matches!(
        Key::from_values(&Some("TRUE".to_string()), None, Some("data".to_string()), None),
        Err(nacos::Error::Disable)
    ));
}

#[test]
fn test_nacos_from_values() {
    let on = Some("true".to_string());
    match Nacos::from_values(&on, Some("nacos.local".to_string()), Some("1234".to_string())) {
        Ok(n) => {
            assert_eq!(n.server, "nacos.local");
            assert_eq!(n.port, 1234);
        },
        Err(_) => panic!("address expected"),
    }
    match Nacos::from_values(&on, Some("nacos.local".to_string()), None) {
        Ok(n) => assert_eq!(n.port, 8848),
        Err(_) => panic!("address expected"),
    }
    match Nacos::from_values(&on, Some("nacos.local".to_string()), Some("many".to_string())) {
        Ok(n) => assert_eq!(n.port, 8848),
        Err(_) => panic!("address expected"),
    }
    match Nacos::from_values(&on, None, None) {
        Err(nacos::Error::EnvNotFound(v)) => assert_eq!(v, "NACOS_SERVER"),
        _ => panic!("missing server must be reported"),
    }
    assert!(matches!(
        Nacos::from_values(&None, Some("nacos.local".to_string()), None),
        Err(nacos::Error::Disable)
    ));
}

#[test]
fn test_error_messages() {
    assert_eq!(configuration::Error::Load("boom".to_string()).message(), "load config: boom");
    assert_eq!(configuration::Error::Decode("bad".to_string()).message(), "decode config: bad");
    assert_eq!(
        nacos::Error::EnvNotFound("NACOS_SERVER".to_string()).message(),
        "find environment variable: NACOS_SERVER"
    );
    assert_eq!(nacos::Error::ParsePort("abc".to_string()).message(), "parse nacos port: abc");
    assert_eq!(nacos::Error::Disable.message(), "nacos is disabled");
    assert_eq!(nacos::Error::Config("oops".to_string()).message(), "get config: oops");
}

#[test]
fn test_remote_config_enabled() {
    assert!(configuration::remote_config_enabled(&Some("true".to_string())));
    assert!(!configuration::remote_config_enabled(&Some("false".to_string())));
    assert!(!configuration::remote_config_enabled(&Some("yes".to_string())));
    assert!(!configuration::remote_config_enabled(&None));
}

#[test]
fn test_pick_address() {
    let ifaces = vec![
        Interface {
            name: "docker0".to_string(),
            addresses: vec![
                IfaceAddress { is_v4: false, address: "fe80::1".to_string() },
                IfaceAddress { is_v4: true, address: "169.254.32.1".to_string() },
            ],
        },
        Interface {
            name: "eth0".to_string(),
            addresses: vec![IfaceAddress { is_v4: true, address: "10.0.0.2".to_string() }],
        },
    ];
    assert_eq!(
        pick_address(None, "docker0", &ifaces),
        Some("169.254.32.1".to_string())
    );
    assert_eq!(pick_address(None, "eth0", &ifaces), Some("10.0.0.2".to_string()));
    assert_eq!(pick_address(None, "wlan0", &ifaces), None);
    assert_eq!(
        pick_address(Some("1.2.3.4".to_string()), "docker0", &ifaces),
        Some("1.2.3.4".to_string())
    );
}

#[test]
fn test_pick_address_first_match_only() {
    let ifaces = vec![
        Interface { name: "eth0".to_string(), addresses: Vec::new() },
        Interface {
            name: "eth0".to_string(),
            addresses: vec![IfaceAddress { is_v4: true, address: "10.0.0.9".to_string() }],
        },
    ];
    assert_eq!(pick_address(None, "eth0", &ifaces), None);
}

#[test]
fn test_format_parse_round_trip() {
    for v in [0u32, 1, 9, 10, 8848, 300000, u32::MAX] {
        assert_eq!(parse_u32(format_u64(v as u64).as_str()), Some(v));
    }
}
