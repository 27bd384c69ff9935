use generic_cong_avoid::config::{
    find_key, get_boolean, get_text, get_unsigned, parse_report, parse_ss, Config, ConfigEntry,
    ConfigError, ConfigKey, ConfigValue, GenericCongAvoidConfigReport, GenericCongAvoidConfigSS,
    ValueKind,
};
use generic_cong_avoid::text::{parse_decimal, str_eq};

fn entry(key: &str, value: ConfigValue) -> ConfigEntry {
    ConfigEntry { key: key.to_string(), value }
}

fn text(s: &str) -> ConfigValue {
    ConfigValue::Str(s.to_string())
}

fn full_surface() -> Vec<ConfigEntry> {
    vec![
        entry("deficit_timeout", ConfigValue::Int(2)),
        entry("init_cwnd", ConfigValue::Int(10)),
        entry("report", text("ack")),
        entry("ss", text("ccp")),
        entry("ss_thresh", ConfigValue::Int(100)),
        entry("use_compensation", ConfigValue::Bool(false)),
    ]
}

fn without(key: &str) -> Vec<ConfigEntry> {
    full_surface().into_iter().filter(|e| e.key != key).collect()
}

fn with(key: &str, value: ConfigValue) -> Vec<ConfigEntry> {
    full_surface()
        .into_iter()
        .map(|e| if e.key == key { entry(key, value.clone()) } else { e })
        .collect()
}

#[test]
fn full_surface_gives_the_configuration() {
    let c = Config::from_entries(&full_surface()).unwrap();
    assert_eq!(
        c,
        Config {
            deficit_timeout: 2,
            init_cwnd: 10,
            report_option: GenericCongAvoidConfigReport::Ack,
            ss: GenericCongAvoidConfigSS::Ccp,
            ss_thresh: 100,
            use_compensation: false,
        }
    );
}

#[test]
fn order_of_entries_does_not_matter() {
    let mut entries = full_surface();
    entries.reverse();
    assert_eq!(Config::from_entries(&entries), Config::from_entries(&full_surface()));
}

#[test]
fn missing_ss_thresh_is_refused() {
    assert_eq!(
        Config::from_entries(&without("ss_thresh")),
        Err(ConfigError::MissingKey(ConfigKey::SsThresh))
    );
}

#[test]
fn each_missing_key_is_named() {
    let keys = [
        ("deficit_timeout", ConfigKey::DeficitTimeout),
        ("init_cwnd", ConfigKey::InitCwnd),
        ("report", ConfigKey::Report),
        ("ss", ConfigKey::Ss),
        ("ss_thresh", ConfigKey::SsThresh),
        ("use_compensation", ConfigKey::UseCompensation),
    ];
    for (name, key) in keys {
        assert_eq!(key.name(), name);
        assert_eq!(Config::from_entries(&without(name)), Err(ConfigError::MissingKey(key)));
    }
}

#[test]
fn empty_surface_names_the_first_key() {
    assert_eq!(
        Config::from_entries(&Vec::new()),
        Err(ConfigError::MissingKey(ConfigKey::DeficitTimeout))
    );
}

#[test]
fn first_fault_in_key_order_wins() {
    let entries: Vec<ConfigEntry> = with("report", text("sometimes"))
        .into_iter()
        .filter(|e| e.key != "use_compensation" && e.key != "init_cwnd")
        .collect();
    assert_eq!(Config::from_entries(&entries), Err(ConfigError::MissingKey(ConfigKey::InitCwnd)));
}

#[test]
fn wrong_type_names_key_and_expected_type() {
    assert_eq!(
        Config::from_entries(&with("init_cwnd", text("10"))),
        Err(ConfigError::TypeMismatch(ConfigKey::InitCwnd, ValueKind::Unsigned))
    );
    assert_eq!(
        Config::from_entries(&with("report", ConfigValue::Int(5))),
        Err(ConfigError::TypeMismatch(ConfigKey::Report, ValueKind::Text))
    );
    assert_eq!(
        Config::from_entries(&with("use_compensation", ConfigValue::Other)),
        Err(ConfigError::TypeMismatch(ConfigKey::UseCompensation, ValueKind::Boolean))
    );
    assert_eq!(
        Config::from_entries(&with("ss", ConfigValue::Bool(true))),
        Err(ConfigError::TypeMismatch(ConfigKey::Ss, ValueKind::Text))
    );
}

#[test]
fn integers_outside_32_bits_are_of_the_wrong_type() {
    assert_eq!(
        Config::from_entries(&with("deficit_timeout", ConfigValue::Int(-1))),
        Err(ConfigError::TypeMismatch(ConfigKey::DeficitTimeout, ValueKind::Unsigned))
    );
    assert_eq!(
        Config::from_entries(&with("ss_thresh", ConfigValue::Int(1 << 32))),
        Err(ConfigError::TypeMismatch(ConfigKey::SsThresh, ValueKind::Unsigned))
    );
    let top = Config::from_entries(&with("ss_thresh", ConfigValue::Int((1 << 32) - 1))).unwrap();
    assert_eq!(top.ss_thresh, u32::MAX);
}

#[test]
fn report_is_ack_rtt_or_milliseconds() {
    assert_eq!(parse_report("ack"), Ok(GenericCongAvoidConfigReport::Ack));
    assert_eq!(parse_report("rtt"), Ok(GenericCongAvoidConfigReport::Rtt));
    assert_eq!(parse_report("250"), Ok(GenericCongAvoidConfigReport::Interval(250)));
    assert_eq!(parse_report("0"), Ok(GenericCongAvoidConfigReport::Interval(0)));
    assert_eq!(parse_report("ACK"), Err(ConfigError::Unparseable(ConfigKey::Report)));
    assert_eq!(parse_report(""), Err(ConfigError::Unparseable(ConfigKey::Report)));
    assert_eq!(parse_report("2.5"), Err(ConfigError::Unparseable(ConfigKey::Report)));
    assert_eq!(parse_report("-3"), Err(ConfigError::Unparseable(ConfigKey::Report)));
}

#[test]
fn unparseable_report_fails_construction() {
    assert_eq!(
        Config::from_entries(&with("report", text("every now and then"))),
        Err(ConfigError::Unparseable(ConfigKey::Report))
    );
    let c = Config::from_entries(&with("report", text("40"))).unwrap();
    assert_eq!(c.report_option, GenericCongAvoidConfigReport::Interval(40));
}

#[test]
fn slow_start_owner_is_datapath_or_ccp() {
    assert_eq!(parse_ss("datapath"), Ok(GenericCongAvoidConfigSS::Datapath));
    assert_eq!(parse_ss("ccp"), Ok(GenericCongAvoidConfigSS::Ccp));
    assert_eq!(parse_ss("kernel"), Err(ConfigError::Unparseable(ConfigKey::Ss)));
    assert_eq!(
        Config::from_entries(&with("ss", text("kernel"))),
        Err(ConfigError::Unparseable(ConfigKey::Ss))
    );
}

#[test]
fn bounds_are_checked_last() {
    assert_eq!(
        Config::from_entries(&with("init_cwnd", ConfigValue::Int(0))),
        Err(ConfigError::OutOfRange(ConfigKey::InitCwnd))
    );
    assert_eq!(
        Config::from_entries(&with("ss_thresh", ConfigValue::Int(9))),
        Err(ConfigError::OutOfRange(ConfigKey::SsThresh))
    );
    assert!(Config::from_entries(&with("ss_thresh", ConfigValue::Int(10))).is_ok());
    let zero_window: Vec<ConfigEntry> = with("init_cwnd", ConfigValue::Int(0))
        .into_iter()
        .filter(|e| e.key != "use_compensation")
        .collect();
    assert_eq!(
        Config::from_entries(&zero_window),
        Err(ConfigError::MissingKey(ConfigKey::UseCompensation))
    );
}

#[test]
fn checked_accepts_exactly_the_well_formed() {
    let c = Config {
        deficit_timeout: 0,
        init_cwnd: 1,
        report_option: GenericCongAvoidConfigReport::Rtt,
        ss: GenericCongAvoidConfigSS::Datapath,
        ss_thresh: 1,
        use_compensation: true,
    };
    assert_eq!(c.checked(), Ok(c));
    let zero = Config { init_cwnd: 0, ss_thresh: 0, ..c };
    assert_eq!(zero.checked(), Err(ConfigError::OutOfRange(ConfigKey::InitCwnd)));
    let low = Config { init_cwnd: 5, ss_thresh: 4, ..c };
    assert_eq!(low.checked(), Err(ConfigError::OutOfRange(ConfigKey::SsThresh)));
}

#[test]
fn first_of_two_equal_keys_is_read() {
    let mut entries = full_surface();
    entries.push(entry("init_cwnd", ConfigValue::Int(99)));
    assert_eq!(find_key(&entries, "init_cwnd"), Some(1));
    assert_eq!(get_unsigned(&entries, ConfigKey::InitCwnd), Ok(10));
    assert_eq!(find_key(&entries, "cwnd"), None);
}

#[test]
fn typed_reads() {
    let entries = full_surface();
    assert_eq!(get_unsigned(&entries, ConfigKey::SsThresh), Ok(100));
    assert_eq!(get_text(&entries, ConfigKey::Ss), Ok("ccp"));
    assert_eq!(get_boolean(&entries, ConfigKey::UseCompensation), Ok(false));
    assert_eq!(
        get_boolean(&entries, ConfigKey::Ss),
        Err(ConfigError::TypeMismatch(ConfigKey::Ss, ValueKind::Boolean))
    );
}

#[test]
fn messages_name_the_key() {
    assert_eq!(
        ConfigError::MissingKey(ConfigKey::SsThresh).message(),
        "config missing required key 'ss_thresh'"
    );
    assert_eq!(
        ConfigError::TypeMismatch(ConfigKey::InitCwnd, ValueKind::Unsigned).message(),
        "type mismatch for key 'init_cwnd': expected an unsigned 32-bit integer"
    );
    assert_eq!(
        ConfigError::TypeMismatch(ConfigKey::Report, ValueKind::Text).message(),
        "type mismatch for key 'report': expected a string"
    );
    assert_eq!(
        ConfigError::TypeMismatch(ConfigKey::UseCompensation, ValueKind::Boolean).message(),
        "type mismatch for key 'use_compensation': expected a boolean"
    );
    assert_eq!(
        ConfigError::Unparseable(ConfigKey::Report).message(),
        "'report' key holds none of the values it admits"
    );
    assert_eq!(
        ConfigError::OutOfRange(ConfigKey::InitCwnd).message(),
        "'init_cwnd' key is out of range"
    );
    assert_eq!(ConfigError::Unparseable(ConfigKey::Ss).key(), ConfigKey::Ss);
    assert_eq!(ConfigError::MissingKey(ConfigKey::DeficitTimeout).key().name(), "deficit_timeout");
}

#[test]
fn decimal_numbers() {
    assert_eq!(parse_decimal("0"), Some(0));
    assert_eq!(parse_decimal("007"), Some(7));
    assert_eq!(parse_decimal("+15"), Some(15));
    assert_eq!(parse_decimal("18446744073709551615"), Some(u64::MAX));
    assert_eq!(parse_decimal("18446744073709551616"), None);
    assert_eq!(parse_decimal("99999999999999999999999"), None);
    assert_eq!(parse_decimal(""), None);
    assert_eq!(parse_decimal("+"), None);
    assert_eq!(parse_decimal("++1"), None);
    assert_eq!(parse_decimal("-1"), None);
    assert_eq!(parse_decimal(" 1"), None);
    assert_eq!(parse_decimal("1 "), None);
    assert_eq!(parse_decimal("12a"), None);
    assert_eq!(parse_decimal("1_000"), None);
    assert_eq!(parse_decimal("\u{0663}"), None);
    assert_eq!(parse_decimal("1\u{00e9}"), None);
}

#[test]
fn decimal_numbers_agree_with_the_standard_parser() {
    let samples = [
        "0", "1", "+1", "-1", "", "+", "10", "0010", "4294967296", "18446744073709551615",
        "18446744073709551616", "1e3", "0x10", "१२", " 7", "7\n",
    ];
    for s in samples {
        assert_eq!(parse_decimal(s), s.parse::<u64>().ok(), "{:?}", s);
    }
}

#[test]
fn string_slices_compare_by_content() {
    assert!(str_eq("ack", "ack"));
    assert!(!str_eq("ack", "ack "));
    assert!(!str_eq("ack", "rtt"));
    assert!(str_eq("", ""));
}
