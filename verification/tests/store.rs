use green_dot::config::{Config, ConfigError};
use green_dot::store::{config_file_name, load_from, parse_config, render_config};

#[test]
fn default_config_values() {
    let c = Config::default();
    assert_eq!(c.interval, 4);
    assert!(c.adaptive && c.burst && c.idle_check && c.low_priority);
}

#[test]
fn load_absent_file_returns_defaults() {
    let loaded = load_from(None).expect("an absent record is not an error");
    assert_eq!(loaded, Config::default());
}

#[test]
fn rendered_record_is_exact() {
    let text = render_config(&Config::default());
    assert_eq!(
        text,
        "{\"interval\":4,\"adaptive\":true,\"burst\":true,\"idle_check\":true,\"low_priority\":true}"
    );
    let cfg = Config {
        interval: 90,
        adaptive: false,
        burst: true,
        idle_check: false,
        low_priority: true,
    };
    assert_eq!(
        render_config(&cfg),
        "{\"interval\":90,\"adaptive\":false,\"burst\":true,\"idle_check\":false,\"low_priority\":true}"
    );
}

#[test]
fn round_trip_returns_the_saved_config() {
    let samples = vec![
        Config::default(),
        Config {
            interval: 1,
            adaptive: false,
            burst: false,
            idle_check: false,
            low_priority: false,
        },
        Config {
            interval: 4294967295,
            adaptive: true,
            burst: false,
            idle_check: true,
            low_priority: false,
        },
        Config {
            interval: 10,
            adaptive: false,
            burst: true,
            idle_check: false,
            low_priority: true,
        },
    ];
    for cfg in samples {
        let text = render_config(&cfg);
        let back = parse_config(&text).expect("a rendered record parses");
        assert_eq!(back, cfg);
        let loaded = load_from(Some(&text)).expect("a rendered record loads");
        assert_eq!(loaded, cfg);
    }
}

#[test]
fn unparsable_records_are_corrupt() {
    let bad = vec![
        "",
        "{}",
        "not json at all",
        "{\"interval\":,\"adaptive\":true,\"burst\":true,\"idle_check\":true,\"low_priority\":true}",
        // zero is not a positive interval
        "{\"interval\":0,\"adaptive\":true,\"burst\":true,\"idle_check\":true,\"low_priority\":true}",
        // leading zeros are not canonical
        "{\"interval\":007,\"adaptive\":true,\"burst\":true,\"idle_check\":true,\"low_priority\":true}",
        // too large for the interval type
        "{\"interval\":4294967296,\"adaptive\":true,\"burst\":true,\"idle_check\":true,\"low_priority\":true}",
        // a misspelled keyword
        "{\"interval\":4,\"adaptive\":yes,\"burst\":true,\"idle_check\":true,\"low_priority\":true}",
        // fields out of order
        "{\"adaptive\":true,\"interval\":4,\"burst\":true,\"idle_check\":true,\"low_priority\":true}",
        // trailing text after the document
        "{\"interval\":4,\"adaptive\":true,\"burst\":true,\"idle_check\":true,\"low_priority\":true} ",
    ];
    for text in bad {
        match parse_config(text) {
            Err(ConfigError::ConfigCorrupt(_)) => {}
            other => panic!("{:?} should be corrupt, got {:?}", text, other),
        }
    }
}

#[test]
fn config_file_name_is_fixed() {
    assert_eq!(config_file_name(), ".green-dot-config.json");
}
