use opendcs_controllers::lrgs_config::ConfigError;
use opendcs_controllers::{
    evt_port_default, msg_port_default, port_default, DdsConnectionSpec, DrgsConnectionSpec,
    ErrorLabels, LrgsClusterSpec, MetricLabel, TraceLabel, LRGS_GROUP, TSDB_GROUP,
};

#[test]
fn defaults_and_groups() {
    assert_eq!(port_default(), 16003);
    assert_eq!(msg_port_default(), 17010);
    assert_eq!(evt_port_default(), 17011);
    assert_eq!(LRGS_GROUP, "lrgs.opendcs.org");
    assert_eq!(TSDB_GROUP, "tsdb.opendcs.org");
}

#[test]
fn dds_spec_validation() {
    let mut s = DdsConnectionSpec {
        hostname: "h".to_string(),
        port: 16003,
        enabled: None,
        username: "u".to_string(),
        tls_mode: None,
    };
    assert!(s.is_valid());
    s.port = 0;
    assert!(!s.is_valid());
    s.port = 65536;
    assert!(!s.is_valid());
    s.port = 65535;
    s.hostname = "".to_string();
    assert!(!s.is_valid());
    s.hostname = "hé".to_string();
    assert!(!s.is_valid());
}

#[test]
fn drgs_and_cluster_validation() {
    let d = DrgsConnectionSpec {
        hostname: "h".to_string(),
        event_port: 0,
        message_port: 17010,
        enabled: None,
        event_enabled: None,
        start_pattern: "534D".to_string(),
    };
    assert!(!d.is_valid());
    let c = LrgsClusterSpec { replicas: -1, storage_class: "s".to_string(), storage_size: "1Gi".to_string(), archive_length_days: None };
    assert!(!c.is_valid());
    let c = LrgsClusterSpec { replicas: 0, storage_class: "s".to_string(), storage_size: "1Gi".to_string(), archive_length_days: Some(30) };
    assert!(c.is_valid());
}

#[test]
fn trace_and_error_labels() {
    assert!(TraceLabel::try_from_bytes(&[0u8; 16]).is_none());
    let mut id = [0u8; 16];
    id[15] = 0xab;
    id[0] = 0x01;
    let t = TraceLabel::try_from_bytes(&id).unwrap();
    assert_eq!(t.trace_id, "010000000000000000000000000000ab");
    assert_eq!(ConfigError::MissingField.metric_label(), "missingfield");
    let e = ErrorLabels::for_config_error("lrgs".to_string(), &ConfigError::InvalidText);
    assert_eq!(e.instance, "lrgs");
    assert_eq!(e.error, "invalidtext");
}
