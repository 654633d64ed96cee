use opendcs_controllers::{
    create_ddsrecv_conf, create_drgsrecv_conf, DdsConnection, DdsConnectionSpec, DrgsConnection,
    DrgsConnectionSpec,
};

const DECL: &str = "<?xml version = \"1.0\" encoding = \"UTF-8\"?>\n";

fn dds(name: &str, host: &str, port: i32, user: &str, enabled: Option<bool>) -> DdsConnection {
    DdsConnection {
        name: name.to_string(),
        spec: DdsConnectionSpec {
            hostname: host.to_string(),
            port,
            enabled,
            username: user.to_string(),
            tls_mode: None,
        },
    }
}

fn drgs(name: &str, host: &str, enabled: Option<bool>, evt: Option<bool>) -> DrgsConnection {
    DrgsConnection {
        name: name.to_string(),
        spec: DrgsConnectionSpec {
            hostname: host.to_string(),
            event_port: 17011,
            message_port: 17010,
            enabled,
            event_enabled: evt,
            start_pattern: "534D0D0A".to_string(),
        },
    }
}

#[test]
fn empty_dds_config_has_empty_body() {
    let doc = create_ddsrecv_conf(&vec![], &vec![]);
    assert_eq!(doc, format!("{DECL}<ddsrecvconf></ddsrecvconf>\n"));
}

#[test]
fn one_declared_dds_connection() {
    let doc = create_ddsrecv_conf(&vec![], &vec![dds("east", "e.example", 16003, "u", Some(true))]);
    let expected = format!(
        "{DECL}<ddsrecvconf>\n\t<connection number=\"0\" host=\"e.example\">\n\t\t<enabled>true</enabled>\n\t\t<port>16003</port>\n\t\t<name>east</name>\n\t\t<username>u</username>\n\t\t<authenticate>true</authenticate>\n\t</connection>\n</ddsrecvconf>\n"
    );
    assert_eq!(doc, expected);
}

#[test]
fn peers_come_first_then_declared() {
    let doc = create_ddsrecv_conf(
        &vec!["lrgs-0.lrgs.ns.svc.".to_string(), "lrgs-1.lrgs.ns.svc.".to_string()],
        &vec![dds("west", "w.example", 16004, "v", None)],
    );
    let expected = format!(
        "{DECL}<ddsrecvconf>\n\
\t<connection number=\"0\" host=\"lrgs-0.lrgs.ns.svc.\">\n\t\t<enabled>true</enabled>\n\t\t<port>16003</port>\n\t\t<name>replication-0</name>\n\t\t<username>replication</username>\n\t\t<authenticate>true</authenticate>\n\t</connection>\n\
\t<connection number=\"1\" host=\"lrgs-1.lrgs.ns.svc.\">\n\t\t<enabled>true</enabled>\n\t\t<port>16003</port>\n\t\t<name>replication-1</name>\n\t\t<username>replication</username>\n\t\t<authenticate>true</authenticate>\n\t</connection>\n\
\t<connection number=\"2\" host=\"w.example\">\n\t\t<enabled>false</enabled>\n\t\t<port>16004</port>\n\t\t<name>west</name>\n\t\t<username>v</username>\n\t\t<authenticate>true</authenticate>\n\t</connection>\n\
</ddsrecvconf>\n"
    );
    assert_eq!(doc, expected);
}

#[test]
fn text_and_attributes_are_escaped() {
    let doc = create_ddsrecv_conf(&vec![], &vec![dds("a&b", "h\"<>'", 1, "x<y", Some(true))]);
    assert!(doc.contains("host=\"h&quot;&lt;&gt;&apos;\""));
    assert!(doc.contains("<name>a&amp;b</name>"));
    assert!(doc.contains("<username>x&lt;y</username>"));
}

#[test]
fn empty_drgs_config_has_empty_body() {
    assert_eq!(create_drgsrecv_conf(&vec![]), format!("{DECL}<drgsconf></drgsconf>\n"));
}

#[test]
fn drgs_defaults_enabled_and_event_disabled() {
    let doc = create_drgsrecv_conf(&vec![drgs("DRGS-E", "east.gov", None, None), drgs("DRGS-W", "west.gov", Some(false), Some(true))]);
    let expected = format!(
        "{DECL}<drgsconf>\n\
\t<connection number=\"0\" host=\"east.gov\">\n\t\t<name>DRGS-E</name>\n\t\t<enabled>true</enabled>\n\t\t<msgport>17010</msgport>\n\t\t<evtport>17011</evtport>\n\t\t<evtenabled>false</evtenabled>\n\t\t<startpattern>534D0D0A</startpattern>\n\t</connection>\n\
\t<connection number=\"1\" host=\"west.gov\">\n\t\t<name>DRGS-W</name>\n\t\t<enabled>false</enabled>\n\t\t<msgport>17010</msgport>\n\t\t<evtport>17011</evtport>\n\t\t<evtenabled>true</evtenabled>\n\t\t<startpattern>534D0D0A</startpattern>\n\t</connection>\n\
</drgsconf>\n"
    );
    assert_eq!(doc, expected);
}
