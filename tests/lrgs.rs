use opendcs_controllers::lrgs_config::config_hash;
use opendcs_controllers::objects::{EnvSource, OwnerReference, VolumeSource};
use opendcs_controllers::reconcile::{
    owning_cluster, peers_from_lookup, reconcile_lrgs, requeue_after, LrgsInputs, PeerLookup, ReconcileOutcome,
};
use opendcs_controllers::{
    create_lrgs_config, create_managed_users, create_password_file, create_service,
    create_statefulset, created_script_config_map, ConfigError, DdsConnection, DdsConnectionSpec,
    LrgsCluster, LrgsClusterSpec, LrgsClusterStatus, Timestamp, UserSecretData,
};
use sha2::Digest;

fn sha256_lower(b: &[u8]) -> String {
    let d = sha2::Sha256::digest(b);
    d.iter().map(|x| format!("{:02x}", x)).collect()
}

fn owner(name: &str) -> OwnerReference {
    OwnerReference {
        api_version: "lrgs.opendcs.org/v1".to_string(),
        kind: "LrgsCluster".to_string(),
        name: name.to_string(),
        uid: "uid-1".to_string(),
        controller: Some(true),
        block_owner_deletion: Some(true),
    }
}

fn cluster(name: &str, replicas: i32) -> LrgsCluster {
    LrgsCluster {
        name: name.to_string(),
        namespace: "ns".to_string(),
        spec: LrgsClusterSpec {
            replicas,
            storage_class: "std".to_string(),
            storage_size: "10Gi".to_string(),
            archive_length_days: None,
        },
        status: None,
    }
}

fn user_secret(u: &str, p: &str, roles: Option<&str>) -> Option<UserSecretData> {
    Some(UserSecretData {
        username: Some(u.as_bytes().to_vec()),
        password: Some(p.as_bytes().to_vec()),
        roles: roles.map(|r| r.as_bytes().to_vec()),
    })
}

fn empty_inputs() -> LrgsInputs {
    LrgsInputs {
        user_secrets: vec![],
        peers: vec![],
        dds_connections: vec![],
        drgs_connections: vec![],
        existing_users: vec![],
    }
}

fn now() -> Timestamp {
    Timestamp { seconds: 1_700_000_000, nanos: 0 }
}

fn pair<'a>(v: &'a [(String, String)], k: &str) -> Option<&'a str> {
    v.iter().find(|(a, _)| a == k).map(|(_, b)| b.as_str())
}

#[test]
fn content_hash_is_sha256_of_documents_in_order() {
    let h = config_hash("pw", "dds", "drgs");
    assert_eq!(h, sha256_lower(b"pwddsdrgs"));
    assert_eq!(h.len(), 64);
    assert_ne!(h, config_hash("dds", "pw", "drgs"));
    assert_eq!(h, config_hash("pw", "dds", "drgs"));
}

#[test]
fn password_file_from_secrets() {
    let secrets = vec![user_secret("alice", "secret", Some("dds,admin")), None, user_secret("bob", "pw", None)];
    let text = create_password_file(&secrets).unwrap();
    let lines: Vec<&str> = text.lines().collect();
    assert_eq!(lines.len(), 2);
    assert!(lines[0].starts_with("alice:dds,admin:"));
    assert!(lines[1].starts_with("bob:none:"));
    assert!(text.ends_with(":\n"));
}

#[test]
fn password_file_missing_field() {
    let secrets = vec![Some(UserSecretData { username: Some(b"x".to_vec()), password: None, roles: None })];
    assert_eq!(create_password_file(&secrets), Err(ConfigError::MissingField));
}

#[test]
fn password_file_invalid_text() {
    let secrets = vec![Some(UserSecretData {
        username: Some(vec![0xff, 0xfe]),
        password: Some(b"p".to_vec()),
        roles: None,
    })];
    assert_eq!(create_password_file(&secrets), Err(ConfigError::InvalidText));
}

#[test]
fn config_secret_for_fresh_cluster() {
    let c = cluster("lrgs", 2);
    let o = owner("lrgs");
    let cfg = create_lrgs_config(&c, &o, &vec![], &vec![], &vec![], &vec![]).ok().unwrap();
    assert_eq!(cfg.secret.metadata.name.as_deref(), Some("lrgs-lrgs-configuration"));
    assert_eq!(cfg.secret.metadata.namespace.as_deref(), Some("ns"));
    assert_eq!(cfg.secret.metadata.owner_references.len(), 1);
    assert_eq!(cfg.secret.metadata.owner_references[0].uid, "uid-1");
    assert_eq!(pair(&cfg.secret.metadata.annotations, "lrgs.opendcs.org/for-cluster"), Some("lrgs"));
    let keys: Vec<&str> = cfg.secret.data.iter().map(|(k, _)| k.as_str()).collect();
    assert_eq!(keys, vec![".lrgs.passwd", "ddsrecv.conf", "drgsconf.xml", "lrgs.conf"]);
    let pw = String::from_utf8(cfg.secret.data[0].1.clone()).unwrap();
    let dds = String::from_utf8(cfg.secret.data[1].1.clone()).unwrap();
    let drgs = String::from_utf8(cfg.secret.data[2].1.clone()).unwrap();
    assert_eq!(pw, "");
    assert!(dds.ends_with("<ddsrecvconf></ddsrecvconf>\n"));
    assert_eq!(cfg.hash, config_hash(&pw, &dds, &drgs));
    let conf = String::from_utf8(cfg.secret.data[3].1.clone()).unwrap();
    assert!(conf.contains("ddsListenPort: 16003"));
}

#[test]
fn adding_dds_connection_changes_hash() {
    let c = cluster("lrgs", 2);
    let o = owner("lrgs");
    let before = create_lrgs_config(&c, &o, &vec![], &vec![], &vec![], &vec![]).ok().unwrap();
    let conn = DdsConnection {
        name: "east".to_string(),
        spec: DdsConnectionSpec {
            hostname: "e.example".to_string(),
            port: 16003,
            enabled: Some(true),
            username: "u".to_string(),
            tls_mode: None,
        },
    };
    let after = create_lrgs_config(&c, &o, &vec![], &vec![], &vec![conn], &vec![]).ok().unwrap();
    assert_ne!(before.hash, after.hash);
    let dds = String::from_utf8(after.secret.data[1].1.clone()).unwrap();
    assert!(dds.contains("<connection number=\"0\" host=\"e.example\">"));
}

#[test]
fn config_fails_on_unreadable_secret() {
    let c = cluster("lrgs", 1);
    let o = owner("lrgs");
    let secrets = vec![Some(UserSecretData { username: None, password: None, roles: None })];
    assert!(matches!(
        create_lrgs_config(&c, &o, &secrets, &vec![], &vec![], &vec![]),
        Err(ConfigError::MissingField)
    ));
}

#[test]
fn managed_users_created_when_absent() {
    let c = cluster("lrgs", 1);
    let o = owner("lrgs");
    let users = create_managed_users(&c, &o, &vec![]);
    let names: Vec<&str> = users.iter().map(|s| s.metadata.name.as_deref().unwrap()).collect();
    assert_eq!(names, vec!["lrgsadmin", "replication", "routing-user"]);
    let roles: Vec<Vec<u8>> = users.iter().map(|s| s.data[2].1.clone()).collect();
    assert_eq!(roles, vec![b"dds,lrgsadmin".to_vec(), b"dds".to_vec(), b"dds".to_vec()]);
    for s in &users {
        assert_eq!(s.type_.as_deref(), Some("lrgs.opendcs.org/ddsuser"));
        assert_eq!(s.data[0].0, "username");
        let pw = &s.data[1].1;
        assert_eq!(s.data[1].0, "password");
        assert_eq!(pw.len(), 64);
        assert!(pw.iter().all(|b| b.is_ascii_alphanumeric()));
        assert!(pw.iter().any(|b| b.is_ascii_digit()));
        assert!(pw.iter().any(|b| b.is_ascii_lowercase()));
        assert!(pw.iter().any(|b| b.is_ascii_uppercase()));
    }
}

#[test]
fn existing_managed_users_are_kept() {
    let c = cluster("lrgs", 1);
    let o = owner("lrgs");
    let users = create_managed_users(&c, &o, &vec!["replication".to_string()]);
    let names: Vec<&str> = users.iter().map(|s| s.metadata.name.as_deref().unwrap()).collect();
    assert_eq!(names, vec!["lrgsadmin", "routing-user"]);
    let all = vec!["lrgsadmin".to_string(), "replication".to_string(), "routing-user".to_string()];
    assert!(create_managed_users(&c, &o, &all).is_empty());
}

#[test]
fn script_config_map_and_hash() {
    let o = owner("lrgs");
    let (cm, hash) = created_script_config_map("ns".to_string(), &o, "#!/bin/bash\necho hi\n");
    assert_eq!(cm.metadata.name.as_deref(), Some("lrgs-lrgs-scripts"));
    assert_eq!(pair(&cm.metadata.labels, "lrgs.opendcs.org/for-cluster"), Some("lrgs"));
    assert_eq!(pair(&cm.data, "lrgs.sh"), Some("#!/bin/bash\necho hi\n"));
    assert_eq!(hash, sha256_lower(b"#!/bin/bash\necho hi\n"));
}

#[test]
fn two_services_one_headless() {
    let c = cluster("lrgs", 2);
    let o = owner("lrgs");
    let s = create_service(&c, &o);
    assert_eq!(s.len(), 2);
    assert_eq!(s[0].metadata.name.as_deref(), Some("lrgs-lrgs-service"));
    assert_eq!(s[1].metadata.name.as_deref(), Some("lrgs-lrgs-service-headless"));
    assert_eq!(s[0].cluster_ip, None);
    assert_eq!(s[1].cluster_ip.as_deref(), Some("None"));
    for svc in &s {
        assert_eq!(svc.session_affinity, "ClientIP");
        assert_eq!(svc.ports.len(), 1);
        assert_eq!(svc.ports[0].port, 16003);
        assert_eq!(svc.ports[0].target_port, "dds");
        assert_eq!(pair(&svc.selector, "app.kubernetes.io/name"), Some("lrgs"));
    }
}

#[test]
fn statefulset_carries_hashes() {
    let c = cluster("lrgs", 2);
    let o = owner("lrgs");
    let s = create_statefulset(&c, &o, "H1".to_string(), "H2".to_string());
    assert_eq!(s.metadata.name.as_deref(), Some("lrgs-lrgs"));
    assert_eq!(s.replicas, 2);
    assert_eq!(s.min_ready_seconds, 10);
    assert_eq!(s.service_name, "lrgs");
    let ann = &s.template.metadata.annotations;
    assert_eq!(pair(ann, "lrgs.opendcs.org/lrgs-config-hash"), Some("H1"));
    assert_eq!(pair(ann, "lrgs.opendcs.org/lrgs-script-hash"), Some("H2"));
    let c0 = &s.template.spec.containers[0];
    assert_eq!(c0.command, vec!["/bin/bash", "/scripts/lrgs.sh", "-f", "/config/lrgs.conf"]);
    assert!(matches!(&c0.env[0].source, EnvSource::FieldPath(p) if p == "metadata.labels['apps.kubernetes.io/pod-index']"));
    assert!(matches!(&s.template.spec.volumes[1].source, VolumeSource::Secret { secret_name, .. } if secret_name == "lrgs-lrgs-configuration"));
    let sc = s.template.spec.security_context.as_ref().unwrap();
    assert_eq!((sc.fs_group, sc.run_as_user, sc.run_as_group, sc.run_as_non_root), (1000, 1000, 1000, true));
    assert_eq!(s.volume_claim_templates[0].storage_class_name, "std");
    assert_eq!(s.volume_claim_templates[0].storage_request, "10Gi");
    assert_eq!(s.volume_claim_templates[0].access_modes, vec!["ReadWriteOnce"]);
}

#[test]
fn zero_replicas_is_a_valid_workload() {
    let s = create_statefulset(&cluster("lrgs", 0), &owner("lrgs"), "a".to_string(), "b".to_string());
    assert_eq!(s.replicas, 0);
    assert_eq!(s.template.spec.containers.len(), 1);
}

#[test]
fn fresh_cluster_reconcile_plan() {
    let c = cluster("lrgs", 2);
    let o = owner("lrgs");
    let plan = reconcile_lrgs(&c, &o, "script", &empty_inputs(), now()).ok().unwrap();
    let status = plan.status.as_ref().unwrap();
    assert_eq!(pair(&plan.statefulset.metadata.annotations, "lrgs.opendcs.org/lrgs-config-hash"), Some(status.checksum.as_str()));
    assert_eq!(status.checksum.len(), 64);
    assert_eq!(status.last_updated, Some(now()));
    assert_eq!(plan.services.len(), 2);
    assert_eq!(plan.managed_users.len(), 3);
    assert_eq!(plan.statefulset.replicas, 2);
    assert_eq!(pair(&plan.statefulset.template.metadata.annotations, "lrgs.opendcs.org/lrgs-script-hash"), Some(sha256_lower(b"script").as_str()));
}

#[test]
fn unchanged_cluster_records_no_status() {
    let mut c = cluster("lrgs", 2);
    let o = owner("lrgs");
    let first = reconcile_lrgs(&c, &o, "script", &empty_inputs(), now()).ok().unwrap();
    let checksum = first.status.unwrap().checksum;
    c.status = Some(LrgsClusterStatus { checksum: checksum.clone(), last_updated: Some(now()) });
    let second = reconcile_lrgs(&c, &o, "script", &empty_inputs(), now()).ok().unwrap();
    assert!(second.status.is_none());
    assert_eq!(first.statefulset.template.metadata.annotations, second.statefulset.template.metadata.annotations);
}

#[test]
fn no_peer_records_is_not_an_error() {
    assert_eq!(peers_from_lookup(PeerLookup::NoRecords), Ok(vec![]));
    assert_eq!(peers_from_lookup(PeerLookup::Found(vec!["a.".to_string()])), Ok(vec!["a.".to_string()]));
    assert_eq!(peers_from_lookup(PeerLookup::Failed), Err(ConfigError::PeerLookupFailed));
}

#[test]
fn requeue_intervals() {
    assert_eq!(requeue_after(ReconcileOutcome::Applied), 1800);
    assert_eq!(requeue_after(ReconcileOutcome::ApiError), 300);
    assert_eq!(requeue_after(ReconcileOutcome::BuildFailed), 3600);
}

#[test]
fn watched_resource_maps_to_cluster_by_label() {
    let labels = vec![
        ("app".to_string(), "x".to_string()),
        ("lrgs.opendcs.org/lrgs-cluster".to_string(), "lrgs".to_string()),
    ];
    assert_eq!(owning_cluster(&labels, Some("ns".to_string())), Some(("ns".to_string(), "lrgs".to_string())));
    assert_eq!(owning_cluster(&labels, None), Some(("default".to_string(), "lrgs".to_string())));
    assert_eq!(owning_cluster(&vec![("app".to_string(), "x".to_string())], None), None);
}

#[test]
fn empty_roles_column_is_none() {
    let text = create_password_file(&vec![user_secret("dave", "pw", Some(""))]).unwrap();
    assert!(text.starts_with("dave:none:"));
}
