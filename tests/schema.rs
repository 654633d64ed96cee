use opendcs_controllers::objects::{EnvSource, OwnerReference, VolumeSource};
use opendcs_controllers::reconcile::{app_user_for, finish_database_reconcile};
use opendcs_controllers::schema::{app_user_secret, migration_status_update, MigrationAction, ObservedJob};
use opendcs_controllers::{
    create_script_config_map, placeholders_unchanged, JobCounters, MigrationJob, MigrationState,
    OpenDcsDatabase, OpenDcsDatabaseSpec, OpenDcsDatabaseStatus, Timestamp,
};

fn owner(name: &str) -> OwnerReference {
    OwnerReference {
        api_version: "tsdb.opendcs.org/v1".to_string(),
        kind: "OpenDcsDatabase".to_string(),
        name: name.to_string(),
        uid: "uid-t".to_string(),
        controller: Some(true),
        block_owner_deletion: Some(true),
    }
}

fn database(version: &str, status: Option<OpenDcsDatabaseStatus>) -> OpenDcsDatabase {
    OpenDcsDatabase {
        name: "t".to_string(),
        namespace: "ns".to_string(),
        spec: OpenDcsDatabaseSpec {
            schema_version: version.to_string(),
            database_secret: "dbs".to_string(),
            placeholders: vec![("NUM_TS_TABLES".to_string(), "1".to_string())],
        },
        status,
    }
}

fn status(state: MigrationState, applied: Option<&str>) -> Option<OpenDcsDatabaseStatus> {
    Some(OpenDcsDatabaseStatus {
        applied_schema_version: applied.map(|s| s.to_string()),
        state: Some(state),
        last_updated: None,
    })
}

fn job(image: &str, ready: i32, succeeded: i32, failed: bool) -> Option<ObservedJob> {
    Some(ObservedJob { image: image.to_string(), counters: JobCounters { ready, succeeded, failed } })
}

fn now() -> Timestamp {
    Timestamp { seconds: 10, nanos: 5 }
}

#[test]
fn app_user_made_on_first_sight_only() {
    let db = database("img:v1", None);
    let s = app_user_for(&db, &owner("t")).unwrap();
    assert_eq!(s.metadata.name.as_deref(), Some("t-app-user"));
    assert_eq!(s.data[1], ("username".to_string(), b"dcs_admin".to_vec()));
    assert_eq!(s.data[0].0, "password");
    assert_eq!(s.data[0].1.len(), 64);
    assert!(s.data[0].1.iter().all(|b| b.is_ascii_alphanumeric()));
    assert_eq!(s.metadata.annotations, vec![("tsdb.opendcs.org/for-database".to_string(), "t".to_string())]);
    let seen = database("img:v1", status(MigrationState::Fresh, None));
    assert!(app_user_for(&seen, &owner("t")).is_none());
}

#[test]
fn app_user_with_given_password() {
    let s = app_user_secret(&database("img:v1", None), &owner("t"), "pw");
    assert_eq!(s.data[0], ("password".to_string(), b"pw".to_vec()));
}

#[test]
fn fresh_database_creates_job() {
    let m = MigrationJob::from(database("img:v1", None), owner("t"), None);
    assert!(m.needs_job());
    let step = m.reconcile(0, "echo migrate");
    assert_eq!(step.old_state, None);
    assert_eq!(step.new_state, MigrationState::Fresh);
    match step.action {
        MigrationAction::CreateJob { config_map, job } => {
            assert_eq!(config_map.metadata.name.as_deref(), Some("t-schema-scripts"));
            assert_eq!(config_map.data, vec![("schema.sh".to_string(), "echo migrate".to_string())]);
            assert_eq!(job.metadata.name.as_deref(), Some("t-database-migration"));
            let c = &job.template.spec.containers[0];
            assert_eq!(c.name, "schema-migration");
            assert_eq!(c.image, "img:v1");
            assert_eq!(c.command, vec!["/bin/bash", "/scripts/schema.sh"]);
            assert_eq!(c.env.len(), 2);
            assert_eq!(c.env[0].name, "placeholder_NUM_TS_TABLES");
            assert!(matches!(&c.env[0].source, EnvSource::Value(v) if v == "1"));
            assert_eq!(c.env[1].name, "DATABASE_URL");
            assert!(matches!(&c.env[1].source, EnvSource::SecretKey { secret, key, optional: true } if secret == "dbs" && key == "jdbcUrl"));
            assert!(matches!(&job.template.spec.volumes[2].source, VolumeSource::Secret { secret_name, optional: Some(false) } if secret_name == "t-app-user"));
            assert_eq!(job.template.spec.restart_policy.as_deref(), Some("Never"));
        }
        MigrationAction::Wait => panic!("expected a job"),
    }
}

#[test]
fn application_pods_block_migration() {
    let m = MigrationJob::from(database("img:v1", status(MigrationState::Fresh, None)), owner("t"), None);
    let step = m.reconcile(1, "s");
    assert!(matches!(step.action, MigrationAction::Wait));
    assert_eq!(step.new_state, MigrationState::PreparingToMigrate);
    assert_eq!(step.old_state, Some(MigrationState::Fresh));
}

#[test]
fn job_counters_drive_state() {
    let db = || database("img:v1", status(MigrationState::Migrating, None));
    let ready = MigrationJob::from(db(), owner("t"), job("img:v1", 1, 0, false));
    assert!(!ready.needs_job());
    assert_eq!(ready.check_job(), (Some(MigrationState::Migrating), MigrationState::Migrating));
    let done = MigrationJob::from(db(), owner("t"), job("img:v1", 0, 1, false));
    assert_eq!(done.check_job().1, MigrationState::Ready);
    let idle = MigrationJob::from(db(), owner("t"), job("img:v1", 0, 0, false));
    assert_eq!(idle.check_job().1, MigrationState::PreparingToMigrate);
    let failed = MigrationJob::from(db(), owner("t"), job("img:v1", 0, 0, true));
    assert_eq!(failed.check_job().1, MigrationState::Failed);
    let gone = MigrationJob::from(db(), owner("t"), None);
    assert_eq!(gone.check_job().1, MigrationState::Fresh);
}

#[test]
fn ready_status_records_requested_version() {
    let db = database("img:v1", status(MigrationState::Migrating, None));
    let st = migration_status_update(&db, Some(MigrationState::Migrating), MigrationState::Ready, now()).unwrap();
    assert_eq!(st.state, Some(MigrationState::Ready));
    assert_eq!(st.applied_schema_version.as_deref(), Some("img:v1"));
    assert_eq!(st.last_updated, Some(now()));
    let st = migration_status_update(&db, None, MigrationState::Migrating, now()).unwrap();
    assert_eq!(st.applied_schema_version, None);
    assert!(migration_status_update(&db, Some(MigrationState::Ready), MigrationState::Ready, now()).is_none());
}

#[test]
fn finished_reconcile_writes_status_on_change() {
    let db = database("img:v1", None);
    let m = MigrationJob::from(database("img:v1", None), owner("t"), None);
    let step = m.reconcile(0, "s");
    let plan = finish_database_reconcile(&db, None, step, now());
    let st = plan.status.unwrap();
    assert_eq!(st.state, Some(MigrationState::Fresh));
}

#[test]
fn version_change_while_fresh_makes_new_job() {
    let db = database("img:v2", status(MigrationState::Fresh, Some("img:v1")));
    let m = MigrationJob::from(db, owner("t"), None);
    assert!(m.needs_job());
    let running = MigrationJob::from(database("img:v2", status(MigrationState::Fresh, None)), owner("t"), job("img:v2", 0, 0, false));
    assert!(!running.needs_job());
    let current = MigrationJob::from(database("img:v1", status(MigrationState::Ready, Some("img:v1"))), owner("t"), None);
    assert!(!current.needs_job());
    assert_eq!(current.reconcile(0, "s").new_state, MigrationState::Ready);
}

#[test]
fn schema_scripts_config_map() {
    let cm = create_script_config_map("ns".to_string(), &owner("t"), "x");
    assert_eq!(cm.metadata.name.as_deref(), Some("t-schema-scripts"));
    assert_eq!(cm.metadata.labels, vec![("tsdb.opendcs.org/for-database".to_string(), "t".to_string())]);
}

#[test]
fn placeholders_are_immutable() {
    let a = database("img:v1", None).spec;
    let b = database("img:v2", None).spec;
    assert!(placeholders_unchanged(&a, &b));
    let mut c = database("img:v1", None).spec;
    c.placeholders[0].1 = "2".to_string();
    assert!(!placeholders_unchanged(&a, &c));
    c.placeholders.clear();
    assert!(!placeholders_unchanged(&a, &c));
}

#[test]
fn failed_state_is_stable_until_job_removed() {
    let db = || database("img:v1", status(MigrationState::Failed, None));
    let stuck = MigrationJob::from(db(), owner("t"), job("img:v1", 0, 0, true));
    assert!(!stuck.needs_job());
    let step = stuck.reconcile(0, "s");
    assert_eq!((step.old_state, step.new_state), (Some(MigrationState::Failed), MigrationState::Failed));
    assert!(migration_status_update(&db(), step.old_state, step.new_state, now()).is_none());
    let cleaned = MigrationJob::from(db(), owner("t"), None);
    assert_eq!(cleaned.reconcile(0, "s").new_state, MigrationState::Fresh);
}

/// One pass with `pods` application pods and the job as given; returns the
/// status after the pass and whether a job was to be applied.
fn pass(
    version: &str,
    st: Option<OpenDcsDatabaseStatus>,
    observed: Option<ObservedJob>,
    pods: usize,
) -> (Option<OpenDcsDatabaseStatus>, bool) {
    let db = database(version, st);
    let kept = db.status.as_ref().map(|s| OpenDcsDatabaseStatus {
        applied_schema_version: s.applied_schema_version.clone(),
        state: s.state,
        last_updated: s.last_updated,
    });
    let m = MigrationJob::from(database(version, kept), owner("t"), observed);
    let step = m.reconcile(pods, "s");
    let created = matches!(step.action, MigrationAction::CreateJob { .. });
    let written = migration_status_update(&db, step.old_state, step.new_state, now());
    (written.or(db.status), created)
}

#[test]
fn fresh_database_reaches_ready() {
    let (st, created) = pass("img:v1", None, None, 0);
    assert!(created);
    assert_eq!(st.as_ref().unwrap().state, Some(MigrationState::Fresh));
    let (st, created) = pass("img:v1", st, job("img:v1", 0, 0, false), 0);
    assert!(!created);
    assert_eq!(st.as_ref().unwrap().state, Some(MigrationState::PreparingToMigrate));
    let (st, created) = pass("img:v1", st, job("img:v1", 1, 0, false), 0);
    assert!(!created);
    assert_eq!(st.as_ref().unwrap().state, Some(MigrationState::Migrating));
    let (st, _) = pass("img:v1", st, job("img:v1", 0, 1, false), 0);
    let st = st.unwrap();
    assert_eq!(st.state, Some(MigrationState::Ready));
    assert_eq!(st.applied_schema_version.as_deref(), Some("img:v1"));
    let (again, created) = pass("img:v1", Some(st), job("img:v1", 0, 1, false), 0);
    assert!(!created);
    assert_eq!(again.unwrap().state, Some(MigrationState::Ready));
}

#[test]
fn schema_upgrade_leaves_ready_and_returns() {
    let ready = status(MigrationState::Ready, Some("img:v1"));
    let (blocked, created) = pass("img:v2", ready, job("img:v1", 0, 1, false), 1);
    assert!(!created);
    let blocked_status = blocked.as_ref().unwrap();
    assert_eq!(blocked_status.state, Some(MigrationState::PreparingToMigrate));
    assert_eq!(blocked_status.applied_schema_version, None);
    let (st, created) = pass("img:v2", blocked, job("img:v1", 0, 1, false), 0);
    assert!(created);
    assert_eq!(st.as_ref().unwrap().state, Some(MigrationState::Fresh));
    let (st, _) = pass("img:v2", st, job("img:v2", 1, 0, false), 0);
    assert_eq!(st.as_ref().unwrap().state, Some(MigrationState::Migrating));
    let (st, _) = pass("img:v2", st, job("img:v2", 0, 1, false), 0);
    let st = st.unwrap();
    assert_eq!(st.state, Some(MigrationState::Ready));
    assert_eq!(st.applied_schema_version.as_deref(), Some("img:v2"));
}

#[test]
fn upgrade_without_pods_makes_job_at_once() {
    let ready = status(MigrationState::Ready, Some("img:v1"));
    let (st, created) = pass("img:v2", ready, job("img:v1", 0, 1, false), 0);
    assert!(created);
    assert_eq!(st.unwrap().state, Some(MigrationState::Fresh));
}

#[test]
fn blocked_migration_holds_until_pod_removed() {
    let (st, created) = pass("img:v1", None, None, 1);
    assert!(!created);
    assert_eq!(st.as_ref().unwrap().state, Some(MigrationState::PreparingToMigrate));
    let mut st = st;
    for _ in 0..3 {
        let (next, created) = pass("img:v1", st, None, 1);
        assert!(!created);
        assert_eq!(next.as_ref().unwrap().state, Some(MigrationState::PreparingToMigrate));
        st = next;
    }
    let (st, created) = pass("img:v1", st, None, 0);
    assert!(created);
    assert_eq!(st.unwrap().state, Some(MigrationState::Fresh));
}
