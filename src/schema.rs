//! The OpenDcsDatabase side: the application user secret, the migration
//! script config map, the migration job, and the migration state machine
//! {Fresh, PreparingToMigrate, Migrating, Ready, Failed}.

use vstd::prelude::*;
use vstd::string::*;
use vstd::utf8::encode_utf8;
use crate::api::{pairs_view, MigrationState, OpenDcsDatabase, OpenDcsDatabaseStatus, Timestamp};
use crate::lrgs_objects::{alphanumeric_password, strings_view, strong_password, PASSWORD_LENGTH};
use crate::objects::{
    owned_meta, single_owner, single_pair, volume_mount, ConfigMap, Container, EnvSource, EnvVar, Job,
    ObjectMeta, OwnerReference, PodSpec, PodTemplateSpec, Secret, Volume, VolumeMount,
    VolumeSource,
};
use crate::text::utf8_bytes;

verus! {

/// The migration script config map, named `<owner>-schema-scripts`,
/// labelled with the owner's name, holding `script` under `schema.sh`.
pub open spec fn schema_config_map_matches(
    c: ConfigMap,
    namespace: Seq<char>,
    owner_ref: OwnerReference,
    script: Seq<char>,
) -> bool {
    &&& c.metadata.name matches Some(n) && n@ == owner_ref.name@ + "-schema-scripts"@
    &&& c.metadata.namespace matches Some(ns) && ns@ == namespace
    &&& c.metadata.owned_by(owner_ref)
    &&& pairs_view(c.metadata.labels@) == seq![
        ("tsdb.opendcs.org/for-database"@, owner_ref.name@),
    ]
    &&& c.metadata.annotations@.len() == 0
    &&& pairs_view(c.data@) == seq![("schema.sh"@, script)]
}

/// The config map that carries the migration script.
pub fn create_script_config_map(namespace: String, owner_ref: &OwnerReference, script: &str) -> (r:
    ConfigMap)
    ensures
        schema_config_map_matches(r, namespace@, *owner_ref, script@),
{
    let name = owner_ref.name.clone().concat("-schema-scripts");
    let mut metadata = owned_meta(name, Some(namespace), owner_ref);
    metadata.labels = single_pair("tsdb.opendcs.org/for-database", owner_ref.name.clone());
    ConfigMap { metadata, data: single_pair("schema.sh", String::from_str(script)) }
}

/// The application user secret `<owner>-app-user`: user `dcs_admin` with
/// `password`, annotated with the database's name.
pub open spec fn app_user_secret_matches(
    s: Secret,
    database: OpenDcsDatabase,
    owner_ref: OwnerReference,
    password: Seq<char>,
) -> bool {
    &&& s.metadata.name matches Some(n) && n@ == owner_ref.name@ + "-app-user"@
    &&& s.metadata.namespace matches Some(ns) && ns@ == database.namespace@
    &&& s.metadata.owned_by(owner_ref)
    &&& pairs_view(s.metadata.annotations@) == seq![
        ("tsdb.opendcs.org/for-database"@, database.name@),
    ]
    &&& s.type_ is None
    &&& s.data@.map_values(|kv: (String, Vec<u8>)| (kv.0@, kv.1@)) == seq![
        ("password"@, encode_utf8(password)),
        ("username"@, encode_utf8("dcs_admin"@)),
    ]
}

/// The application user secret with the password it is given.
pub fn app_user_secret(database: &OpenDcsDatabase, owner_ref: &OwnerReference, password: &str) -> (r:
    Secret)
    ensures
        app_user_secret_matches(r, *database, *owner_ref, password@),
{
    let mut data: Vec<(String, Vec<u8>)> = Vec::new();
    data.push((String::from_str("password"), utf8_bytes(password)));
    data.push((String::from_str("username"), utf8_bytes("dcs_admin")));
    let name = owner_ref.name.clone().concat("-app-user");
    let mut metadata = owned_meta(name, Some(database.namespace.clone()), owner_ref);
    metadata.annotations = single_pair("tsdb.opendcs.org/for-database", database.name.clone());
    let r = Secret { metadata, type_: None, data };
    assert(r.data@.map_values(|kv: (String, Vec<u8>)| (kv.0@, kv.1@)) =~= seq![
        ("password"@, encode_utf8(password@)),
        ("username"@, encode_utf8("dcs_admin"@)),
    ]);
    r
}

/// What the migration job's status shows; absent counters are zero.
#[derive(Clone, Copy, Debug, PartialEq, Eq, Structural)]
pub struct JobCounters {
    pub ready: i32,
    pub succeeded: i32,
    /// The job gave up: its retries are exhausted and its `Failed`
    /// condition is true.
    pub failed: bool,
}

/// The migration job as it stands: the image it runs and its status.
pub struct ObservedJob {
    pub image: String,
    pub counters: JobCounters,
}

/// What the migration state machine sees of one database.
pub struct MigrationJob {
    pub database: OpenDcsDatabase,
    pub owner_ref: OwnerReference,
    /// The migration job, if it exists.
    pub job: Option<ObservedJob>,
    pub name: String,
    pub namespace: String,
    pub job_name: String,
    /// The recorded state, if any.
    pub state: Option<MigrationState>,
}

/// Name of a database's migration job.
pub open spec fn job_name_of(database_name: Seq<char>) -> Seq<char> {
    database_name + "-database-migration"@
}

/// The recorded status is Ready at the requested version.
pub open spec fn up_to_date(database: OpenDcsDatabase) -> bool {
    database.status matches Some(st) && st.state == Some(MigrationState::Ready) && (
    st.applied_schema_version matches Some(v) && v@ == database.spec.schema_version@)
}

/// The existing job runs the requested version's image.
pub open spec fn job_runs_request(database: OpenDcsDatabase, job: Option<ObservedJob>) -> bool {
    job matches Some(j) && j.image@ == database.spec.schema_version@
}

/// A new job is called for when nothing was recorded yet, or when the
/// database is not up to date and either it was Ready (the requested
/// version changed) or no job runs the requested version.
pub open spec fn wants_new_job(database: OpenDcsDatabase, job: Option<ObservedJob>) -> bool {
    match database.status {
        None => true,
        Some(st) => !up_to_date(database) && (st.state == Some(MigrationState::Ready)
            || !job_runs_request(database, job)),
    }
}

/// The state that a job's status shows: Migrating while a pod is ready,
/// Ready once one succeeded, Failed once the job gave up, else
/// PreparingToMigrate.
pub open spec fn job_state(c: JobCounters) -> MigrationState {
    if c.ready > 0 {
        MigrationState::Migrating
    } else if c.succeeded > 0 {
        MigrationState::Ready
    } else if c.failed {
        MigrationState::Failed
    } else {
        MigrationState::PreparingToMigrate
    }
}

/// The check-job branch: an up-to-date database stays Ready; otherwise the
/// job's status decides, and without a job the state falls back to Fresh.
pub open spec fn checked_state(database: OpenDcsDatabase, job: Option<ObservedJob>) -> MigrationState {
    if up_to_date(database) {
        MigrationState::Ready
    } else {
        match job {
            None => MigrationState::Fresh,
            Some(j) => job_state(j.counters),
        }
    }
}

/// What one pass of the state machine does.
pub enum MigrationAction {
    /// Apply the script config map, then the job.
    CreateJob { config_map: ConfigMap, job: Job },
    /// Apply nothing.
    Wait,
}

/// One pass: what to apply, and the state before and after.
pub struct MigrationStep {
    pub action: MigrationAction,
    pub old_state: Option<MigrationState>,
    pub new_state: MigrationState,
}

impl MigrationJob {
    pub open spec fn wf(&self) -> bool {
        &&& self.name@ == self.database.name@
        &&& self.namespace@ == self.database.namespace@
        &&& self.job_name@ == job_name_of(self.database.name@)
        &&& self.state == match self.database.status {
            Some(st) => st.state,
            None => None,
        }
    }

    /// The state machine's view of `database`, with its migration job if
    /// that exists.
    pub fn from(database: OpenDcsDatabase, owner_ref: OwnerReference, job: Option<ObservedJob>) -> (r:
        MigrationJob)
        ensures
            r.wf(),
            r.database == database,
            r.owner_ref == owner_ref,
            r.job == job,
    {
        let name = database.name.clone();
        let namespace = database.namespace.clone();
        let job_name = database.name.clone().concat("-database-migration");
        let state = match &database.status {
            Some(st) => st.state,
            None => None,
        };
        MigrationJob { database, owner_ref, job, name, namespace, job_name, state }
    }

    fn is_up_to_date(&self) -> (r: bool)
        ensures
            r == up_to_date(self.database),
    {
        match &self.database.status {
            None => false,
            Some(st) => {
                let ready = match st.state {
                    Some(MigrationState::Ready) => true,
                    _ => false,
                };
                let applied = match &st.applied_schema_version {
                    Some(v) => *v == self.database.spec.schema_version,
                    None => false,
                };
                ready && applied
            },
        }
    }

    /// Whether this pass takes the create-job branch.
    pub fn needs_job(&self) -> (r: bool)
        ensures
            r == wants_new_job(self.database, self.job),
    {
        match &self.database.status {
            None => true,
            Some(st) => {
                let was_ready = match st.state {
                    Some(MigrationState::Ready) => true,
                    _ => false,
                };
                let runs_request = match &self.job {
                    Some(j) => j.image == self.database.spec.schema_version,
                    None => false,
                };
                !self.is_up_to_date() && (was_ready || !runs_request)
            },
        }
    }

    /// The check-job branch: the recorded state, and the state now.
    pub fn check_job(&self) -> (r: (Option<MigrationState>, MigrationState))
        requires
            self.wf(),
        ensures
            r.0 == self.state,
            r.1 == checked_state(self.database, self.job),
    {
        if self.is_up_to_date() {
            return (self.state, MigrationState::Ready);
        }
        let new_state = match &self.job {
            None => MigrationState::Fresh,
            Some(j) => {
                let c = j.counters;
                if c.ready > 0 {
                    MigrationState::Migrating
                } else if c.succeeded > 0 {
                    MigrationState::Ready
                } else if c.failed {
                    MigrationState::Failed
                } else {
                    MigrationState::PreparingToMigrate
                }
            },
        };
        (self.state, new_state)
    }
}

/// The environment of the migration container: `placeholder_<key>` for each
/// placeholder, in order, then `DATABASE_URL` from the optional `jdbcUrl`
/// key of the administrator secret.
pub open spec fn migration_env_matches(env: Seq<EnvVar>, database: OpenDcsDatabase) -> bool {
    let ph = pairs_view(database.spec.placeholders@);
    &&& env.len() == ph.len() + 1
    &&& forall|i: int|
        0 <= i < ph.len() ==> ((#[trigger] env[i]).name@ == "placeholder_"@ + ph[i].0 && (env[i].source
            matches EnvSource::Value(v) && v@ == ph[i].1))
    &&& env[ph.len() as int].name@ == "DATABASE_URL"@
    &&& env[ph.len() as int].source matches EnvSource::SecretKey { secret, key, optional } && secret@
        == database.spec.database_secret@ && key@ == "jdbcUrl"@ && optional
}

/// The migration job: one unprivileged container `schema-migration` from
/// the requested image running the script, with the script config map, the
/// administrator secret and the application user secret mounted; pods are
/// never restarted.
pub open spec fn job_matches(j: Job, m: MigrationJob) -> bool {
    &&& j.metadata.name matches Some(n) && n@ == m.job_name@
    &&& j.metadata.namespace matches Some(ns) && ns@ == m.namespace@
    &&& j.metadata.owned_by(m.owner_ref)
    &&& j.template.metadata.name matches Some(n) && n@ == m.job_name@
    &&& j.template.metadata.namespace matches Some(ns) && ns@ == m.namespace@
    &&& j.template.metadata.owned_by(m.owner_ref)
    &&& j.template.spec.containers@.len() == 1
    &&& {
        let c = j.template.spec.containers@[0];
        &&& c.name@ == "schema-migration"@
        &&& c.image@ == m.database.spec.schema_version@
        &&& strings_view(c.command@) == seq!["/bin/bash"@, "/scripts/schema.sh"@]
        &&& !c.allow_privilege_escalation
        &&& c.ports@.len() == 0
        &&& migration_env_matches(c.env@, m.database)
        &&& c.volume_mounts@.map_values(|v: VolumeMount| (v.name@, v.mount_path@)) == seq![
            ("schema-scripts"@, "/scripts"@),
            ("db-admin"@, "/secrets/db-admin"@),
            ("db-app"@, "/secrets/db-app"@),
        ]
    }
    &&& j.template.spec.volumes@.len() == 3
    &&& j.template.spec.volumes@[0].name@ == "schema-scripts"@
    &&& j.template.spec.volumes@[0].source matches VolumeSource::ConfigMap(n) && n@
        == m.owner_ref.name@ + "-schema-scripts"@
    &&& j.template.spec.volumes@[1].name@ == "db-admin"@
    &&& j.template.spec.volumes@[1].source matches VolumeSource::Secret { secret_name, optional }
        && secret_name@ == m.database.spec.database_secret@ && optional == Some(false)
    &&& j.template.spec.volumes@[2].name@ == "db-app"@
    &&& j.template.spec.volumes@[2].source matches VolumeSource::Secret { secret_name, optional }
        && secret_name@ == m.owner_ref.name@ + "-app-user"@ && optional == Some(false)
    &&& j.template.spec.security_context is None
    &&& j.template.spec.restart_policy matches Some(p) && p@ == "Never"@
}

fn migration_env(database: &OpenDcsDatabase) -> (r: Vec<EnvVar>)
    ensures
        migration_env_matches(r@, *database),
{
    let ph = &database.spec.placeholders;
    let ghost phv = pairs_view(ph@);
    let mut env: Vec<EnvVar> = Vec::new();
    let mut i: usize = 0;
    while i < ph.len()
        invariant
            i <= ph.len(),
            ph == &database.spec.placeholders,
            phv == pairs_view(ph@),
            env@.len() == i,
            forall|j: int|
                0 <= j < i ==> ((#[trigger] env@[j]).name@ == "placeholder_"@ + phv[j].0
                    && (env@[j].source matches EnvSource::Value(v) && v@ == phv[j].1)),
        decreases ph.len() - i,
    {
        let name = String::from_str("placeholder_").concat(ph[i].0.as_str());
        env.push(EnvVar { name, source: EnvSource::Value(ph[i].1.clone()) });
        i = i + 1;
    }
    env.push(
        EnvVar {
            name: String::from_str("DATABASE_URL"),
            source: EnvSource::SecretKey {
                secret: database.spec.database_secret.clone(),
                key: String::from_str("jdbcUrl"),
                optional: true,
            },
        },
    );
    env
}

impl MigrationJob {
    /// The migration job of this database.
    pub fn build_job(&self) -> (r: Job)
        ensures
            job_matches(r, *self),
    {
        let mut command: Vec<String> = Vec::new();
        command.push(String::from_str("/bin/bash"));
        command.push(String::from_str("/scripts/schema.sh"));
        assert(strings_view(command@) =~= seq!["/bin/bash"@, "/scripts/schema.sh"@]);
        let mut mounts: Vec<VolumeMount> = Vec::new();
        mounts.push(volume_mount("schema-scripts", "/scripts"));
        mounts.push(volume_mount("db-admin", "/secrets/db-admin"));
        mounts.push(volume_mount("db-app", "/secrets/db-app"));
        let container = Container {
            name: String::from_str("schema-migration"),
            image: self.database.spec.schema_version.clone(),
            command,
            allow_privilege_escalation: false,
            ports: Vec::new(),
            env: migration_env(&self.database),
            volume_mounts: mounts,
        };
        let mut containers: Vec<Container> = Vec::new();
        containers.push(container);
        let mut volumes: Vec<Volume> = Vec::new();
        volumes.push(
            Volume {
                name: String::from_str("schema-scripts"),
                source: VolumeSource::ConfigMap(self.owner_ref.name.clone().concat("-schema-scripts")),
            },
        );
        volumes.push(
            Volume {
                name: String::from_str("db-admin"),
                source: VolumeSource::Secret {
                    secret_name: self.database.spec.database_secret.clone(),
                    optional: Some(false),
                },
            },
        );
        volumes.push(
            Volume {
                name: String::from_str("db-app"),
                source: VolumeSource::Secret {
                    secret_name: self.owner_ref.name.clone().concat("-app-user"),
                    optional: Some(false),
                },
            },
        );
        let template_meta = ObjectMeta {
            name: Some(self.job_name.clone()),
            namespace: Some(self.namespace.clone()),
            owner_references: single_owner(&self.owner_ref),
            labels: Vec::new(),
            annotations: Vec::new(),
        };
        let r = Job {
            metadata: owned_meta(self.job_name.clone(), Some(self.namespace.clone()), &self.owner_ref),
            template: PodTemplateSpec {
                metadata: template_meta,
                spec: PodSpec {
                    containers,
                    volumes,
                    security_context: None,
                    restart_policy: Some(String::from_str("Never")),
                },
            },
        };
        assert(r.template.spec.containers@[0].volume_mounts@.map_values(
            |v: VolumeMount| (v.name@, v.mount_path@),
        ) =~= seq![
            ("schema-scripts"@, "/scripts"@),
            ("db-admin"@, "/secrets/db-admin"@),
            ("db-app"@, "/secrets/db-app"@),
        ]);
        r
    }

    /// The create-job branch. While any application pod of the database
    /// exists no job is made and the state becomes PreparingToMigrate;
    /// otherwise the script config map and the job are to be applied and
    /// the state becomes Fresh, to advance on a later pass.
    pub fn create_job(&self, active_pods: usize, script: &str) -> (r: MigrationStep)
        requires
            self.wf(),
        ensures
            r.old_state == self.state,
            active_pods > 0 ==> r.action is Wait && r.new_state == MigrationState::PreparingToMigrate,
            active_pods == 0 ==> r.new_state == MigrationState::Fresh && (r.action matches MigrationAction::CreateJob { config_map, job } && schema_config_map_matches(
                config_map,
                self.namespace@,
                self.owner_ref,
                script@,
            ) && job_matches(job, *self)),
    {
        if active_pods > 0 {
            return MigrationStep {
                action: MigrationAction::Wait,
                old_state: self.state,
                new_state: MigrationState::PreparingToMigrate,
            };
        }
        let config_map = create_script_config_map(self.namespace.clone(), &self.owner_ref, script);
        let job = self.build_job();
        MigrationStep {
            action: MigrationAction::CreateJob { config_map, job },
            old_state: self.state,
            new_state: MigrationState::Fresh,
        }
    }

    /// One pass of the state machine: the create-job branch when a new job
    /// is called for, else the check-job branch.
    pub fn reconcile(&self, active_pods: usize, script: &str) -> (r: MigrationStep)
        requires
            self.wf(),
        ensures
            r.old_state == self.state,
            wants_new_job(self.database, self.job) && active_pods > 0 ==> r.action is Wait
                && r.new_state == MigrationState::PreparingToMigrate,
            wants_new_job(self.database, self.job) && active_pods == 0 ==> r.new_state
                == MigrationState::Fresh && (r.action matches MigrationAction::CreateJob {
                config_map,
                job,
            } && schema_config_map_matches(config_map, self.namespace@, self.owner_ref, script@)
                && job_matches(job, *self)),
            !wants_new_job(self.database, self.job) ==> r.action is Wait && r.new_state
                == checked_state(self.database, self.job),
            // A job for the requested version, once made, decides the state.
            self.database.status is Some && self.state != Some(MigrationState::Ready)
                && (self.job matches Some(j) && j.image@ == self.database.spec.schema_version@)
                ==> r.action is Wait && r.new_state == job_state(self.job->Some_0.counters),
            // Application pods hold a waiting migration where it is.
            self.state == Some(MigrationState::PreparingToMigrate) && active_pods > 0 && !job_runs_request(
                self.database,
                self.job,
            ) ==> r.action is Wait && r.new_state == MigrationState::PreparingToMigrate,
            // A changed version leaves Ready.
            self.state == Some(MigrationState::Ready) && !up_to_date(self.database) ==> r.new_state
                != MigrationState::Ready,
            // An up-to-date database stays Ready and makes no job.
            up_to_date(self.database) ==> r.action is Wait && r.new_state == MigrationState::Ready,
    {
        if self.needs_job() {
            self.create_job(active_pods, script)
        } else {
            let (old_state, new_state) = self.check_job();
            MigrationStep { action: MigrationAction::Wait, old_state, new_state }
        }
    }
}

/// The status to record after a pass, if the state changed: the new state,
/// the time, and the requested version exactly when the new state is Ready.
pub fn migration_status_update(
    database: &OpenDcsDatabase,
    old_state: Option<MigrationState>,
    new_state: MigrationState,
    now: Timestamp,
) -> (r: Option<OpenDcsDatabaseStatus>)
    ensures
        r is Some <==> old_state != Some(new_state),
        r matches Some(st) ==> st.state == Some(new_state) && st.last_updated == Some(now) && (
        new_state == MigrationState::Ready <==> st.applied_schema_version is Some) && (
        st.applied_schema_version matches Some(v) ==> v@ == database.spec.schema_version@),
{
    if old_state == Some(new_state) {
        return None;
    }
    let applied_schema_version = match new_state {
        MigrationState::Ready => Some(database.spec.schema_version.clone()),
        _ => None,
    };
    Some(
        OpenDcsDatabaseStatus {
            applied_schema_version,
            state: Some(new_state),
            last_updated: Some(now),
        },
    )
}

} // verus!
