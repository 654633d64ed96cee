//! The decisions of one reconcile of each resource kind. The caller reads
//! the cluster, hands the results in, applies what comes back in order, and
//! requeues as the outcome says.

use vstd::prelude::*;
use vstd::string::*;
use vstd::utf8::encode_utf8;
use crate::api::{
    pairs_view, DdsConnection, DrgsConnection, LrgsCluster, LrgsClusterStatus, MigrationState, OpenDcsDatabase,
    OpenDcsDatabaseStatus, Timestamp,
};
use crate::digest::{hex_text, sha256_of};
use crate::lrgs_config::{
    config_hash_text, config_secret_matches, create_lrgs_config, first_secret_error, secret_users,
    ConfigError, UserSecretData,
};
use crate::lrgs_objects::{
    alphanumeric_password, create_managed_users, create_service, created_script_config_map,
    create_statefulset, managed_users_match, script_config_map_matches, service_matches,
    statefulset_matches, strong_password, PASSWORD_LENGTH,
};
use crate::objects::{ConfigMap, OwnerReference, Secret, Service, StatefulSet};
use crate::password_file::password_file_text;
use crate::recv_conf::{dds_recv_text, drgs_recv_text};
use crate::schema::{
    app_user_secret, app_user_secret_matches, migration_status_update, MigrationStep,
};

verus! {

/// Seconds until the next reconcile after a successful one.
pub const SUCCESS_REQUEUE_SECS: u64 = 1800;

/// Seconds until the next reconcile after an API error.
pub const ERROR_REQUEUE_SECS: u64 = 300;

/// Seconds until the next reconcile when a configuration could not be built.
pub const BUILD_FAILURE_REQUEUE_SECS: u64 = 3600;

/// Field manager of the LRGS controller's applies.
pub const LRGS_FIELD_MANAGER: &'static str = "lrgs-controller";

/// Field manager of the database controller's applies.
pub const DATABASE_FIELD_MANAGER: &'static str = "database-controller";

/// Label that names the LrgsCluster a watched resource belongs to.
pub const CLUSTER_LABEL: &'static str = "lrgs.opendcs.org/lrgs-cluster";

/// The value of the first label named `key`, if any.
pub open spec fn label_value(labels: Seq<(Seq<char>, Seq<char>)>, key: Seq<char>) -> Option<
    Seq<char>,
>
    decreases labels.len(),
{
    if labels.len() == 0 {
        None
    } else if labels[0].0 == key {
        Some(labels[0].1)
    } else {
        label_value(labels.drop_first(), key)
    }
}

/// The cluster that a watched resource (a DDS user secret or a
/// DdsConnection) belongs to, as (namespace, name): named by its cluster
/// label, in its own namespace or `default`. None without the label.
pub fn owning_cluster(labels: &Vec<(String, String)>, namespace: Option<String>) -> (r: Option<
    (String, String),
>)
    ensures
        r is Some <==> label_value(pairs_view(labels@), CLUSTER_LABEL@) is Some,
        r matches Some(key) ==> Some(key.1@) == label_value(pairs_view(labels@), CLUSTER_LABEL@)
            && key.0@ == match namespace {
            Some(ns) => ns@,
            None => "default"@,
        },
{
    let key = String::from_str(CLUSTER_LABEL);
    let mut i: usize = 0;
    assert(pairs_view(labels@).subrange(0, labels@.len() as int) =~= pairs_view(labels@));
    while i < labels.len()
        invariant
            i <= labels.len(),
            key@ == CLUSTER_LABEL@,
            label_value(pairs_view(labels@), CLUSTER_LABEL@) == label_value(
                pairs_view(labels@).subrange(i as int, labels@.len() as int),
                CLUSTER_LABEL@,
            ),
        decreases labels.len() - i,
    {
        let ghost rest = pairs_view(labels@).subrange(i as int, labels@.len() as int);
        proof {
            assert(rest.drop_first() =~= pairs_view(labels@).subrange(i as int + 1, labels@.len() as int));
        }
        if labels[i].0 == key {
            let ns = match namespace {
                Some(ns) => ns,
                None => String::from_str("default"),
            };
            return Some((ns, labels[i].1.clone()));
        }
        i = i + 1;
    }
    proof {
        assert(pairs_view(labels@).subrange(labels@.len() as int, labels@.len() as int) =~= seq![]);
    }
    None
}

/// How a reconcile ended.
#[derive(Clone, Copy, Debug, PartialEq, Eq, Structural)]
pub enum ReconcileOutcome {
    /// Everything was applied.
    Applied,
    /// The configuration could not be built; nothing was applied.
    BuildFailed,
    /// The cluster API failed.
    ApiError,
}

/// Seconds until the next reconcile after `outcome`.
pub fn requeue_after(outcome: ReconcileOutcome) -> (r: u64)
    ensures
        outcome == ReconcileOutcome::Applied ==> r == SUCCESS_REQUEUE_SECS,
        outcome == ReconcileOutcome::BuildFailed ==> r == BUILD_FAILURE_REQUEUE_SECS,
        outcome == ReconcileOutcome::ApiError ==> r == ERROR_REQUEUE_SECS,
{
    match outcome {
        ReconcileOutcome::Applied => SUCCESS_REQUEUE_SECS,
        ReconcileOutcome::BuildFailed => BUILD_FAILURE_REQUEUE_SECS,
        ReconcileOutcome::ApiError => ERROR_REQUEUE_SECS,
    }
}

/// The outcome of the peer lookup.
pub enum PeerLookup {
    /// The targets of the service records, in the order returned.
    Found(Vec<String>),
    /// The name has no service record.
    NoRecords,
    /// The lookup failed otherwise.
    Failed,
}

/// The peers to replicate from: no record means no peer, not an error.
pub fn peers_from_lookup(lookup: PeerLookup) -> (r: Result<Vec<String>, ConfigError>)
    ensures
        lookup matches PeerLookup::Found(v) ==> (r matches Ok(p) && p@ == v@),
        lookup is NoRecords ==> (r matches Ok(p) && p@.len() == 0),
        lookup is Failed ==> r == Err::<Vec<String>, ConfigError>(ConfigError::PeerLookupFailed),
{
    match lookup {
        PeerLookup::Found(v) => Ok(v),
        PeerLookup::NoRecords => Ok(Vec::new()),
        PeerLookup::Failed => Err(ConfigError::PeerLookupFailed),
    }
}

/// The status to record for a cluster whose configuration hashes to `hash`:
/// some exactly when no status was recorded or its checksum differs.
pub fn lrgs_status_update(cluster: &LrgsCluster, hash: &String, now: Timestamp) -> (r: Option<
    LrgsClusterStatus,
>)
    ensures
        r is Some <==> (cluster.status matches Some(st) ==> st.checksum@ != hash@),
        r matches Some(st) ==> st.checksum@ == hash@ && st.last_updated == Some(now),
{
    let changed = match &cluster.status {
        Some(st) => !(st.checksum == *hash),
        None => true,
    };
    if changed {
        Some(LrgsClusterStatus { checksum: hash.clone(), last_updated: Some(now) })
    } else {
        None
    }
}

/// What one LRGS reconcile applies, in this order, then the status to
/// record, if any.
pub struct LrgsPlan {
    pub config_secret: Secret,
    pub script_config_map: ConfigMap,
    pub statefulset: StatefulSet,
    pub services: Vec<Service>,
    pub managed_users: Vec<Secret>,
    pub status: Option<LrgsClusterStatus>,
}

/// What the cluster's namespace holds, as the LRGS reconcile reads it.
pub struct LrgsInputs {
    /// Data of the DDS user secrets; `None` for a secret without data.
    pub user_secrets: Vec<Option<UserSecretData>>,
    /// Peer LRGS hosts.
    pub peers: Vec<String>,
    pub dds_connections: Vec<DdsConnection>,
    pub drgs_connections: Vec<DrgsConnection>,
    /// Names of the managed user secrets that already exist.
    pub existing_users: Vec<String>,
}

/// The content hash of what a namespace holds.
pub open spec fn inputs_hash(inputs: LrgsInputs) -> Seq<char> {
    config_hash_text(
        password_file_text(secret_users(inputs.user_secrets@)),
        dds_recv_text(inputs.peers@.map_values(|p: String| p@), inputs.dds_connections@),
        drgs_recv_text(inputs.drgs_connections@),
    )
}

/// The plan of a reconcile of `cluster` that succeeded in building.
pub open spec fn lrgs_plan_matches(
    p: LrgsPlan,
    cluster: LrgsCluster,
    owner_ref: OwnerReference,
    script: Seq<char>,
    inputs: LrgsInputs,
    now: Timestamp,
) -> bool {
    let hash = inputs_hash(inputs);
    let script_hash = hex_text(sha256_of(encode_utf8(script)), false);
    &&& config_secret_matches(
        p.config_secret,
        cluster,
        owner_ref,
        password_file_text(secret_users(inputs.user_secrets@)),
        dds_recv_text(inputs.peers@.map_values(|s: String| s@), inputs.dds_connections@),
        drgs_recv_text(inputs.drgs_connections@),
    )
    &&& script_config_map_matches(p.script_config_map, cluster.namespace@, owner_ref, script)
    &&& statefulset_matches(p.statefulset, cluster, owner_ref, hash, script_hash)
    &&& p.services@.len() == 2
    &&& service_matches(p.services@[0], cluster.name@ + "-lrgs-service"@, false, cluster, owner_ref)
    &&& service_matches(
        p.services@[1],
        cluster.name@ + "-lrgs-service-headless"@,
        true,
        cluster,
        owner_ref,
    )
    &&& managed_users_match(
        p.managed_users@,
        cluster,
        owner_ref,
        inputs.existing_users@.map_values(|s: String| s@),
    )
    &&& (p.status is Some <==> (cluster.status matches Some(st) ==> st.checksum@ != hash))
    &&& (p.status matches Some(st) ==> st.checksum@ == hash && st.last_updated == Some(now))
}

/// One LRGS reconcile: builds every child of `cluster` from what its
/// namespace holds and decides the status. Fails, applying nothing, only
/// when a user secret cannot be read.
pub fn reconcile_lrgs(
    cluster: &LrgsCluster,
    owner_ref: &OwnerReference,
    script: &str,
    inputs: &LrgsInputs,
    now: Timestamp,
) -> (r: Result<LrgsPlan, ConfigError>)
    ensures
        r is Err <==> first_secret_error(inputs.user_secrets@) is Some,
        r matches Err(e) ==> Some(e) == first_secret_error(inputs.user_secrets@),
        r matches Ok(p) ==> lrgs_plan_matches(p, *cluster, *owner_ref, script@, *inputs, now),
{
    let (script_config_map, script_hash) = created_script_config_map(
        cluster.namespace.clone(),
        owner_ref,
        script,
    );
    let config = match create_lrgs_config(
        cluster,
        owner_ref,
        &inputs.user_secrets,
        &inputs.peers,
        &inputs.dds_connections,
        &inputs.drgs_connections,
    ) {
        Ok(c) => c,
        Err(e) => {
            return Err(e);
        },
    };
    let managed_users = create_managed_users(cluster, owner_ref, &inputs.existing_users);
    let services = create_service(cluster, owner_ref);
    let status = lrgs_status_update(cluster, &config.hash, now);
    let statefulset = create_statefulset(cluster, owner_ref, config.hash, script_hash);
    Ok(
        LrgsPlan {
            config_secret: config.secret,
            script_config_map,
            statefulset,
            services,
            managed_users,
            status,
        },
    )
}

/// What one database reconcile applies, in this order, then the status to
/// record, if any.
pub struct DatabasePlan {
    /// The application user secret, made on first sight only.
    pub app_user: Option<Secret>,
    pub step: MigrationStep,
    pub status: Option<OpenDcsDatabaseStatus>,
}

/// On first sight of a database (no status yet) its application user
/// secret with a fresh password; afterwards none, so the password is kept.
pub fn app_user_for(database: &OpenDcsDatabase, owner_ref: &OwnerReference) -> (r: Option<Secret>)
    ensures
        r is Some <==> database.status is None,
        r matches Some(s) ==> exists|p: Seq<char>|
            strong_password(p, PASSWORD_LENGTH as nat) && app_user_secret_matches(
                s,
                *database,
                *owner_ref,
                p,
            ),
{
    match &database.status {
        Some(_) => None,
        None => {
            let password = alphanumeric_password(PASSWORD_LENGTH);
            let s = app_user_secret(database, owner_ref, password.as_str());
            assert(strong_password(password@, PASSWORD_LENGTH as nat));
            Some(s)
        },
    }
}

/// Completes a database reconcile from the state machine's pass: the status
/// to record follows from the pass's old and new state.
pub fn finish_database_reconcile(
    database: &OpenDcsDatabase,
    app_user: Option<Secret>,
    step: MigrationStep,
    now: Timestamp,
) -> (r: DatabasePlan)
    ensures
        r.app_user == app_user,
        r.step == step,
        r.status is Some <==> step.old_state != Some(step.new_state),
        r.status matches Some(st) ==> st.state == Some(step.new_state) && st.last_updated == Some(
            now,
        ) && (step.new_state == MigrationState::Ready <==> st.applied_schema_version is Some) && (
        st.applied_schema_version matches Some(v) ==> v@ == database.spec.schema_version@),
{
    let status = migration_status_update(database, step.old_state, step.new_state, now);
    DatabasePlan { app_user, step, status }
}

} // verus!
