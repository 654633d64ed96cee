//! Plain models of the cluster objects that the operators apply. Only the
//! fields that the operators set are kept; an empty list stands for an
//! absent one.

use vstd::prelude::*;
use vstd::string::*;
use crate::api::pairs_view;

verus! {

/// Ties a child object's lifetime to its parent.
pub struct OwnerReference {
    pub api_version: String,
    pub kind: String,
    pub name: String,
    pub uid: String,
    pub controller: Option<bool>,
    pub block_owner_deletion: Option<bool>,
}

impl OwnerReference {
    /// A copy of this reference.
    pub fn duplicate(&self) -> (r: OwnerReference)
        ensures
            r == *self,
    {
        OwnerReference {
            api_version: self.api_version.clone(),
            kind: self.kind.clone(),
            name: self.name.clone(),
            uid: self.uid.clone(),
            controller: self.controller,
            block_owner_deletion: self.block_owner_deletion,
        }
    }
}

pub struct ObjectMeta {
    pub name: Option<String>,
    pub namespace: Option<String>,
    pub owner_references: Vec<OwnerReference>,
    pub labels: Vec<(String, String)>,
    pub annotations: Vec<(String, String)>,
}

impl ObjectMeta {
    /// Metadata owned by `owner` alone: its only owner reference is `owner`.
    pub open spec fn owned_by(&self, owner: OwnerReference) -> bool {
        self.owner_references@ == seq![owner]
    }
}

pub struct Secret {
    pub metadata: ObjectMeta,
    pub type_: Option<String>,
    pub data: Vec<(String, Vec<u8>)>,
}

pub struct ConfigMap {
    pub metadata: ObjectMeta,
    pub data: Vec<(String, String)>,
}

pub struct ServicePort {
    pub name: String,
    pub port: i32,
    /// Named target port of the pods.
    pub target_port: String,
    pub protocol: String,
}

pub struct Service {
    pub metadata: ObjectMeta,
    pub type_: String,
    pub cluster_ip: Option<String>,
    pub session_affinity: String,
    pub ports: Vec<ServicePort>,
    pub selector: Vec<(String, String)>,
}

/// Where an environment variable takes its value.
pub enum EnvSource {
    Value(String),
    SecretKey { secret: String, key: String, optional: bool },
    FieldPath(String),
}

pub struct EnvVar {
    pub name: String,
    pub source: EnvSource,
}

pub struct VolumeMount {
    pub name: String,
    pub mount_path: String,
}

pub enum VolumeSource {
    ConfigMap(String),
    Secret { secret_name: String, optional: Option<bool> },
}

pub struct Volume {
    pub name: String,
    pub source: VolumeSource,
}

pub struct ContainerPort {
    pub name: String,
    pub container_port: i32,
    pub protocol: String,
}

pub struct Container {
    pub name: String,
    pub image: String,
    pub command: Vec<String>,
    pub allow_privilege_escalation: bool,
    pub ports: Vec<ContainerPort>,
    pub env: Vec<EnvVar>,
    pub volume_mounts: Vec<VolumeMount>,
}

pub struct PodSecurityContext {
    pub fs_group: i64,
    pub fs_group_change_policy: String,
    pub run_as_group: i64,
    pub run_as_non_root: bool,
    pub run_as_user: i64,
}

pub struct PodSpec {
    pub containers: Vec<Container>,
    pub volumes: Vec<Volume>,
    pub security_context: Option<PodSecurityContext>,
    pub restart_policy: Option<String>,
}

pub struct PodTemplateSpec {
    pub metadata: ObjectMeta,
    pub spec: PodSpec,
}

pub struct PersistentVolumeClaim {
    pub metadata: ObjectMeta,
    pub storage_class_name: String,
    /// Requested storage, a quantity such as `10Gi`.
    pub storage_request: String,
    pub access_modes: Vec<String>,
}

pub struct StatefulSet {
    pub metadata: ObjectMeta,
    pub replicas: i32,
    pub selector: Vec<(String, String)>,
    pub min_ready_seconds: i32,
    pub service_name: String,
    pub template: PodTemplateSpec,
    pub volume_claim_templates: Vec<PersistentVolumeClaim>,
}

pub struct Job {
    pub metadata: ObjectMeta,
    pub template: PodTemplateSpec,
}

/// A one-entry map from `key` to `value`.
pub fn single_pair(key: &str, value: String) -> (r: Vec<(String, String)>)
    ensures
        pairs_view(r@) == seq![(key@, value@)],
{
    let mut r: Vec<(String, String)> = Vec::new();
    r.push((String::from_str(key), value));
    assert(pairs_view(r@) =~= seq![(key@, value@)]);
    r
}

/// A copy of a list of pairs.
pub fn copy_pairs(p: &Vec<(String, String)>) -> (r: Vec<(String, String)>)
    ensures
        r@ == p@,
{
    let mut r: Vec<(String, String)> = Vec::new();
    let mut i: usize = 0;
    while i < p.len()
        invariant
            i <= p.len(),
            r@ =~= p@.take(i as int),
        decreases p.len() - i,
    {
        r.push((p[i].0.clone(), p[i].1.clone()));
        proof {
            assert(p@.take(i as int + 1) =~= p@.take(i as int).push(p@[i as int]));
        }
        i = i + 1;
    }
    proof {
        assert(p@.take(p.len() as int) =~= p@);
    }
    r
}

/// Metadata with a name, a namespace and `owner` as its only owner.
pub fn owned_meta(name: String, namespace: Option<String>, owner: &OwnerReference) -> (r: ObjectMeta)
    ensures
        r.name == Some(name),
        r.namespace == namespace,
        r.owned_by(*owner),
        r.labels@.len() == 0,
        r.annotations@.len() == 0,
{
    ObjectMeta {
        name: Some(name),
        namespace,
        owner_references: single_owner(owner),
        labels: Vec::new(),
        annotations: Vec::new(),
    }
}

/// The owner references of an object owned by `owner` alone.
pub fn single_owner(owner: &OwnerReference) -> (r: Vec<OwnerReference>)
    ensures
        r@ == seq![*owner],
{
    let mut r: Vec<OwnerReference> = Vec::new();
    r.push(owner.duplicate());
    assert(r@ =~= seq![*owner]);
    r
}

pub fn volume_mount(name: &str, path: &str) -> (r: VolumeMount)
    ensures
        r.name@ == name@,
        r.mount_path@ == path@,
{
    VolumeMount { name: String::from_str(name), mount_path: String::from_str(path) }
}

} // verus!
