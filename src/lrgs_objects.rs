//! The other children of an LrgsCluster: managed user secrets, the script
//! config map, the two services and the stateful set.

use passwords::PasswordGenerator;
use vstd::prelude::*;
use vstd::string::*;
use vstd::utf8::{decode_utf8, encode_utf8, encode_utf8_decode_utf8};
use crate::api::{pairs_view, LrgsCluster};
use crate::digest::{hex_text, sha256_hex, sha256_of};
use crate::objects::{
    copy_pairs, owned_meta, single_owner, single_pair, volume_mount, ConfigMap, Container, ContainerPort,
    EnvSource, EnvVar, ObjectMeta, OwnerReference, PersistentVolumeClaim, PodSecurityContext,
    PodSpec, PodTemplateSpec, Secret, Service, ServicePort, StatefulSet, Volume, VolumeMount,
    VolumeSource,
};
use crate::text::utf8_bytes;

verus! {

pub open spec fn is_ascii_alnum(c: char) -> bool {
    ('0' <= c && c <= '9') || ('a' <= c && c <= 'z') || ('A' <= c && c <= 'Z')
}

/// `length` ASCII letters and digits, with at least one digit, one
/// lower-case and one upper-case letter.
pub open spec fn strong_password(p: Seq<char>, length: nat) -> bool {
    &&& p.len() == length
    &&& forall|i: int| 0 <= i < p.len() ==> is_ascii_alnum(#[trigger] p[i])
    &&& exists|i: int| 0 <= i < p.len() && '0' <= #[trigger] p[i] && p[i] <= '9'
    &&& exists|i: int| 0 <= i < p.len() && 'a' <= #[trigger] p[i] && p[i] <= 'z'
    &&& exists|i: int| 0 <= i < p.len() && 'A' <= #[trigger] p[i] && p[i] <= 'Z'
}

/// Relies on passwords::PasswordGenerator::generate_one with digits, lower-
/// and upper-case letters, no symbols or spaces, strict: with a length of at
/// least three it succeeds, and it draws until each of the three kinds occurs.
#[verifier::external_body]
pub(crate) fn alphanumeric_password(length: usize) -> (r: String)
    requires
        length >= 3,
    ensures
        strong_password(r@, length as nat),
{
    PasswordGenerator::new().length(length).numbers(true).lowercase_letters(true)
        .uppercase_letters(true).symbols(false).spaces(false).exclude_similar_characters(false)
        .strict(true).generate_one().unwrap()
}

/// Length of generated passwords.
pub const PASSWORD_LENGTH: usize = 64;

/// The users that every LRGS cluster has.
pub open spec fn required_users() -> Seq<Seq<char>> {
    seq!["lrgsadmin"@, "replication"@, "routing-user"@]
}

/// The roles of a managed user.
pub open spec fn managed_user_roles(user: Seq<char>) -> Seq<char> {
    if user == "lrgsadmin"@ {
        "dds,lrgsadmin"@
    } else if user == "replication"@ || user == "routing-user"@ {
        "dds"@
    } else {
        seq![]
    }
}

/// The required users whose secret does not exist yet, in order.
pub open spec fn missing_users(existing: Seq<Seq<char>>) -> Seq<Seq<char>> {
    required_users().filter(absent_from(existing))
}

/// Holds of the names that are not in `existing`.
pub open spec fn absent_from(existing: Seq<Seq<char>>) -> spec_fn(Seq<char>) -> bool {
    |u: Seq<char>| !existing.contains(u)
}

/// The password that a managed user secret holds.
pub open spec fn secret_password(s: Secret) -> Seq<char> {
    decode_utf8(s.data@[1].1@)
}

/// The secret of managed user `user` with password `password`.
pub open spec fn managed_secret_matches(
    s: Secret,
    user: Seq<char>,
    password: Seq<char>,
    cluster: LrgsCluster,
    owner_ref: OwnerReference,
) -> bool {
    &&& s.metadata.name matches Some(n) && n@ == user
    &&& s.metadata.namespace matches Some(ns) && ns@ == cluster.namespace@
    &&& s.metadata.owned_by(owner_ref)
    &&& pairs_view(s.metadata.annotations@) == seq![
        ("lrgs.opendcs.org/for-cluster"@, cluster.name@),
    ]
    &&& s.metadata.labels@.len() == 0
    &&& s.type_ matches Some(t) && t@ == "lrgs.opendcs.org/ddsuser"@
    &&& s.data@.map_values(|kv: (String, Vec<u8>)| (kv.0@, kv.1@)) == seq![
        ("username"@, encode_utf8(user)),
        ("password"@, encode_utf8(password)),
        ("roles"@, encode_utf8(managed_user_roles(user))),
    ]
}

/// The secret of managed user `user`, with the password it is given.
pub fn managed_user_secret(
    user: &str,
    password: &str,
    cluster: &LrgsCluster,
    owner_ref: &OwnerReference,
) -> (r: Secret)
    ensures
        managed_secret_matches(r, user@, password@, *cluster, *owner_ref),
{
    proof {
        reveal_strlit("lrgsadmin");
        reveal_strlit("replication");
        reveal_strlit("routing-user");
    }
    let name = String::from_str(user);
    let roles: &str = if name == String::from_str("lrgsadmin") {
        "dds,lrgsadmin"
    } else if name == String::from_str("replication") || name == String::from_str("routing-user") {
        "dds"
    } else {
        ""
    };
    proof {
        reveal_strlit("");
    }
    let mut data: Vec<(String, Vec<u8>)> = Vec::new();
    data.push((String::from_str("username"), utf8_bytes(user)));
    data.push((String::from_str("password"), utf8_bytes(password)));
    data.push((String::from_str("roles"), utf8_bytes(roles)));
    let mut metadata = owned_meta(String::from_str(user), Some(cluster.namespace.clone()), owner_ref);
    metadata.annotations = single_pair("lrgs.opendcs.org/for-cluster", cluster.name.clone());
    let r = Secret {
        metadata,
        type_: Some(String::from_str("lrgs.opendcs.org/ddsuser")),
        data,
    };
    assert(r.data@.map_values(|kv: (String, Vec<u8>)| (kv.0@, kv.1@)) =~= seq![
        ("username"@, encode_utf8(user@)),
        ("password"@, encode_utf8(password@)),
        ("roles"@, encode_utf8(managed_user_roles(user@))),
    ]);
    r
}

fn contains_name(names: &Vec<String>, name: &str) -> (r: bool)
    ensures
        r == names@.map_values(|s: String| s@).contains(name@),
{
    let ghost v = names@.map_values(|s: String| s@);
    let target = String::from_str(name);
    let mut i: usize = 0;
    while i < names.len()
        invariant
            i <= names.len(),
            v == names@.map_values(|s: String| s@),
            target@ == name@,
            forall|j: int| 0 <= j < i ==> v[j] != name@,
        decreases names.len() - i,
    {
        if names[i] == target {
            assert(v[i as int] == name@);
            return true;
        }
        i = i + 1;
    }
    false
}

/// `secrets` are those of the missing managed users, in order, each with a
/// strong password, and none of them is named as an existing secret.
pub open spec fn managed_users_match(
    secrets: Seq<Secret>,
    cluster: LrgsCluster,
    owner_ref: OwnerReference,
    existing: Seq<Seq<char>>,
) -> bool {
    &&& secrets.len() == missing_users(existing).len()
    &&& forall|i: int|
        0 <= i < secrets.len() ==> strong_password(
            secret_password(#[trigger] secrets[i]),
            PASSWORD_LENGTH as nat,
        ) && managed_secret_matches(
            secrets[i],
            missing_users(existing)[i],
            secret_password(secrets[i]),
            cluster,
            owner_ref,
        )
    &&& forall|i: int|
        0 <= i < secrets.len() ==> !existing.contains((#[trigger] secrets[i]).metadata.name->Some_0@)
}

/// A secret for each managed user whose secret is not among `existing`
/// (names of the secrets present), in the order lrgsadmin, replication,
/// routing-user, each with a fresh password. Users that already have a
/// secret get none, so their password is never replaced.
pub fn create_managed_users(
    cluster: &LrgsCluster,
    owner_ref: &OwnerReference,
    existing: &Vec<String>,
) -> (r: Vec<Secret>)
    ensures
        managed_users_match(r@, *cluster, *owner_ref, existing@.map_values(|s: String| s@)),
{
    let ghost ex = existing@.map_values(|s: String| s@);
    let required: [&str; 3] = ["lrgsadmin", "replication", "routing-user"];
    let ghost req = required@.map_values(|s: &str| s@);
    assert(req =~= required_users());
    let mut out: Vec<Secret> = Vec::new();
    let ghost mut passwords: Seq<Seq<char>> = seq![];
    let mut k: usize = 0;
    while k < 3
        invariant
            k <= 3,
            ex == existing@.map_values(|s: String| s@),
            req == required@.map_values(|s: &str| s@),
            req == required_users(),
            out@.len() == req.take(k as int).filter(absent_from(ex)).len(),
            passwords.len() == out@.len(),
            forall|i: int|
                0 <= i < passwords.len() ==> strong_password(
                    #[trigger] passwords[i],
                    PASSWORD_LENGTH as nat,
                ),
            forall|i: int|
                0 <= i < out@.len() ==> managed_secret_matches(
                    #[trigger] out@[i],
                    req.take(k as int).filter(absent_from(ex))[i],
                    passwords[i],
                    *cluster,
                    *owner_ref,
                ),
        decreases 3 - k,
    {
        let user = required[k];
        let ghost before = req.take(k as int).filter(absent_from(ex));
        proof {
            assert(req.take(k as int + 1).drop_last() =~= req.take(k as int));
            assert(req.take(k as int + 1).last() == user@);
            reveal(Seq::filter);
        }
        if !contains_name(existing, user) {
            let password = alphanumeric_password(PASSWORD_LENGTH);
            assert(strong_password(password@, PASSWORD_LENGTH as nat));
            let s = managed_user_secret(user, password.as_str(), cluster, owner_ref);
            let ghost old_out = out@;
            let ghost old_pw = passwords;
            out.push(s);
            proof {
                passwords = passwords.push(password@);
                let after = req.take(k as int + 1).filter(absent_from(ex));
                assert(after == before.push(user@));
                assert forall|i: int| 0 <= i < passwords.len() implies strong_password(
                    #[trigger] passwords[i],
                    PASSWORD_LENGTH as nat,
                ) by {
                    if i < old_pw.len() {
                        assert(passwords[i] == old_pw[i]);
                    }
                }
                assert forall|i: int| 0 <= i < out@.len() implies managed_secret_matches(
                    #[trigger] out@[i],
                    after[i],
                    passwords[i],
                    *cluster,
                    *owner_ref,
                ) by {
                    if i < old_out.len() {
                        assert(out@[i] == old_out[i]);
                        assert(after[i] == before[i]);
                        assert(passwords[i] == old_pw[i]);
                    } else {
                        assert(out@[i] == s);
                        assert(after[i] == user@);
                        assert(passwords[i] == password@);
                    }
                }
            }
        } else {
            proof {
                let after = req.take(k as int + 1).filter(absent_from(ex));
                assert(after == before);
            }
        }
        k = k + 1;
    }
    proof {
        assert(req.take(3) =~= req);
        let m = missing_users(ex);
        assert(m == req.take(3).filter(absent_from(ex)));
        broadcast use vstd::seq_lib::group_filter_ensures;
        assert forall|i: int| 0 <= i < out@.len() implies strong_password(
            secret_password(#[trigger] out@[i]),
            PASSWORD_LENGTH as nat,
        ) && managed_secret_matches(
            out@[i],
            missing_users(existing@.map_values(|s: String| s@))[i],
            secret_password(out@[i]),
            *cluster,
            *owner_ref,
        ) by {
            let w = passwords[i];
            assert(managed_secret_matches(out@[i], m[i], w, *cluster, *owner_ref));
            assert(out@[i].data@.map_values(|kv: (String, Vec<u8>)| (kv.0@, kv.1@))[1]
                == ("password"@, encode_utf8(w)));
            let d = out@[i].data@;
            assert(d.map_values(|kv: (String, Vec<u8>)| (kv.0@, kv.1@)).len() == 3);
            assert(d.len() == 3);
            assert(d.map_values(|kv: (String, Vec<u8>)| (kv.0@, kv.1@))[1] == (d[1].0@, d[1].1@));
            assert(out@[i].data@[1].1@ == encode_utf8(w));
            encode_utf8_decode_utf8(w);
            assert(secret_password(out@[i]) == w);
        }
        assert forall|i: int| 0 <= i < out@.len() implies !ex.contains(
            (#[trigger] out@[i]).metadata.name->Some_0@,
        ) by {
            assert(out@[i].metadata.name->Some_0@ == m[i]);
        }
    }
    out
}


/// The script config map of a cluster, named `<owner>-lrgs-scripts`,
/// labelled with the owner's name, holding `script` under `lrgs.sh`.
pub open spec fn script_config_map_matches(
    c: ConfigMap,
    namespace: Seq<char>,
    owner_ref: OwnerReference,
    script: Seq<char>,
) -> bool {
    &&& c.metadata.name matches Some(n) && n@ == owner_ref.name@ + "-lrgs-scripts"@
    &&& c.metadata.namespace matches Some(ns) && ns@ == namespace
    &&& c.metadata.owned_by(owner_ref)
    &&& pairs_view(c.metadata.labels@) == seq![
        ("lrgs.opendcs.org/for-cluster"@, owner_ref.name@),
    ]
    &&& c.metadata.annotations@.len() == 0
    &&& pairs_view(c.data@) == seq![("lrgs.sh"@, script)]
}

/// The script config map and the lower-case hex SHA-256 of the script,
/// which rolls the stateful set when the script changes.
pub fn created_script_config_map(namespace: String, owner_ref: &OwnerReference, script: &str) -> (r: (
    ConfigMap,
    String,
))
    ensures
        script_config_map_matches(r.0, namespace@, *owner_ref, script@),
        r.1@ == hex_text(sha256_of(encode_utf8(script@)), false),
        r.1@.len() == 64,
{
    let bytes = utf8_bytes(script);
    let hash = sha256_hex(bytes.as_slice());
    let name = owner_ref.name.clone().concat("-lrgs-scripts");
    let mut metadata = owned_meta(name, Some(namespace), owner_ref);
    metadata.labels = single_pair("lrgs.opendcs.org/for-cluster", owner_ref.name.clone());
    let data = single_pair("lrgs.sh", String::from_str(script));
    (ConfigMap { metadata, data }, hash)
}

/// The selector and pod labels of the LRGS workload.
pub open spec fn lrgs_labels() -> Seq<(Seq<char>, Seq<char>)> {
    seq![("app.kubernetes.io/name"@, "lrgs"@)]
}

/// Port on which the LRGS serves DDS.
pub const DDS_PORT: i32 = 16003;

/// A service of the cluster: client-IP affinity, one TCP port `dds` 16003
/// to the pods' `dds` port, selecting the LRGS pods; a headless one has
/// cluster IP `None`.
pub open spec fn service_matches(
    s: Service,
    name: Seq<char>,
    headless: bool,
    cluster: LrgsCluster,
    owner_ref: OwnerReference,
) -> bool {
    &&& s.metadata.name matches Some(n) && n@ == name
    &&& s.metadata.namespace matches Some(ns) && ns@ == cluster.namespace@
    &&& s.metadata.owned_by(owner_ref)
    &&& s.metadata.labels@.len() == 0
    &&& s.metadata.annotations@.len() == 0
    &&& s.type_@ == "ClusterIP"@
    &&& if headless {
        s.cluster_ip matches Some(ip) && ip@ == "None"@
    } else {
        s.cluster_ip is None
    }
    &&& s.session_affinity@ == "ClientIP"@
    &&& s.ports@.len() == 1
    &&& s.ports@[0].name@ == "dds"@
    &&& s.ports@[0].port == DDS_PORT
    &&& s.ports@[0].target_port@ == "dds"@
    &&& s.ports@[0].protocol@ == "TCP"@
    &&& pairs_view(s.selector@) == lrgs_labels()
}

fn lrgs_selector() -> (r: Vec<(String, String)>)
    ensures
        pairs_view(r@) == lrgs_labels(),
{
    single_pair("app.kubernetes.io/name", String::from_str("lrgs"))
}

fn dds_service(name: String, headless: bool, cluster: &LrgsCluster, owner_ref: &OwnerReference) -> (r:
    Service)
    ensures
        service_matches(r, name@, headless, *cluster, *owner_ref),
{
    let mut ports: Vec<ServicePort> = Vec::new();
    ports.push(
        ServicePort {
            name: String::from_str("dds"),
            port: DDS_PORT,
            target_port: String::from_str("dds"),
            protocol: String::from_str("TCP"),
        },
    );
    let cluster_ip = if headless {
        Some(String::from_str("None"))
    } else {
        None
    };
    Service {
        metadata: owned_meta(name, Some(cluster.namespace.clone()), owner_ref),
        type_: String::from_str("ClusterIP"),
        cluster_ip,
        session_affinity: String::from_str("ClientIP"),
        ports,
        selector: lrgs_selector(),
    }
}

/// The two services of a cluster: `<cluster>-lrgs-service` and its headless
/// counterpart `<cluster>-lrgs-service-headless`.
pub fn create_service(cluster: &LrgsCluster, owner_ref: &OwnerReference) -> (r: Vec<Service>)
    ensures
        r@.len() == 2,
        service_matches(r@[0], cluster.name@ + "-lrgs-service"@, false, *cluster, *owner_ref),
        service_matches(
            r@[1],
            cluster.name@ + "-lrgs-service-headless"@,
            true,
            *cluster,
            *owner_ref,
        ),
{
    let mut r: Vec<Service> = Vec::new();
    r.push(dds_service(cluster.name.clone().concat("-lrgs-service"), false, cluster, owner_ref));
    r.push(
        dds_service(cluster.name.clone().concat("-lrgs-service-headless"), true, cluster, owner_ref),
    );
    r
}

/// The annotations that roll the workload: the configuration hash and the
/// script hash.
pub open spec fn rollout_annotations(config_hash: Seq<char>, script_hash: Seq<char>) -> Seq<
    (Seq<char>, Seq<char>),
> {
    seq![
        ("lrgs.opendcs.org/lrgs-config-hash"@, config_hash),
        ("lrgs.opendcs.org/lrgs-script-hash"@, script_hash),
    ]
}

pub open spec fn strings_view(v: Seq<String>) -> Seq<Seq<char>> {
    v.map_values(|s: String| s@)
}

/// The LRGS pod: one unprivileged container running the start script on
/// `lrgs.conf`, port `dds` 16003/TCP, `LRGS_INDEX` from the pod-index label,
/// the archive claim, the script config map and the configuration secret
/// mounted; user, group and file-system group 1000, never root.
pub open spec fn pod_template_matches(
    t: PodTemplateSpec,
    owner_ref: OwnerReference,
    config_hash: Seq<char>,
    script_hash: Seq<char>,
) -> bool {
    &&& pairs_view(t.metadata.annotations@) == rollout_annotations(config_hash, script_hash)
    &&& pod_body_matches(t, owner_ref)
}

/// Everything of the LRGS pod template but its annotations.
pub open spec fn pod_body_matches(t: PodTemplateSpec, owner_ref: OwnerReference) -> bool {
    &&& t.metadata.name is None
    &&& t.metadata.namespace is None
    &&& t.metadata.owned_by(owner_ref)
    &&& pairs_view(t.metadata.labels@) == lrgs_labels()
    &&& t.spec.containers@.len() == 1
    &&& {
        let c = t.spec.containers@[0];
        &&& c.name@ == "lrgs"@
        &&& c.image@ == "ghcr.io/opendcs/lrgs:7.0.15-RC03"@
        &&& strings_view(c.command@) == seq![
            "/bin/bash"@,
            "/scripts/lrgs.sh"@,
            "-f"@,
            "/config/lrgs.conf"@,
        ]
        &&& !c.allow_privilege_escalation
        &&& c.ports@.len() == 1
        &&& c.ports@[0].name@ == "dds"@
        &&& c.ports@[0].container_port == DDS_PORT
        &&& c.ports@[0].protocol@ == "TCP"@
        &&& c.env@.len() == 1
        &&& c.env@[0].name@ == "LRGS_INDEX"@
        &&& c.env@[0].source matches EnvSource::FieldPath(p) && p@
            == "metadata.labels['apps.kubernetes.io/pod-index']"@
        &&& c.volume_mounts@.map_values(|m: VolumeMount| (m.name@, m.mount_path@)) == seq![
            ("archive"@, "/archive"@),
            ("lrgs-scripts"@, "/scripts"@),
            ("lrgs-config"@, "/config"@),
        ]
    }
    &&& t.spec.volumes@.len() == 2
    &&& t.spec.volumes@[0].name@ == "lrgs-scripts"@
    &&& t.spec.volumes@[0].source matches VolumeSource::ConfigMap(n) && n@ == owner_ref.name@
        + "-lrgs-scripts"@
    &&& t.spec.volumes@[1].name@ == "lrgs-config"@
    &&& t.spec.volumes@[1].source matches VolumeSource::Secret { secret_name, optional }
        && secret_name@ == owner_ref.name@ + "-lrgs-configuration"@ && optional is None
    &&& t.spec.security_context matches Some(sc) && sc.fs_group == 1000 && sc.run_as_user == 1000
        && sc.run_as_group == 1000 && sc.run_as_non_root && sc.fs_group_change_policy@
        == "OnRootMismatch"@
    &&& t.spec.restart_policy is None
}

fn string_list4(a: &str, b: &str, c: &str, d: &str) -> (r: Vec<String>)
    ensures
        strings_view(r@) == seq![a@, b@, c@, d@],
{
    let mut r: Vec<String> = Vec::new();
    r.push(String::from_str(a));
    r.push(String::from_str(b));
    r.push(String::from_str(c));
    r.push(String::from_str(d));
    assert(strings_view(r@) =~= seq![a@, b@, c@, d@]);
    r
}

fn pod_spec_template(
    owner_ref: &OwnerReference,
    labels: &Vec<(String, String)>,
    annotations: &Vec<(String, String)>,
) -> (r: PodTemplateSpec)
    requires
        pairs_view(labels@) == lrgs_labels(),
    ensures
        pod_body_matches(r, *owner_ref),
        r.metadata.annotations@ == annotations@,
{
    let mut ports: Vec<ContainerPort> = Vec::new();
    ports.push(
        ContainerPort {
            name: String::from_str("dds"),
            container_port: DDS_PORT,
            protocol: String::from_str("TCP"),
        },
    );
    let mut env: Vec<EnvVar> = Vec::new();
    env.push(
        EnvVar {
            name: String::from_str("LRGS_INDEX"),
            source: EnvSource::FieldPath(
                String::from_str("metadata.labels['apps.kubernetes.io/pod-index']"),
            ),
        },
    );
    let mut mounts: Vec<VolumeMount> = Vec::new();
    mounts.push(volume_mount("archive", "/archive"));
    mounts.push(volume_mount("lrgs-scripts", "/scripts"));
    mounts.push(volume_mount("lrgs-config", "/config"));
    let container = Container {
        name: String::from_str("lrgs"),
        image: String::from_str("ghcr.io/opendcs/lrgs:7.0.15-RC03"),
        command: string_list4("/bin/bash", "/scripts/lrgs.sh", "-f", "/config/lrgs.conf"),
        allow_privilege_escalation: false,
        ports,
        env,
        volume_mounts: mounts,
    };
    let mut containers: Vec<Container> = Vec::new();
    containers.push(container);
    let mut volumes: Vec<Volume> = Vec::new();
    volumes.push(
        Volume {
            name: String::from_str("lrgs-scripts"),
            source: VolumeSource::ConfigMap(owner_ref.name.clone().concat("-lrgs-scripts")),
        },
    );
    volumes.push(
        Volume {
            name: String::from_str("lrgs-config"),
            source: VolumeSource::Secret {
                secret_name: owner_ref.name.clone().concat("-lrgs-configuration"),
                optional: None,
            },
        },
    );
    let security_context = PodSecurityContext {
        fs_group: 1000,
        fs_group_change_policy: String::from_str("OnRootMismatch"),
        run_as_group: 1000,
        run_as_non_root: true,
        run_as_user: 1000,
    };
    let metadata = ObjectMeta {
        name: None,
        namespace: None,
        owner_references: single_owner(owner_ref),
        labels: copy_pairs(labels),
        annotations: copy_pairs(annotations),
    };
    let r = PodTemplateSpec {
        metadata,
        spec: PodSpec {
            containers,
            volumes,
            security_context: Some(security_context),
            restart_policy: None,
        },
    };
    assert(r.spec.containers@[0].volume_mounts@.map_values(|m: VolumeMount| (m.name@, m.mount_path@))
        =~= seq![("archive"@, "/archive"@), ("lrgs-scripts"@, "/scripts"@), ("lrgs-config"@, "/config"@)]);
    r
}


/// The archive claim template: `ReadWriteOnce`, the cluster's storage class
/// and size.
pub open spec fn claim_matches(
    c: PersistentVolumeClaim,
    cluster: LrgsCluster,
    owner_ref: OwnerReference,
) -> bool {
    &&& c.metadata.name matches Some(n) && n@ == "archive"@
    &&& c.metadata.namespace matches Some(ns) && ns@ == cluster.namespace@
    &&& c.metadata.owned_by(owner_ref)
    &&& c.storage_class_name@ == cluster.spec.storage_class@
    &&& c.storage_request@ == cluster.spec.storage_size@
    &&& strings_view(c.access_modes@) == seq!["ReadWriteOnce"@]
}

fn claim_templates(cluster: &LrgsCluster, owner_ref: &OwnerReference) -> (r: Vec<
    PersistentVolumeClaim,
>)
    ensures
        r@.len() == 1,
        claim_matches(r@[0], *cluster, *owner_ref),
{
    let mut access_modes: Vec<String> = Vec::new();
    access_modes.push(String::from_str("ReadWriteOnce"));
    assert(strings_view(access_modes@) =~= seq!["ReadWriteOnce"@]);
    let claim = PersistentVolumeClaim {
        metadata: owned_meta(String::from_str("archive"), Some(cluster.namespace.clone()), owner_ref),
        storage_class_name: cluster.spec.storage_class.clone(),
        storage_request: cluster.spec.storage_size.clone(),
        access_modes,
    };
    let mut r: Vec<PersistentVolumeClaim> = Vec::new();
    r.push(claim);
    r
}

/// The LRGS stateful set of `cluster`.
pub open spec fn statefulset_matches(
    s: StatefulSet,
    cluster: LrgsCluster,
    owner_ref: OwnerReference,
    config_hash: Seq<char>,
    script_hash: Seq<char>,
) -> bool {
    &&& s.metadata.name matches Some(n) && n@ == cluster.name@ + "-lrgs"@
    &&& s.metadata.namespace matches Some(ns) && ns@ == cluster.namespace@
    &&& s.metadata.owned_by(owner_ref)
    &&& pairs_view(s.metadata.labels@) == lrgs_labels()
    &&& pairs_view(s.metadata.annotations@) == rollout_annotations(config_hash, script_hash)
    &&& s.replicas == cluster.spec.replicas
    &&& pairs_view(s.selector@) == lrgs_labels()
    &&& s.min_ready_seconds == 10
    &&& s.service_name@ == "lrgs"@
    &&& pod_template_matches(s.template, owner_ref, config_hash, script_hash)
    &&& s.volume_claim_templates@.len() == 1
    &&& claim_matches(s.volume_claim_templates@[0], cluster, owner_ref)
}

/// The stateful set that runs the LRGS pods; its annotations and its pod
/// template's carry the two hashes, so a change of either rolls the pods.
pub fn create_statefulset(
    cluster: &LrgsCluster,
    owner_ref: &OwnerReference,
    config_hash: String,
    script_hash: String,
) -> (r: StatefulSet)
    ensures
        statefulset_matches(r, *cluster, *owner_ref, config_hash@, script_hash@),
{
    let labels = lrgs_selector();
    let mut annotations: Vec<(String, String)> = Vec::new();
    annotations.push((String::from_str("lrgs.opendcs.org/lrgs-config-hash"), config_hash));
    annotations.push((String::from_str("lrgs.opendcs.org/lrgs-script-hash"), script_hash));
    assert(pairs_view(annotations@) =~= rollout_annotations(config_hash@, script_hash@));
    let template = pod_spec_template(owner_ref, &labels, &annotations);
    let claims = claim_templates(cluster, owner_ref);
    let mut metadata = owned_meta(
        cluster.name.clone().concat("-lrgs"),
        Some(cluster.namespace.clone()),
        owner_ref,
    );
    metadata.labels = copy_pairs(&labels);
    metadata.annotations = annotations;
    StatefulSet {
        metadata,
        replicas: cluster.spec.replicas,
        selector: labels,
        min_ready_seconds: 10,
        service_name: String::from_str("lrgs"),
        template,
        volume_claim_templates: claims,
    }
}

} // verus!
