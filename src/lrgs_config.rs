//! The LRGS configuration secret: password file, DDS- and DRGS-receive
//! documents and the fixed `lrgs.conf`, with the content hash that drives
//! rollouts.

use vstd::prelude::*;
use vstd::string::*;
use vstd::utf8::{decode_utf8, encode_utf8};
use crate::api::{pairs_view, DdsConnection, DrgsConnection, LrgsCluster};
use crate::digest::{hex_text, lemma_hex_text_len, lower_hex, sha256_digest, sha256_of};
use crate::objects::{owned_meta, single_pair, OwnerReference, Secret};
use crate::password_file::{password_file_text, DdsUser, DdsUserView, PasswordFile};
use crate::recv_conf::{create_ddsrecv_conf, create_drgsrecv_conf, dds_recv_text, drgs_recv_text};
use crate::text::{decode_text, is_utf8, split_commas, split_on_commas, utf8_bytes};

verus! {

/// Why a configuration could not be built.
#[derive(Clone, Copy, Debug, PartialEq, Eq, Structural)]
pub enum ConfigError {
    /// A user secret lacks its username or password.
    MissingField,
    /// A user secret holds text that is not UTF-8.
    InvalidText,
    /// The peer lookup failed for a reason other than there being no record.
    PeerLookupFailed,
}

/// The data of a DDS user secret, by key.
pub struct UserSecretData {
    pub username: Option<Vec<u8>>,
    pub password: Option<Vec<u8>>,
    pub roles: Option<Vec<u8>>,
}

pub open spec fn opt_bytes(o: Option<Vec<u8>>) -> Option<Seq<u8>> {
    match o {
        Some(v) => Some(v@),
        None => None,
    }
}

/// What reading a user secret fails with, if it fails: a missing username or
/// password first, then text that is not UTF-8.
pub open spec fn user_secret_error(d: UserSecretData) -> Option<ConfigError> {
    if d.username is None || d.password is None {
        Some(ConfigError::MissingField)
    } else if !is_utf8(d.username->Some_0@) || !is_utf8(d.password->Some_0@) || (
    d.roles is Some && !is_utf8(d.roles->Some_0@)) {
        Some(ConfigError::InvalidText)
    } else {
        None
    }
}

/// The user that a readable secret describes; roles are the comma-separated
/// segments of its `roles`, none when the key is absent or empty.
pub open spec fn secret_user(d: UserSecretData) -> DdsUserView {
    DdsUserView {
        username: decode_utf8(d.username->Some_0@),
        password: decode_utf8(d.password->Some_0@),
        roles: match d.roles {
            Some(r) => if decode_utf8(r@).len() == 0 {
                seq![]
            } else {
                split_commas(decode_utf8(r@))
            },
            None => seq![],
        },
    }
}

/// Reads a DDS user from the data of its secret.
pub fn dds_user_from_secret(d: &UserSecretData) -> (r: Result<DdsUser, ConfigError>)
    ensures
        r is Err <==> user_secret_error(*d) is Some,
        r matches Err(e) ==> Some(e) == user_secret_error(*d),
        r matches Ok(u) ==> u@ == secret_user(*d),
{
    let (ub, pb) = match (&d.username, &d.password) {
        (Some(u), Some(p)) => (u, p),
        _ => {
            return Err(ConfigError::MissingField);
        },
    };
    let username = match decode_text(ub) {
        Some(s) => s,
        None => {
            return Err(ConfigError::InvalidText);
        },
    };
    let password = match decode_text(pb) {
        Some(s) => s,
        None => {
            return Err(ConfigError::InvalidText);
        },
    };
    let roles = match &d.roles {
        Some(rb) => match decode_text(rb) {
            Some(text) => if text.as_str().unicode_len() == 0 {
                Vec::new()
            } else {
                split_on_commas(text.as_str())
            },
            None => {
                return Err(ConfigError::InvalidText);
            },
        },
        None => Vec::new(),
    };
    let u = DdsUser { username, password, roles };
    assert(u@.roles =~= secret_user(*d).roles);
    Ok(u)
}

/// The users of the secrets that hold data, in order.
pub open spec fn secret_users(s: Seq<Option<UserSecretData>>) -> Seq<DdsUserView>
    decreases s.len(),
{
    if s.len() == 0 {
        seq![]
    } else {
        let init = secret_users(s.drop_last());
        match s.last() {
            Some(d) => init.push(secret_user(d)),
            None => init,
        }
    }
}

/// The error of the first secret, holding data, that cannot be read.
pub open spec fn first_secret_error(s: Seq<Option<UserSecretData>>) -> Option<ConfigError>
    decreases s.len(),
{
    if s.len() == 0 {
        None
    } else {
        match first_secret_error(s.drop_last()) {
            Some(e) => Some(e),
            None => match s.last() {
                Some(d) => user_secret_error(d),
                None => None,
            },
        }
    }
}

/// The password file for the DDS user secrets of a namespace; a secret
/// without data is skipped.
pub fn create_password_file(secrets: &Vec<Option<UserSecretData>>) -> (r: Result<String, ConfigError>)
    ensures
        r is Err <==> first_secret_error(secrets@) is Some,
        r matches Err(e) ==> Some(e) == first_secret_error(secrets@),
        r matches Ok(text) ==> text@ == password_file_text(secret_users(secrets@)),
{
    let mut pw_file = PasswordFile::new();
    let mut i: usize = 0;
    while i < secrets.len()
        invariant
            i <= secrets.len(),
            first_secret_error(secrets@.take(i as int)) is None,
            pw_file@ == secret_users(secrets@.take(i as int)),
        decreases secrets.len() - i,
    {
        proof {
            assert(secrets@.take(i as int + 1).drop_last() =~= secrets@.take(i as int));
        }
        match &secrets[i] {
            Some(d) => {
                match dds_user_from_secret(d) {
                    Ok(u) => pw_file.add_user(u),
                    Err(e) => {
                        proof {
                            lemma_first_error_prefix(secrets@, i as int + 1);
                        }
                        return Err(e);
                    },
                }
            },
            None => {},
        }
        i = i + 1;
    }
    proof {
        assert(secrets@.take(secrets.len() as int) =~= secrets@);
    }
    Ok(pw_file.to_string())
}

/// An error in a prefix is the first error of the whole list.
proof fn lemma_first_error_prefix(s: Seq<Option<UserSecretData>>, n: int)
    requires
        0 <= n <= s.len(),
        first_secret_error(s.take(n)) is Some,
    ensures
        first_secret_error(s) == first_secret_error(s.take(n)),
    decreases s.len() - n,
{
    if n < s.len() {
        assert(s.take(n + 1).drop_last() =~= s.take(n));
        lemma_first_error_prefix(s, n + 1);
    } else {
        assert(s.take(n) =~= s);
    }
}

/// The bytes that the content hash covers: password file, DDS-receive
/// document, DRGS-receive document, in that order.
pub open spec fn config_hash_input(pw: Seq<char>, dds: Seq<char>, drgs: Seq<char>) -> Seq<u8> {
    encode_utf8(pw) + encode_utf8(dds) + encode_utf8(drgs)
}

/// The content hash: lower-case hex SHA-256 of the hashed bytes.
pub open spec fn config_hash_text(pw: Seq<char>, dds: Seq<char>, drgs: Seq<char>) -> Seq<char> {
    hex_text(sha256_of(config_hash_input(pw, dds, drgs)), false)
}

/// The content hash of the three configuration documents.
pub fn config_hash(password_file: &str, dds_config: &str, drgs_config: &str) -> (r: String)
    ensures
        r@ == config_hash_text(password_file@, dds_config@, drgs_config@),
        r@.len() == 64,
{
    let mut data: Vec<u8> = Vec::new();
    data.extend_from_slice(password_file.as_bytes());
    data.extend_from_slice(dds_config.as_bytes());
    data.extend_from_slice(drgs_config.as_bytes());
    assert(data@ =~= config_hash_input(password_file@, dds_config@, drgs_config@));
    let digest = sha256_digest(data.as_slice());
    proof {
        lemma_hex_text_len(digest@, false);
    }
    lower_hex(digest.as_slice())
}

/// The fixed LRGS server configuration.
pub const LRGS_CONF: &'static str = "
archiveDir: /archive
enableDdsRecv: true
ddsRecvConfig: /tmp/ddsrecv.conf
enableDrgsRecv: false
drgsRecvConfig: ${LRGSHOME}/drgsconf.xml
htmlStatusSeconds: 10
ddsListenPort: 16003
ddsRequireAuth: true
# this prevents the LRGS from failing to respond if no data is available
noTimeout: true
    ";

/// The configuration secret and the content hash of what it holds.
pub struct LrgsConfig {
    pub secret: Secret,
    pub hash: String,
}

pub open spec fn bytes_pairs_view(p: Seq<(String, Vec<u8>)>) -> Seq<(Seq<char>, Seq<u8>)> {
    p.map_values(|kv: (String, Vec<u8>)| (kv.0@, kv.1@))
}

/// The configuration secret of `cluster` for the three documents: named
/// `<owner>-lrgs-configuration`, owned by `owner_ref`, annotated with the
/// cluster's name, holding the documents and `lrgs.conf`.
pub open spec fn config_secret_matches(
    s: Secret,
    cluster: LrgsCluster,
    owner_ref: OwnerReference,
    pw: Seq<char>,
    dds: Seq<char>,
    drgs: Seq<char>,
) -> bool {
    &&& s.metadata.name matches Some(n) && n@ == owner_ref.name@ + "-lrgs-configuration"@
    &&& s.metadata.namespace matches Some(ns) && ns@ == cluster.namespace@
    &&& s.metadata.owned_by(owner_ref)
    &&& pairs_view(s.metadata.annotations@) == seq![
        ("lrgs.opendcs.org/for-cluster"@, cluster.name@),
    ]
    &&& s.metadata.labels@.len() == 0
    &&& s.type_ is None
    &&& bytes_pairs_view(s.data@) == seq![
        (".lrgs.passwd"@, encode_utf8(pw)),
        ("ddsrecv.conf"@, encode_utf8(dds)),
        ("drgsconf.xml"@, encode_utf8(drgs)),
        ("lrgs.conf"@, encode_utf8(LRGS_CONF@)),
    ]
}

/// Builds the configuration secret from the user secrets, the peer LRGSes
/// and the declared DDS and DRGS connections of the cluster's namespace.
/// Fails only when a user secret cannot be read.
pub fn create_lrgs_config(
    cluster: &LrgsCluster,
    owner_ref: &OwnerReference,
    user_secrets: &Vec<Option<UserSecretData>>,
    peers: &Vec<String>,
    dds_connections: &Vec<DdsConnection>,
    drgs_connections: &Vec<DrgsConnection>,
) -> (r: Result<LrgsConfig, ConfigError>)
    ensures
        r is Err <==> first_secret_error(user_secrets@) is Some,
        r matches Err(e) ==> Some(e) == first_secret_error(user_secrets@),
        r matches Ok(c) ==> {
            let pw = password_file_text(secret_users(user_secrets@));
            let dds = dds_recv_text(peers@.map_values(|p: String| p@), dds_connections@);
            let drgs = drgs_recv_text(drgs_connections@);
            &&& config_secret_matches(c.secret, *cluster, *owner_ref, pw, dds, drgs)
            &&& c.hash@ == config_hash_text(pw, dds, drgs)
            &&& c.hash@.len() == 64
        },
{
    let password_file = match create_password_file(user_secrets) {
        Ok(p) => p,
        Err(e) => {
            return Err(e);
        },
    };
    let dds_config = create_ddsrecv_conf(peers, dds_connections);
    let drgs_config = create_drgsrecv_conf(drgs_connections);
    let hash = config_hash(password_file.as_str(), dds_config.as_str(), drgs_config.as_str());

    let mut data: Vec<(String, Vec<u8>)> = Vec::new();
    data.push((String::from_str(".lrgs.passwd"), utf8_bytes(password_file.as_str())));
    data.push((String::from_str("ddsrecv.conf"), utf8_bytes(dds_config.as_str())));
    data.push((String::from_str("drgsconf.xml"), utf8_bytes(drgs_config.as_str())));
    data.push((String::from_str("lrgs.conf"), utf8_bytes(LRGS_CONF)));

    let name = owner_ref.name.clone().concat("-lrgs-configuration");
    let mut metadata = owned_meta(name, Some(cluster.namespace.clone()), owner_ref);
    metadata.annotations = single_pair("lrgs.opendcs.org/for-cluster", cluster.name.clone());
    let secret = Secret { metadata, type_: None, data };
    proof {
        assert(bytes_pairs_view(secret.data@) =~= seq![
            (".lrgs.passwd"@, encode_utf8(password_file@)),
            ("ddsrecv.conf"@, encode_utf8(dds_config@)),
            ("drgsconf.xml"@, encode_utf8(drgs_config@)),
            ("lrgs.conf"@, encode_utf8(LRGS_CONF@)),
        ]);
    }
    Ok(LrgsConfig { secret, hash })
}

} // verus!
