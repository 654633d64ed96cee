//! The custom resources that the operators read: their specs, statuses,
//! defaults and field validation.

use vstd::prelude::*;
use vstd::string::*;
use vstd::utf8::is_ascii_chars;

verus! {

/// API group of the LRGS resources.
pub const LRGS_GROUP: &'static str = "lrgs.opendcs.org";

/// API group of the OpenDCS database resource.
pub const TSDB_GROUP: &'static str = "tsdb.opendcs.org";

/// An instant as seconds and nanoseconds since the Unix epoch.
#[derive(Clone, Copy, Debug, PartialEq, Eq, Structural)]
pub struct Timestamp {
    pub seconds: i64,
    pub nanos: u32,
}

impl Timestamp {
    pub open spec fn wf(&self) -> bool {
        self.nanos < 1_000_000_000
    }
}

/// How a DDS connection is secured.
#[derive(Clone, Copy, Debug, PartialEq, Eq, Structural)]
pub enum TlsMode {
    NoTls,
    StartTls,
    Tls,
}

/// A DDS server that the LRGS receives from.
pub struct DdsConnectionSpec {
    pub hostname: String,
    pub port: i32,
    pub enabled: Option<bool>,
    pub username: String,
    pub tls_mode: Option<TlsMode>,
}

/// Default DDS port.
pub fn port_default() -> (r: i32)
    ensures
        r == 16003,
{
    16003
}

/// A DRGS that the LRGS receives from.
pub struct DrgsConnectionSpec {
    pub hostname: String,
    pub event_port: u16,
    pub message_port: u16,
    pub enabled: Option<bool>,
    pub event_enabled: Option<bool>,
    pub start_pattern: String,
}

/// Default DRGS event port.
pub fn evt_port_default() -> (r: u16)
    ensures
        r == 17011,
{
    17011
}

/// Default DRGS message port.
pub fn msg_port_default() -> (r: u16)
    ensures
        r == 17010,
{
    17010
}

/// A DdsConnection resource: its name and spec.
pub struct DdsConnection {
    pub name: String,
    pub spec: DdsConnectionSpec,
}

/// A DrgsConnection resource: its name and spec.
pub struct DrgsConnection {
    pub name: String,
    pub spec: DrgsConnectionSpec,
}

/// The desired LRGS cluster.
pub struct LrgsClusterSpec {
    pub replicas: i32,
    pub storage_class: String,
    pub storage_size: String,
    pub archive_length_days: Option<i32>,
}

/// What the LRGS operator last applied.
pub struct LrgsClusterStatus {
    pub checksum: String,
    pub last_updated: Option<Timestamp>,
}

/// An LrgsCluster resource.
pub struct LrgsCluster {
    pub name: String,
    pub namespace: String,
    pub spec: LrgsClusterSpec,
    pub status: Option<LrgsClusterStatus>,
}

/// The desired OpenDCS database schema.
pub struct OpenDcsDatabaseSpec {
    /// Migration image; its tag names the schema version.
    pub schema_version: String,
    /// Secret of the database administrator (jdbcUrl, username, password).
    pub database_secret: String,
    /// Flyway placeholders, in key order; fixed after creation.
    pub placeholders: Vec<(String, String)>,
}

/// Where the schema of an OpenDCS database stands.
#[derive(Clone, Copy, Debug, PartialEq, Eq, Structural)]
pub enum MigrationState {
    /// Schema not yet installed.
    Fresh,
    /// Waiting for applications to shut down.
    PreparingToMigrate,
    /// Applying schema updates.
    Migrating,
    /// Applications can connect again.
    Ready,
    /// Migration failed and needs an operator.
    Failed,
}

/// What the database operator last recorded.
pub struct OpenDcsDatabaseStatus {
    pub applied_schema_version: Option<String>,
    pub state: Option<MigrationState>,
    pub last_updated: Option<Timestamp>,
}

/// An OpenDcsDatabase resource.
pub struct OpenDcsDatabase {
    pub name: String,
    pub namespace: String,
    pub spec: OpenDcsDatabaseSpec,
    pub status: Option<OpenDcsDatabaseStatus>,
}

impl OpenDcsDatabase {
    /// Whether `other` is present and has this resource's name.
    pub fn matches_object(&self, other: Option<&OpenDcsDatabase>) -> (r: bool)
        ensures
            r == (other matches Some(o) && o.name@ == self.name@),
    {
        match other {
            Some(o) => o.name == self.name,
            None => false,
        }
    }
}

/// Nonempty ASCII text.
pub open spec fn nonempty_ascii(s: Seq<char>) -> bool {
    s.len() > 0 && is_ascii_chars(s)
}

pub open spec fn valid_port(p: int) -> bool {
    1 <= p <= 65535
}

fn is_nonempty_ascii(s: &String) -> (r: bool)
    ensures
        r == nonempty_ascii(s@),
{
    s.is_ascii() && s.as_str().unicode_len() > 0
}

impl DdsConnectionSpec {
    pub open spec fn valid(&self) -> bool {
        nonempty_ascii(self.hostname@) && nonempty_ascii(self.username@) && valid_port(
            self.port as int,
        )
    }

    /// Hostname and username are nonempty ASCII and the port is in 1..=65535.
    pub fn is_valid(&self) -> (r: bool)
        ensures
            r == self.valid(),
    {
        is_nonempty_ascii(&self.hostname) && is_nonempty_ascii(&self.username) && 1 <= self.port
            && self.port <= 65535
    }
}

impl DrgsConnectionSpec {
    pub open spec fn valid(&self) -> bool {
        nonempty_ascii(self.hostname@) && nonempty_ascii(self.start_pattern@) && valid_port(
            self.event_port as int,
        ) && valid_port(self.message_port as int)
    }

    /// Hostname and start pattern are nonempty ASCII and both ports are in
    /// 1..=65535.
    pub fn is_valid(&self) -> (r: bool)
        ensures
            r == self.valid(),
    {
        is_nonempty_ascii(&self.hostname) && is_nonempty_ascii(&self.start_pattern) && 1
            <= self.event_port && 1 <= self.message_port
    }
}

impl LrgsClusterSpec {
    pub open spec fn valid(&self) -> bool {
        self.replicas >= 0 && match self.archive_length_days {
            Some(d) => d >= 0,
            None => true,
        }
    }

    /// Replicas and archive length (when given) are not negative.
    pub fn is_valid(&self) -> (r: bool)
        ensures
            r == self.valid(),
    {
        self.replicas >= 0 && match self.archive_length_days {
            Some(d) => d >= 0,
            None => true,
        }
    }
}

pub open spec fn pairs_view(p: Seq<(String, String)>) -> Seq<(Seq<char>, Seq<char>)> {
    p.map_values(|kv: (String, String)| (kv.0@, kv.1@))
}

/// Whether an update of a database spec keeps its placeholders: they may
/// not change once the resource exists.
pub fn placeholders_unchanged(old_spec: &OpenDcsDatabaseSpec, new_spec: &OpenDcsDatabaseSpec) -> (r:
    bool)
    ensures
        r == (pairs_view(old_spec.placeholders@) == pairs_view(new_spec.placeholders@)),
{
    let a = &old_spec.placeholders;
    let b = &new_spec.placeholders;
    if a.len() != b.len() {
        proof {
            assert(pairs_view(a@).len() != pairs_view(b@).len());
        }
        return false;
    }
    let mut i: usize = 0;
    while i < a.len()
        invariant
            a == &old_spec.placeholders,
            b == &new_spec.placeholders,
            a.len() == b.len(),
            i <= a.len(),
            forall|j: int| 0 <= j < i ==> pairs_view(a@)[j] == pairs_view(b@)[j],
        decreases a.len() - i,
    {
        let same_key = a[i].0 == b[i].0;
        let same_value = a[i].1 == b[i].1;
        if !(same_key && same_value) {
            proof {
                assert(pairs_view(a@)[i as int] == (a@[i as int].0@, a@[i as int].1@));
                assert(pairs_view(b@)[i as int] == (b@[i as int].0@, b@[i as int].1@));
                assert(pairs_view(a@)[i as int] != pairs_view(b@)[i as int]);
            }
            return false;
        }
        i = i + 1;
    }
    proof {
        assert(pairs_view(a@) =~= pairs_view(b@));
    }
    true
}

} // verus!
