//! Desired-state builders, configuration documents and reconcile decisions
//! for the LRGS cluster and OpenDCS database operators.

pub mod api;
pub mod digest;
pub mod laws;
pub mod lrgs_config;
pub mod lrgs_objects;
pub mod objects;
pub mod password_file;
pub mod reconcile;
pub mod recv_conf;
pub mod schema;
pub mod telemetry;
pub mod text;
pub mod xml;

pub use api::{
    evt_port_default, msg_port_default, placeholders_unchanged, port_default, DdsConnection,
    DdsConnectionSpec, DrgsConnection, DrgsConnectionSpec, LrgsCluster, LrgsClusterSpec,
    LrgsClusterStatus, MigrationState, OpenDcsDatabase, OpenDcsDatabaseSpec, OpenDcsDatabaseStatus,
    Timestamp, TlsMode, LRGS_GROUP, TSDB_GROUP,
};
pub use lrgs_config::{create_lrgs_config, create_password_file, ConfigError, LrgsConfig, UserSecretData};
pub use lrgs_objects::{create_managed_users, create_service, create_statefulset, created_script_config_map};
pub use password_file::{lrgs_password_hash, to_line, to_line_with_hash, DdsUser, PasswordFile};
pub use recv_conf::{create_ddsrecv_conf, create_drgsrecv_conf};
pub use schema::{create_script_config_map, JobCounters, MigrationJob};
pub use telemetry::{ErrorLabels, MetricLabel, TraceLabel};
