//! Names of the broker-level configuration settings.
use vstd::prelude::*;

verus! {

pub const BROKER_ID_CONFIG: &'static str = "broker.id";
pub const BACKGROUND_THREADS_CONFIG: &'static str = "background.threads";
pub const DELETE_TOPIC_ENABLE_CONFIG: &'static str = "delete.topic.enable";
pub const BROKER_RACK_CONFIG: &'static str = "broker.rack";
pub const CONTROLLED_SHUTDOWN_ENABLE_CONFIG: &'static str = "controlled.shutdown.enable";
pub const UNSTABLE_API_VERSIONS_ENABLE_CONFIG: &'static str = "unstable.api.versions.enable";
pub const UNSTABLE_FEATURE_VERSIONS_ENABLE_CONFIG: &'static str = "unstable.feature.versions.enable";

pub const PROCESS_ROLES_CONFIG: &'static str = "process.roles";
pub const NODE_ID_CONFIG: &'static str = "node.id";
pub const CONTROLLER_LISTENER_NAMES_CONFIG: &'static str = "controller.listener.names";
pub const SERVER_MAX_STARTUP_TIME_MS_CONFIG: &'static str = "server.max.startup.time.ms";

pub const LISTENER_SECURITY_PROTOCOL_MAP_CONFIG: &'static str = "listener.security.protocol.map";
pub const LISTENERS_CONFIG: &'static str = "listeners";
pub const ADVERTISED_LISTENERS_CONFIG: &'static str = "advertised.listeners";
pub const NUM_NETWORK_THREADS_CONFIG: &'static str = "num.network.threads";

pub const CONTROLLER_SOCKET_TIMEOUT_MS_CONFIG: &'static str = "controller.socket.timeout.ms";
pub const DEFAULT_REPLICATION_FACTOR_CONFIG: &'static str = "default.replication.factor";
pub const REPLICA_SOCKET_TIMEOUT_MS_CONFIG: &'static str = "replica.socket.timeout.ms";
pub const INTER_BROKER_SECURITY_PROTOCOL_CONFIG: &'static str = "security.inter.broker.protocol";
pub const INTER_BROKER_LISTENER_NAME_CONFIG: &'static str = "inter.broker.listener.name";
pub const REPLICA_SELECTOR_CLASS_CONFIG: &'static str = "replica.selector.class";

pub const NUM_PARTITIONS_CONFIG: &'static str = "num.partitions";
pub const LOG_DIRS_CONFIG: &'static str = "log.dirs";
pub const LOG_DIR_CONFIG: &'static str = "log.dir";
pub const LOG_DELETE_DELAY_MS_CONFIG: &'static str = "log.segment.delete.delay.ms";
pub const LOG_INITIAL_TASK_DELAY_MS_CONFIG: &'static str = "log.initial.task.delay.ms";

pub const LOG_CLEANER_DEDUPE_BUFFER_SIZE_PROP: &'static str = "log.cleaner.dedupe.buffer.size";

pub const OFFSETS_TOPIC_PARTITIONS_CONFIG: &'static str = "offsets.topic.num.partitions";
pub const OFFSETS_TOPIC_REPLICATION_FACTOR_CONFIG: &'static str = "offsets.topic.replication.factor";
pub const GROUP_INITIAL_REBALANCE_DELAY_MS_CONFIG: &'static str = "group.initial.rebalance.delay.ms";

pub const DELEGATION_TOKEN_SECRET_KEY_CONFIG: &'static str = "delegation.token.secret.key";

pub const NUM_QUOTA_SAMPLES_CONFIG: &'static str = "quota.window.num";
pub const QUOTA_WINDOW_SIZE_SECONDS_CONFIG: &'static str = "quota.window.size.seconds";

} // verus!
