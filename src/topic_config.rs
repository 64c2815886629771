//! Names of the per-topic configuration settings.
use vstd::prelude::*;

verus! {

pub const SEGMENT_BYTES_CONFIG: &'static str = "segment.bytes";
pub const SEGMENT_MS_CONFIG: &'static str = "segment.ms";
pub const SEGMENT_JITTER_MS_CONFIG: &'static str = "segment.jitter.ms";
pub const SEGMENT_INDEX_BYTES_CONFIG: &'static str = "segment.index.bytes";
pub const FLUSH_MESSAGES_INTERVAL_CONFIG: &'static str = "flush.messages";
pub const FLUSH_MS_CONFIG: &'static str = "flush.ms";
pub const RETENTION_BYTES_CONFIG: &'static str = "retention.bytes";
pub const RETENTION_MS_CONFIG: &'static str = "retention.ms";
pub const MAX_MESSAGE_BYTES_CONFIG: &'static str = "max.message.bytes";
pub const INDEX_INTERVAL_BYTES_CONFIG: &'static str = "index.interval.bytes";
pub const DELETE_RETENTION_MS_CONFIG: &'static str = "delete.retention.ms";
pub const MIN_COMPACTION_LAG_MS_CONFIG: &'static str = "min.compaction.lag.ms";
pub const MAX_COMPACTION_LAG_MS_CONFIG: &'static str = "max.compaction.lag.ms";
pub const FILE_DELETE_DELAY_MS_CONFIG: &'static str = "file.delete.delay.ms";
pub const MIN_CLEANABLE_DIRTY_RATIO_CONFIG: &'static str = "min.cleanable.dirty.ratio";
pub const CLEANUP_POLICY_CONFIG: &'static str = "cleanup.policy";
pub const UNCLEAN_LEADER_ELECTION_ENABLE_CONFIG: &'static str = "unclean.leader.election.enable";
pub const MIN_IN_SYNC_REPLICAS_CONFIG: &'static str = "min.insync.replicas";
pub const COMPRESSION_TYPE_CONFIG: &'static str = "compression.type";
pub const COMPRESSION_GZIP_LEVEL_CONFIG: &'static str = "compression.gzip.level";
pub const COMPRESSION_LZ4_LEVEL_CONFIG: &'static str = "compression.lz4.level";
pub const COMPRESSION_ZSTD_LEVEL_CONFIG: &'static str = "compression.zstd.level";
pub const PREALLOCATE_CONFIG: &'static str = "preallocate";
pub const MESSAGE_TIMESTAMP_TYPE_CONFIG: &'static str = "message.timestamp.type";
pub const MESSAGE_TIMESTAMP_BEFORE_MAX_MS_CONFIG: &'static str = "message.timestamp.before.max.ms";
pub const MESSAGE_TIMESTAMP_AFTER_MAX_MS_CONFIG: &'static str = "message.timestamp.after.max.ms";
pub const LOCAL_LOG_RETENTION_MS_CONFIG: &'static str = "local.retention.ms";
pub const LOCAL_LOG_RETENTION_BYTES_CONFIG: &'static str = "local.retention.bytes";

} // verus!
