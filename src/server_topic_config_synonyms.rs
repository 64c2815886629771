//! Maps each topic setting to its server-level synonyms, in priority order:
//! when resolving a setting, the first synonym present in the server's
//! configuration wins.
use vstd::prelude::*;
use vstd::string::StringExecFns;

use crate::config_synonym::{ConfigSynonym, Converter};
use crate::text::str_eq;
use crate::topic_config::{
    SEGMENT_BYTES_CONFIG, SEGMENT_MS_CONFIG, SEGMENT_JITTER_MS_CONFIG,
    SEGMENT_INDEX_BYTES_CONFIG, FLUSH_MESSAGES_INTERVAL_CONFIG, FLUSH_MS_CONFIG,
    RETENTION_BYTES_CONFIG, RETENTION_MS_CONFIG, MAX_MESSAGE_BYTES_CONFIG,
    INDEX_INTERVAL_BYTES_CONFIG, DELETE_RETENTION_MS_CONFIG, MIN_COMPACTION_LAG_MS_CONFIG,
    MAX_COMPACTION_LAG_MS_CONFIG, FILE_DELETE_DELAY_MS_CONFIG, MIN_CLEANABLE_DIRTY_RATIO_CONFIG,
    CLEANUP_POLICY_CONFIG, UNCLEAN_LEADER_ELECTION_ENABLE_CONFIG, MIN_IN_SYNC_REPLICAS_CONFIG,
    COMPRESSION_TYPE_CONFIG, COMPRESSION_GZIP_LEVEL_CONFIG, COMPRESSION_LZ4_LEVEL_CONFIG,
    COMPRESSION_ZSTD_LEVEL_CONFIG, PREALLOCATE_CONFIG, MESSAGE_TIMESTAMP_TYPE_CONFIG,
    MESSAGE_TIMESTAMP_BEFORE_MAX_MS_CONFIG, MESSAGE_TIMESTAMP_AFTER_MAX_MS_CONFIG,
    LOCAL_LOG_RETENTION_MS_CONFIG, LOCAL_LOG_RETENTION_BYTES_CONFIG,
};

verus! {

pub const LOG_PREFIX: &'static str = "log.";

pub const LOG_CLEANER_PREFIX: &'static str = "log.cleaner.";

/// A topic setting and its server-level synonyms, highest priority first.
pub type ConfigEntry = (String, Vec<ConfigSynonym>);

/// `suffix` under the log prefix.
pub fn log_prefix(suffix: &str) -> (r: String)
    ensures
        r@ == LOG_PREFIX@ + suffix@,
{
    String::from_str(LOG_PREFIX).concat(suffix)
}

/// `suffix` under the log cleaner prefix.
pub fn log_cleaner_prefix(suffix: &str) -> (r: String)
    ensures
        r@ == LOG_CLEANER_PREFIX@ + suffix@,
{
    String::from_str(LOG_CLEANER_PREFIX).concat(suffix)
}

/// `e` is the entry of topic setting `key`, whose first synonym is `first`.
pub open spec fn entry_for(e: ConfigEntry, key: Seq<char>, first: Seq<char>) -> bool {
    &&& e.0@ == key
    &&& e.1@.len() >= 1
    &&& e.1@[0].spec_name() == first
}

/// An entry with one synonym, `synonym`, that needs no conversion.
fn one_identity(topic_config_name: &str, synonym: String) -> (r: ConfigEntry)
    ensures
        r.0@ == topic_config_name@,
        r.1@.len() == 1,
        r.1@[0].spec_name() == synonym@,
        r.1@[0].spec_converter() == Converter::Identity,
{
    (String::from_str(topic_config_name), vec![ConfigSynonym::new_identity(synonym)])
}

fn same_name(config_name: &str) -> (r: ConfigEntry)
    ensures
        entry_for(r, config_name@, config_name@),
{
    one_identity(config_name, String::from_str(config_name))
}

fn same_name_with_log_prefix(config_name: &str) -> (r: ConfigEntry)
    ensures
        entry_for(r, config_name@, LOG_PREFIX@ + config_name@),
{
    one_identity(config_name, log_prefix(config_name))
}

fn same_name_with_log_cleaner_prefix(config_name: &str) -> (r: ConfigEntry)
    ensures
        entry_for(r, config_name@, LOG_CLEANER_PREFIX@ + config_name@),
{
    one_identity(config_name, log_cleaner_prefix(config_name))
}

fn single_with_log_prefix(topic_config_name: &str, broker_config_name: &str) -> (r: ConfigEntry)
    ensures
        entry_for(r, topic_config_name@, LOG_PREFIX@ + broker_config_name@),
{
    one_identity(topic_config_name, log_prefix(broker_config_name))
}

fn single_with_log_cleaner_prefix(topic_config_name: &str, broker_config_name: &str) -> (r:
    ConfigEntry)
    ensures
        entry_for(r, topic_config_name@, LOG_CLEANER_PREFIX@ + broker_config_name@),
{
    one_identity(topic_config_name, log_cleaner_prefix(broker_config_name))
}

fn single(topic_config_name: &str, broker_config_name: &str) -> (r: ConfigEntry)
    ensures
        entry_for(r, topic_config_name@, broker_config_name@),
{
    one_identity(topic_config_name, String::from_str(broker_config_name))
}

/// The entry of `topic_config_name` whose synonyms are `synonyms` with their
/// names put under the log prefix, converters and order kept.
fn list_with_log_prefix(topic_config_name: &str, synonyms: Vec<ConfigSynonym>) -> (r: ConfigEntry)
    ensures
        r.0@ == topic_config_name@,
        r.1@.len() == synonyms@.len(),
        forall|i: int|
            0 <= i < synonyms@.len() ==> (#[trigger] r.1@[i]).spec_name() == LOG_PREFIX@
                + synonyms@[i].spec_name() && r.1@[i].spec_converter()
                == synonyms@[i].spec_converter(),
{
    let mut prefixed: Vec<ConfigSynonym> = Vec::new();
    let mut i: usize = 0;
    while i < synonyms.len()
        invariant
            i <= synonyms@.len(),
            prefixed@.len() == i,
            forall|j: int|
                0 <= j < i ==> (#[trigger] prefixed@[j]).spec_name() == LOG_PREFIX@
                    + synonyms@[j].spec_name() && prefixed@[j].spec_converter()
                    == synonyms@[j].spec_converter(),
        decreases synonyms@.len() - i,
    {
        let s = &synonyms[i];
        prefixed.push(ConfigSynonym::new(log_prefix(s.name()), *s.converter()));
        i = i + 1;
    }
    (String::from_str(topic_config_name), prefixed)
}

/// Each topic setting with a server-level synonym, paired with the synonym
/// of highest priority.
pub open spec fn spec_topic_config_synonyms() -> Seq<(Seq<char>, Seq<char>)> {
    seq![
        (SEGMENT_BYTES_CONFIG@, LOG_PREFIX@ + SEGMENT_BYTES_CONFIG@),
        (SEGMENT_MS_CONFIG@, LOG_PREFIX@ + "roll.ms"@),
        (SEGMENT_JITTER_MS_CONFIG@, LOG_PREFIX@ + "roll.jitter.ms"@),
        (SEGMENT_INDEX_BYTES_CONFIG@, LOG_PREFIX@ + "index.size.max.bytes"@),
        (FLUSH_MESSAGES_INTERVAL_CONFIG@, LOG_PREFIX@ + "flush.interval.messages"@),
        (FLUSH_MS_CONFIG@, LOG_PREFIX@ + "flush.interval.ms"@),
        (RETENTION_BYTES_CONFIG@, LOG_PREFIX@ + RETENTION_BYTES_CONFIG@),
        (RETENTION_MS_CONFIG@, LOG_PREFIX@ + "retention.ms"@),
        (MAX_MESSAGE_BYTES_CONFIG@, "message.max.bytes"@),
        (INDEX_INTERVAL_BYTES_CONFIG@, LOG_PREFIX@ + INDEX_INTERVAL_BYTES_CONFIG@),
        (DELETE_RETENTION_MS_CONFIG@, LOG_CLEANER_PREFIX@ + DELETE_RETENTION_MS_CONFIG@),
        (MIN_COMPACTION_LAG_MS_CONFIG@, LOG_CLEANER_PREFIX@ + MIN_COMPACTION_LAG_MS_CONFIG@),
        (MAX_COMPACTION_LAG_MS_CONFIG@, LOG_CLEANER_PREFIX@ + MAX_COMPACTION_LAG_MS_CONFIG@),
        (FILE_DELETE_DELAY_MS_CONFIG@, LOG_PREFIX@ + "segment.delete.delay.ms"@),
        (MIN_CLEANABLE_DIRTY_RATIO_CONFIG@, LOG_CLEANER_PREFIX@ + "min.cleanable.ratio"@),
        (CLEANUP_POLICY_CONFIG@, LOG_PREFIX@ + CLEANUP_POLICY_CONFIG@),
        (UNCLEAN_LEADER_ELECTION_ENABLE_CONFIG@, UNCLEAN_LEADER_ELECTION_ENABLE_CONFIG@),
        (MIN_IN_SYNC_REPLICAS_CONFIG@, MIN_IN_SYNC_REPLICAS_CONFIG@),
        (COMPRESSION_TYPE_CONFIG@, COMPRESSION_TYPE_CONFIG@),
        (COMPRESSION_GZIP_LEVEL_CONFIG@, COMPRESSION_GZIP_LEVEL_CONFIG@),
        (COMPRESSION_LZ4_LEVEL_CONFIG@, COMPRESSION_LZ4_LEVEL_CONFIG@),
        (COMPRESSION_ZSTD_LEVEL_CONFIG@, COMPRESSION_ZSTD_LEVEL_CONFIG@),
        (PREALLOCATE_CONFIG@, LOG_PREFIX@ + PREALLOCATE_CONFIG@),
        (MESSAGE_TIMESTAMP_TYPE_CONFIG@, LOG_PREFIX@ + MESSAGE_TIMESTAMP_TYPE_CONFIG@),
        (
            MESSAGE_TIMESTAMP_BEFORE_MAX_MS_CONFIG@,
            LOG_PREFIX@ + MESSAGE_TIMESTAMP_BEFORE_MAX_MS_CONFIG@,
        ),
        (
            MESSAGE_TIMESTAMP_AFTER_MAX_MS_CONFIG@,
            LOG_PREFIX@ + MESSAGE_TIMESTAMP_AFTER_MAX_MS_CONFIG@,
        ),
        (LOCAL_LOG_RETENTION_MS_CONFIG@, LOG_PREFIX@ + LOCAL_LOG_RETENTION_MS_CONFIG@),
        (LOCAL_LOG_RETENTION_BYTES_CONFIG@, LOG_PREFIX@ + LOCAL_LOG_RETENTION_BYTES_CONFIG@),
    ]
}

/// All topic settings with their server-level synonyms, highest priority
/// first; every list is non-empty.
pub fn all_topic_config_synonyms() -> (r: Vec<ConfigEntry>)
    ensures
        r@.len() == spec_topic_config_synonyms().len(),
        forall|i: int|
            0 <= i < r@.len() ==> entry_for(
                #[trigger] r@[i],
                spec_topic_config_synonyms()[i].0,
                spec_topic_config_synonyms()[i].1,
            ),
{
    let segment_ms = list_with_log_prefix(
        SEGMENT_MS_CONFIG,
        vec![
            ConfigSynonym::new_identity(String::from_str("roll.ms")),
            ConfigSynonym::new(String::from_str("roll.hours"), Converter::HoursToMilliseconds),
        ],
    );
    let segment_jitter_ms = list_with_log_prefix(
        SEGMENT_JITTER_MS_CONFIG,
        vec![
            ConfigSynonym::new_identity(String::from_str("roll.jitter.ms")),
            ConfigSynonym::new(
                String::from_str("roll.jitter.hours"),
                Converter::HoursToMilliseconds,
            ),
        ],
    );
    let flush_ms = list_with_log_prefix(
        FLUSH_MS_CONFIG,
        vec![
            ConfigSynonym::new_identity(String::from_str("flush.interval.ms")),
            ConfigSynonym::new_identity(String::from_str("flush.scheduler.interval.ms")),
        ],
    );
    let retention_ms = list_with_log_prefix(
        RETENTION_MS_CONFIG,
        vec![
            ConfigSynonym::new_identity(String::from_str("retention.ms")),
            ConfigSynonym::new(
                String::from_str("retention.minutes"),
                Converter::MinutesToMilliseconds,
            ),
            ConfigSynonym::new(String::from_str("retention.hours"), Converter::HoursToMilliseconds),
        ],
    );
    let r = vec![
        same_name_with_log_prefix(SEGMENT_BYTES_CONFIG),
        segment_ms,
        segment_jitter_ms,
        single_with_log_prefix(SEGMENT_INDEX_BYTES_CONFIG, "index.size.max.bytes"),
        single_with_log_prefix(FLUSH_MESSAGES_INTERVAL_CONFIG, "flush.interval.messages"),
        flush_ms,
        same_name_with_log_prefix(RETENTION_BYTES_CONFIG),
        retention_ms,
        single(MAX_MESSAGE_BYTES_CONFIG, "message.max.bytes"),
        same_name_with_log_prefix(INDEX_INTERVAL_BYTES_CONFIG),
        same_name_with_log_cleaner_prefix(DELETE_RETENTION_MS_CONFIG),
        same_name_with_log_cleaner_prefix(MIN_COMPACTION_LAG_MS_CONFIG),
        same_name_with_log_cleaner_prefix(MAX_COMPACTION_LAG_MS_CONFIG),
        single_with_log_prefix(FILE_DELETE_DELAY_MS_CONFIG, "segment.delete.delay.ms"),
        single_with_log_cleaner_prefix(MIN_CLEANABLE_DIRTY_RATIO_CONFIG, "min.cleanable.ratio"),
        same_name_with_log_prefix(CLEANUP_POLICY_CONFIG),
        same_name(UNCLEAN_LEADER_ELECTION_ENABLE_CONFIG),
        same_name(MIN_IN_SYNC_REPLICAS_CONFIG),
        same_name(COMPRESSION_TYPE_CONFIG),
        same_name(COMPRESSION_GZIP_LEVEL_CONFIG),
        same_name(COMPRESSION_LZ4_LEVEL_CONFIG),
        same_name(COMPRESSION_ZSTD_LEVEL_CONFIG),
        same_name_with_log_prefix(PREALLOCATE_CONFIG),
        same_name_with_log_prefix(MESSAGE_TIMESTAMP_TYPE_CONFIG),
        same_name_with_log_prefix(MESSAGE_TIMESTAMP_BEFORE_MAX_MS_CONFIG),
        same_name_with_log_prefix(MESSAGE_TIMESTAMP_AFTER_MAX_MS_CONFIG),
        same_name_with_log_prefix(LOCAL_LOG_RETENTION_MS_CONFIG),
        same_name_with_log_prefix(LOCAL_LOG_RETENTION_BYTES_CONFIG),
    ];
    r
}

/// The first entry of `table` whose key is `key`, from index `from` on.
pub open spec fn first_synonym_from(
    table: Seq<(Seq<char>, Seq<char>)>,
    key: Seq<char>,
    from: int,
) -> Option<Seq<char>>
    decreases table.len() - from,
{
    if from < 0 || from >= table.len() {
        None
    } else if table[from].0 == key {
        Some(table[from].1)
    } else {
        first_synonym_from(table, key, from + 1)
    }
}

/// The server setting of highest priority for `topic_config_name`, which
/// must be a topic setting that has a server-level synonym.
pub fn server_synonym(topic_config_name: &str) -> (r: String)
    requires
        first_synonym_from(spec_topic_config_synonyms(), topic_config_name@, 0) is Some,
    ensures
        first_synonym_from(spec_topic_config_synonyms(), topic_config_name@, 0) == Some(r@),
{
    let table = all_topic_config_synonyms();
    let ghost spec_table = spec_topic_config_synonyms();
    let mut i: usize = 0;
    loop
        invariant
            table@.len() == spec_table.len(),
            spec_table == spec_topic_config_synonyms(),
            forall|k: int|
                0 <= k < table@.len() ==> entry_for(
                    #[trigger] table@[k],
                    spec_table[k].0,
                    spec_table[k].1,
                ),
            first_synonym_from(spec_table, topic_config_name@, i as int) is Some,
            first_synonym_from(spec_table, topic_config_name@, 0) == first_synonym_from(
                spec_table,
                topic_config_name@,
                i as int,
            ),
        decreases table@.len() - i,
    {
        let entry = &table[i];
        assert(entry_for(table@[i as int], spec_table[i as int].0, spec_table[i as int].1));
        if str_eq(entry.0.as_str(), topic_config_name) {
            return String::from_str(entry.1[0].name());
        }
        i = i + 1;
    }
}

} // verus!
