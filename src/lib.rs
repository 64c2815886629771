//! Binary encoding primitives of a Kafka-compatible wire protocol, with the
//! configuration vocabulary a broker is set up with.
//!
//! The wire codec:
//! - [`varint`]: unsigned varints (32- and 64-bit domains) and their
//!   zig-zag signed forms, minimal on write, bounded on read;
//! - [`zigzag`]: the signed/unsigned mapping itself;
//! - [`fixed_width`]: four-byte integers, big- or little-endian, sequential
//!   or at an absolute offset; [`widened`] carries them in `i64`/`i32`;
//! - [`cursor`]: the sequential byte source the readers consume;
//! - [`error`]: the failures they report.
//!
//! Configuration: [`config_def`] (schemas and typed values),
//! [`properties`] (`key=value` text), [`config_synonym`] and
//! [`server_topic_config_synonyms`] (server-level names of topic settings),
//! [`security_protocol`], [`password`], [`broker_config_props`].

pub mod broker_config_props;
pub mod config_def;
pub mod config_names;
pub mod config_synonym;
pub mod cursor;
pub mod error;
pub mod fixed_width;
pub mod password;
pub mod properties;
pub mod security_protocol;
pub mod server_topic_config_synonyms;
pub mod text;
pub mod topic_config;
pub mod varint;
pub mod widened;
pub mod zigzag;
