//! The server properties a single broker starts with in a test cluster.
use vstd::prelude::*;
use vstd::string::StringExecFns;

use crate::config_names::{
    ADVERTISED_LISTENERS_CONFIG, BACKGROUND_THREADS_CONFIG, BROKER_ID_CONFIG, BROKER_RACK_CONFIG,
    CONTROLLED_SHUTDOWN_ENABLE_CONFIG, CONTROLLER_LISTENER_NAMES_CONFIG,
    CONTROLLER_SOCKET_TIMEOUT_MS_CONFIG, DEFAULT_REPLICATION_FACTOR_CONFIG,
    DELEGATION_TOKEN_SECRET_KEY_CONFIG, DELETE_TOPIC_ENABLE_CONFIG,
    GROUP_INITIAL_REBALANCE_DELAY_MS_CONFIG, INTER_BROKER_SECURITY_PROTOCOL_CONFIG,
    LISTENERS_CONFIG, LISTENER_SECURITY_PROTOCOL_MAP_CONFIG, LOG_CLEANER_DEDUPE_BUFFER_SIZE_PROP,
    LOG_DELETE_DELAY_MS_CONFIG, LOG_DIRS_CONFIG, LOG_DIR_CONFIG, LOG_INITIAL_TASK_DELAY_MS_CONFIG,
    NODE_ID_CONFIG, NUM_NETWORK_THREADS_CONFIG, NUM_PARTITIONS_CONFIG,
    OFFSETS_TOPIC_PARTITIONS_CONFIG, OFFSETS_TOPIC_REPLICATION_FACTOR_CONFIG,
    PROCESS_ROLES_CONFIG, REPLICA_SELECTOR_CLASS_CONFIG, REPLICA_SOCKET_TIMEOUT_MS_CONFIG,
    SERVER_MAX_STARTUP_TIME_MS_CONFIG, UNSTABLE_API_VERSIONS_ENABLE_CONFIG,
    UNSTABLE_FEATURE_VERSIONS_ENABLE_CONFIG,
};
use crate::config_synonym::decimal_of;
use crate::properties::{has_property, keys_unique, pairs_map, set_property};
use crate::security_protocol::{uses_sasl_authentication, SecurityProtocol};
use crate::text::{join_commas, join_with_commas};

verus! {

/// Port 0: the operating system picks a free port.
pub const RANDOM_PORT: i32 = 0;

/// The decimal representation of `i`, with a leading `-` when negative.
pub open spec fn int_text(i: int) -> Seq<char> {
    if i < 0 {
        seq!['-'] + decimal_of((-i) as nat)
    } else {
        decimal_of(i as nat)
    }
}

/// `true` or `false`, spelled out.
pub open spec fn bool_text(b: bool) -> Seq<char> {
    if b {
        "true"@
    } else {
        "false"@
    }
}

/// Relies on `i32::to_string`: the decimal representation of the value.
#[verifier::external_body]
fn i32_to_string(v: i32) -> (r: String)
    ensures
        r@ == int_text(v as int),
{
    v.to_string()
}

/// Relies on `i16::to_string`: the decimal representation of the value.
#[verifier::external_body]
fn i16_to_string(v: i16) -> (r: String)
    ensures
        r@ == int_text(v as int),
{
    v.to_string()
}

fn bool_to_string(b: bool) -> (r: String)
    ensures
        r@ == bool_text(b),
{
    if b {
        String::from_str("true")
    } else {
        String::from_str("false")
    }
}

/// A listener entry: `NAME:localhost:PORT`.
pub open spec fn listener_text(p: (SecurityProtocol, i32)) -> Seq<char> {
    p.0.spec_name() + ":localhost:"@ + int_text(p.1 as int)
}

/// A protocol map entry: the protocol's name as listener name and protocol.
pub open spec fn protocol_map_text(p: (SecurityProtocol, i32)) -> Seq<char> {
    p.0.spec_name() + ":"@ + p.0.spec_name()
}

/// The protocol entry for `p` on `port` when `enabled`, else nothing.
pub open spec fn entry_if(enabled: bool, p: SecurityProtocol, port: i32) -> Seq<(SecurityProtocol, i32)> {
    if enabled {
        seq![(p, port)]
    } else {
        Seq::empty()
    }
}

/// The listener entry of each protocol and port, in order.
fn listener_entries(pp: &Vec<(SecurityProtocol, i32)>) -> (r: Vec<String>)
    ensures
        r@.map_values(|s: String| s@) == pp@.map_values(|p: (SecurityProtocol, i32)| listener_text(p)),
{
    let mut r: Vec<String> = Vec::new();
    let mut i: usize = 0;
    while i < pp.len()
        invariant
            i <= pp@.len(),
            r@.len() == i,
            forall|j: int| 0 <= j < i ==> (#[trigger] r@[j])@ == listener_text(pp@[j]),
        decreases pp@.len() - i,
    {
        let (p, port) = pp[i];
        let mut entry = String::from_str(p.name());
        entry.append(":localhost:");
        entry.append(i32_to_string(port).as_str());
        r.push(entry);
        i = i + 1;
    }
    assert(r@.map_values(|s: String| s@) =~= pp@.map_values(
        |p: (SecurityProtocol, i32)| listener_text(p),
    ));
    r
}

/// The protocol map entry of each protocol, in order.
fn protocol_map_entries(pp: &Vec<(SecurityProtocol, i32)>) -> (r: Vec<String>)
    ensures
        r@.map_values(|s: String| s@) == pp@.map_values(
            |p: (SecurityProtocol, i32)| protocol_map_text(p),
        ),
{
    let mut r: Vec<String> = Vec::new();
    let mut i: usize = 0;
    while i < pp.len()
        invariant
            i <= pp@.len(),
            r@.len() == i,
            forall|j: int| 0 <= j < i ==> (#[trigger] r@[j])@ == protocol_map_text(pp@[j]),
        decreases pp@.len() - i,
    {
        let (p, _) = pp[i];
        let mut entry = String::from_str(p.name());
        entry.append(":");
        entry.append(p.name());
        r.push(entry);
        i = i + 1;
    }
    assert(r@.map_values(|s: String| s@) =~= pp@.map_values(
        |p: (SecurityProtocol, i32)| protocol_map_text(p),
    ));
    r
}

/// Whether any of the protocols authenticates through SASL.
fn any_sasl(pp: &Vec<(SecurityProtocol, i32)>) -> (r: bool)
    ensures
        r == exists|i: int|
            0 <= i < pp@.len() && ((#[trigger] pp@[i]).0 == SecurityProtocol::SaslPlaintext
                || pp@[i].0 == SecurityProtocol::SaslSsl),
{
    let mut i: usize = 0;
    while i < pp.len()
        invariant
            i <= pp@.len(),
            forall|j: int|
                0 <= j < i ==> (#[trigger] pp@[j]).0 != SecurityProtocol::SaslPlaintext && pp@[j].0
                    != SecurityProtocol::SaslSsl,
        decreases pp@.len() - i,
    {
        if uses_sasl_authentication(&pp[i].0) {
            assert(pp@[i as int].0 == SecurityProtocol::SaslPlaintext || pp@[i as int].0
                == SecurityProtocol::SaslSsl);
            return true;
        }
        i = i + 1;
    }
    false
}

/// Sets each pair of `extra` in `pairs`, in order.
fn set_all(pairs: &mut Vec<(String, String)>, extra: &Vec<(String, String)>)
    requires
        keys_unique(old(pairs)@),
    ensures
        keys_unique(final(pairs)@),
        pairs_map(final(pairs)@) == pairs_map(old(pairs)@).union_prefer_right(pairs_map(extra@)),
{
    let mut i: usize = 0;
    while i < extra.len()
        invariant
            i <= extra@.len(),
            keys_unique(pairs@),
            pairs_map(pairs@) == pairs_map(old(pairs)@).union_prefer_right(
                pairs_map(extra@.take(i as int)),
            ),
        decreases extra@.len() - i,
    {
        let ghost before = pairs_map(pairs@);
        let k = extra[i].0.clone();
        let v = extra[i].1.clone();
        assert(extra@.take(i + 1).drop_last() =~= extra@.take(i as int));
        set_property(pairs, k, v);
        assert(pairs_map(pairs@) =~= pairs_map(old(pairs)@).union_prefer_right(
            pairs_map(extra@.take(i + 1)),
        ));
        i = i + 1;
    }
    assert(extra@.take(extra@.len() as int) =~= extra@);
}

/// The settings of a `BrokerConfigPropsBuilder`; `None` means the default.
pub struct BrokerSettings {
    pub node_id: i32,
    pub enable_controlled_shutdown: Option<bool>,
    pub enable_delete_topic: Option<bool>,
    pub port: Option<i32>,
    pub inter_broker_security_protocol: Option<SecurityProtocol>,
    pub sasl_properties: Option<Seq<(String, String)>>,
    pub enable_plaintext: Option<bool>,
    pub enable_sasl_plaintext: Option<bool>,
    pub sasl_plaintext_port: Option<i32>,
    pub enable_ssl: Option<bool>,
    pub ssl_port: Option<i32>,
    pub enable_sasl_ssl: Option<bool>,
    pub sasl_ssl_port: Option<i32>,
    pub rack: Option<Seq<char>>,
    pub log_dir_count: Option<i32>,
    pub enable_token: Option<bool>,
    pub num_partitions: Option<i32>,
    pub default_replication_factor: Option<i16>,
    pub enable_fetch_from_follower: Option<bool>,
}

/// The settings of a builder made by `builder(node_id)`, then given `port`
/// if it is `Some`.
pub open spec fn default_settings(node_id: i32, port: Option<i32>) -> BrokerSettings {
    BrokerSettings {
        node_id: node_id,
        enable_controlled_shutdown: None,
        enable_delete_topic: None,
        port: port,
        inter_broker_security_protocol: None,
        sasl_properties: None,
        enable_plaintext: None,
        enable_sasl_plaintext: None,
        sasl_plaintext_port: None,
        enable_ssl: None,
        ssl_port: None,
        enable_sasl_ssl: None,
        sasl_ssl_port: None,
        rack: None,
        log_dir_count: None,
        enable_token: None,
        num_partitions: None,
        default_replication_factor: None,
        enable_fetch_from_follower: None,
    }
}

/// Builds the properties of one broker; only the node id and the plaintext
/// port can be chosen, everything else keeps its default.
pub struct BrokerConfigPropsBuilder {
    node_id: i32,
    enable_controlled_shutdown: Option<bool>,
    enable_delete_topic: Option<bool>,
    port: Option<i32>,
    inter_broker_security_protocol: Option<SecurityProtocol>,
    sasl_properties: Option<Vec<(String, String)>>,
    enable_plaintext: Option<bool>,
    enable_sasl_plaintext: Option<bool>,
    sasl_plaintext_port: Option<i32>,
    enable_ssl: Option<bool>,
    ssl_port: Option<i32>,
    enable_sasl_ssl: Option<bool>,
    sasl_ssl_port: Option<i32>,
    rack: Option<String>,
    log_dir_count: Option<i32>,
    enable_token: Option<bool>,
    num_partitions: Option<i32>,
    default_replication_factor: Option<i16>,
    enable_fetch_from_follower: Option<bool>,
}

impl View for BrokerConfigPropsBuilder {
    type V = BrokerSettings;

    closed spec fn view(&self) -> BrokerSettings {
        BrokerSettings {
            node_id: self.node_id,
            enable_controlled_shutdown: self.enable_controlled_shutdown,
            enable_delete_topic: self.enable_delete_topic,
            port: self.port,
            inter_broker_security_protocol: self.inter_broker_security_protocol,
            sasl_properties: match self.sasl_properties {
                Some(v) => Some(v@),
                None => None,
            },
            enable_plaintext: self.enable_plaintext,
            enable_sasl_plaintext: self.enable_sasl_plaintext,
            sasl_plaintext_port: self.sasl_plaintext_port,
            enable_ssl: self.enable_ssl,
            ssl_port: self.ssl_port,
            enable_sasl_ssl: self.enable_sasl_ssl,
            sasl_ssl_port: self.sasl_ssl_port,
            rack: match self.rack {
                Some(r) => Some(r@),
                None => None,
            },
            log_dir_count: self.log_dir_count,
            enable_token: self.enable_token,
            num_partitions: self.num_partitions,
            default_replication_factor: self.default_replication_factor,
            enable_fetch_from_follower: self.enable_fetch_from_follower,
        }
    }
}

impl BrokerConfigPropsBuilder {
    /// Whether listeners for `p` are wanted because brokers talk to each other over it.
    pub open spec fn should_enable(&self, p: SecurityProtocol) -> bool {
        self@.inter_broker_security_protocol == Some(p)
    }

    /// The listeners the broker opens, with their ports, in protocol order.
    pub open spec fn spec_protocol_and_ports(&self) -> Seq<(SecurityProtocol, i32)> {
        entry_if(
            self@.enable_plaintext.unwrap_or(true) || self.should_enable(SecurityProtocol::Plaintext),
            SecurityProtocol::Plaintext,
            self@.port.unwrap_or(RANDOM_PORT),
        ) + entry_if(
            self@.enable_ssl.unwrap_or(false) || self.should_enable(SecurityProtocol::Ssl),
            SecurityProtocol::Ssl,
            self@.ssl_port.unwrap_or(RANDOM_PORT),
        ) + entry_if(
            self@.enable_sasl_plaintext.unwrap_or(false) || self.should_enable(
                SecurityProtocol::SaslPlaintext,
            ),
            SecurityProtocol::SaslPlaintext,
            self@.sasl_plaintext_port.unwrap_or(RANDOM_PORT),
        ) + entry_if(
            self@.enable_sasl_ssl.unwrap_or(false) || self.should_enable(SecurityProtocol::SaslSsl),
            SecurityProtocol::SaslSsl,
            self@.sasl_ssl_port.unwrap_or(RANDOM_PORT),
        )
    }

    /// How many log directories the broker needs.
    pub open spec fn spec_log_dirs_needed(&self) -> nat {
        if self@.log_dir_count.unwrap_or(1) > 1 {
            self@.log_dir_count.unwrap_or(1) as nat
        } else {
            1
        }
    }

    /// Node identity and listeners.
    pub open spec fn stage_listeners(&self, m: Map<Seq<char>, Seq<char>>) -> Map<Seq<char>, Seq<char>> {
        let pp = self.spec_protocol_and_ports();
        let listeners = join_with_commas(pp.map_values(|p: (SecurityProtocol, i32)| listener_text(p)));
        let protocol_map = join_with_commas(
            pp.map_values(|p: (SecurityProtocol, i32)| protocol_map_text(p)),
        ) + ",CONTROLLER:PLAINTEXT"@;
        let node_id = int_text(self@.node_id as int);
        m.insert(UNSTABLE_FEATURE_VERSIONS_ENABLE_CONFIG@, "true"@).insert(
            UNSTABLE_API_VERSIONS_ENABLE_CONFIG@,
            "true"@,
        ).insert(SERVER_MAX_STARTUP_TIME_MS_CONFIG@, "600000"@).insert(NODE_ID_CONFIG@, node_id).insert(
            BROKER_ID_CONFIG@,
            node_id,
        ).insert(ADVERTISED_LISTENERS_CONFIG@, listeners).insert(LISTENERS_CONFIG@, listeners).insert(
            CONTROLLER_LISTENER_NAMES_CONFIG@,
            "CONTROLLER"@,
        ).insert(LISTENER_SECURITY_PROTOCOL_MAP_CONFIG@, protocol_map)
    }

    /// The log directories.
    pub open spec fn stage_log_dirs(
        &self,
        m: Map<Seq<char>, Seq<char>>,
        log_dirs: Seq<Seq<char>>,
    ) -> Map<Seq<char>, Seq<char>> {
        if self@.log_dir_count.unwrap_or(1) > 1 {
            m.insert(LOG_DIRS_CONFIG@, join_with_commas(log_dirs))
        } else {
            m.insert(LOG_DIR_CONFIG@, log_dirs[0])
        }
    }

    /// Roles, timeouts, switches and sizes that a test broker always gets.
    pub open spec fn stage_defaults(&self, m: Map<Seq<char>, Seq<char>>) -> Map<Seq<char>, Seq<char>> {
        let m3 = m.insert(PROCESS_ROLES_CONFIG@, "broker"@).insert(
            REPLICA_SOCKET_TIMEOUT_MS_CONFIG@,
            "1500"@,
        ).insert(CONTROLLER_SOCKET_TIMEOUT_MS_CONFIG@, "1500"@).insert(
            CONTROLLED_SHUTDOWN_ENABLE_CONFIG@,
            bool_text(self@.enable_controlled_shutdown.unwrap_or(true)),
        ).insert(
            DELETE_TOPIC_ENABLE_CONFIG@,
            bool_text(self@.enable_delete_topic.unwrap_or(true)),
        ).insert(LOG_DELETE_DELAY_MS_CONFIG@, "1000"@).insert(
            LOG_CLEANER_DEDUPE_BUFFER_SIZE_PROP@,
            "2097152"@,
        ).insert(OFFSETS_TOPIC_REPLICATION_FACTOR_CONFIG@, "1"@).insert(
            LOG_INITIAL_TASK_DELAY_MS_CONFIG@,
            "100"@,
        );
        let m4 = if m3.contains_key(OFFSETS_TOPIC_PARTITIONS_CONFIG@) {
            m3
        } else {
            m3.insert(OFFSETS_TOPIC_PARTITIONS_CONFIG@, "5"@)
        };
        let m5 = if m4.contains_key(GROUP_INITIAL_REBALANCE_DELAY_MS_CONFIG@) {
            m4
        } else {
            m4.insert(GROUP_INITIAL_REBALANCE_DELAY_MS_CONFIG@, "0"@)
        };
        let m6 = match self@.rack {
            Some(rack) => m5.insert(BROKER_RACK_CONFIG@, rack),
            None => m5,
        };
        m6.insert(NUM_NETWORK_THREADS_CONFIG@, "2"@).insert(BACKGROUND_THREADS_CONFIG@, "2"@)
    }

    /// SASL settings, the inter-broker protocol and the token secret.
    pub open spec fn stage_security(&self, m: Map<Seq<char>, Seq<char>>) -> Map<Seq<char>, Seq<char>> {
        let pp = self.spec_protocol_and_ports();
        let uses_sasl = exists|i: int|
            0 <= i < pp.len() && ((#[trigger] pp[i]).0 == SecurityProtocol::SaslPlaintext || pp[i].0
                == SecurityProtocol::SaslSsl);
        let m8 = match self@.sasl_properties {
            Some(sasl) => if uses_sasl {
                m.union_prefer_right(pairs_map(sasl))
            } else {
                m
            },
            None => m,
        };
        let m9 = match self@.inter_broker_security_protocol {
            Some(p) => m8.insert(INTER_BROKER_SECURITY_PROTOCOL_CONFIG@, p.spec_name()),
            None => m8,
        };
        if self@.enable_token.unwrap_or(false) {
            m9.insert(DELEGATION_TOKEN_SECRET_KEY_CONFIG@, "secretkey"@)
        } else {
            m9
        }
    }

    /// Partition and replication counts, and fetching from followers.
    pub open spec fn stage_replication(&self, m: Map<Seq<char>, Seq<char>>) -> Map<Seq<char>, Seq<char>> {
        let m11 = m.insert(
            NUM_PARTITIONS_CONFIG@,
            int_text(self@.num_partitions.unwrap_or(1) as int),
        ).insert(
            DEFAULT_REPLICATION_FACTOR_CONFIG@,
            int_text(self@.default_replication_factor.unwrap_or(1) as int),
        );
        if self@.enable_fetch_from_follower.unwrap_or(false) {
            m11.insert(BROKER_RACK_CONFIG@, int_text(self@.node_id as int)).insert(
                REPLICA_SELECTOR_CLASS_CONFIG@,
                "org.apache.kafka.common.replica.RackAwareReplicaSelector"@,
            )
        } else {
            m11
        }
    }

    /// The properties `build` produces, given the log directories made for it.
    pub open spec fn spec_props(&self, log_dirs: Seq<Seq<char>>) -> Map<Seq<char>, Seq<char>> {
        self.stage_replication(
            self.stage_security(
                self.stage_defaults(self.stage_log_dirs(self.stage_listeners(Map::empty()), log_dirs)),
            ),
        )
    }

    /// A builder for node `node_id` with every other setting at its default.
    pub fn builder(node_id: i32) -> (r: Self)
        ensures
            r@ == default_settings(node_id, None),
            r.spec_protocol_and_ports() == seq![(SecurityProtocol::Plaintext, RANDOM_PORT)],
            r.spec_log_dirs_needed() == 1,
    {
        let r = BrokerConfigPropsBuilder {
            node_id,
            enable_controlled_shutdown: None,
            enable_delete_topic: None,
            port: None,
            inter_broker_security_protocol: None,
            sasl_properties: None,
            enable_plaintext: None,
            enable_sasl_plaintext: None,
            sasl_plaintext_port: None,
            enable_ssl: None,
            ssl_port: None,
            enable_sasl_ssl: None,
            sasl_ssl_port: None,
            rack: None,
            log_dir_count: None,
            enable_token: None,
            num_partitions: None,
            default_replication_factor: None,
            enable_fetch_from_follower: None,
        };
        assert(r.spec_protocol_and_ports() =~= seq![(SecurityProtocol::Plaintext, RANDOM_PORT)]);
        r
    }

    /// Sets the plaintext listener's port.
    pub fn port(self, port: i32) -> (r: Self)
        ensures
            r@ == (BrokerSettings { port: Some(port), ..self@ }),
            r.spec_log_dirs_needed() == self.spec_log_dirs_needed(),
            r.spec_protocol_and_ports() == (if self.spec_protocol_and_ports().len() > 0
                && self.spec_protocol_and_ports()[0].0 == SecurityProtocol::Plaintext {
                self.spec_protocol_and_ports().update(0, (SecurityProtocol::Plaintext, port))
            } else {
                self.spec_protocol_and_ports()
            }),
    {
        let mut r = self;
        r.port = Some(port);
        proof {
            let a = self.spec_protocol_and_ports();
            let b = r.spec_protocol_and_ports();
            if a.len() > 0 && a[0].0 == SecurityProtocol::Plaintext {
                assert(b =~= a.update(0, (SecurityProtocol::Plaintext, port)));
            } else {
                assert(b =~= a);
            }
        }
        r
    }

    /// How many log directories the caller has to make before `build`.
    pub fn log_dirs_needed(&self) -> (r: usize)
        ensures
            r == self.spec_log_dirs_needed(),
    {
        let count = self.log_dir_count.unwrap_or(1);
        if count > 1 {
            count as usize
        } else {
            1
        }
    }

    fn add_listener_props(&self, props: &mut Vec<(String, String)>)
        requires
            keys_unique(old(props)@),
        ensures
            keys_unique(final(props)@),
            pairs_map(final(props)@) == self.stage_listeners(pairs_map(old(props)@)),
    {
        let pp = self.protocol_and_ports();
        let listeners = join_commas(&listener_entries(&pp));
        let mut protocol_map = join_commas(&protocol_map_entries(&pp));
        protocol_map.append(",CONTROLLER:PLAINTEXT");
        let node_id = i32_to_string(self.node_id);
        let t = String::from_str("true");
        set_property(props, String::from_str(UNSTABLE_FEATURE_VERSIONS_ENABLE_CONFIG), t.clone());
        set_property(props, String::from_str(UNSTABLE_API_VERSIONS_ENABLE_CONFIG), t);
        set_property(
            props,
            String::from_str(SERVER_MAX_STARTUP_TIME_MS_CONFIG),
            String::from_str("600000"),
        );
        set_property(props, String::from_str(NODE_ID_CONFIG), node_id.clone());
        set_property(props, String::from_str(BROKER_ID_CONFIG), node_id);
        set_property(props, String::from_str(ADVERTISED_LISTENERS_CONFIG), listeners.clone());
        set_property(props, String::from_str(LISTENERS_CONFIG), listeners);
        set_property(
            props,
            String::from_str(CONTROLLER_LISTENER_NAMES_CONFIG),
            String::from_str("CONTROLLER"),
        );
        set_property(props, String::from_str(LISTENER_SECURITY_PROTOCOL_MAP_CONFIG), protocol_map);
    }

    fn add_log_dir_props(&self, props: &mut Vec<(String, String)>, log_dirs: &Vec<String>)
        requires
            keys_unique(old(props)@),
            log_dirs@.len() >= 1,
        ensures
            keys_unique(final(props)@),
            pairs_map(final(props)@) == self.stage_log_dirs(
                pairs_map(old(props)@),
                log_dirs@.map_values(|s: String| s@),
            ),
    {
        if self.log_dir_count.unwrap_or(1) > 1 {
            set_property(props, String::from_str(LOG_DIRS_CONFIG), join_commas(log_dirs));
        } else {
            set_property(props, String::from_str(LOG_DIR_CONFIG), log_dirs[0].clone());
        }
    }

    fn add_default_props(&self, props: &mut Vec<(String, String)>)
        requires
            keys_unique(old(props)@),
        ensures
            keys_unique(final(props)@),
            pairs_map(final(props)@) == self.stage_defaults(pairs_map(old(props)@)),
    {
        set_property(props, String::from_str(PROCESS_ROLES_CONFIG), String::from_str("broker"));
        set_property(
            props,
            String::from_str(REPLICA_SOCKET_TIMEOUT_MS_CONFIG),
            String::from_str("1500"),
        );
        set_property(
            props,
            String::from_str(CONTROLLER_SOCKET_TIMEOUT_MS_CONFIG),
            String::from_str("1500"),
        );
        set_property(
            props,
            String::from_str(CONTROLLED_SHUTDOWN_ENABLE_CONFIG),
            bool_to_string(self.enable_controlled_shutdown.unwrap_or(true)),
        );
        set_property(
            props,
            String::from_str(DELETE_TOPIC_ENABLE_CONFIG),
            bool_to_string(self.enable_delete_topic.unwrap_or(true)),
        );
        set_property(props, String::from_str(LOG_DELETE_DELAY_MS_CONFIG), String::from_str("1000"));
        set_property(
            props,
            String::from_str(LOG_CLEANER_DEDUPE_BUFFER_SIZE_PROP),
            String::from_str("2097152"),
        );
        set_property(
            props,
            String::from_str(OFFSETS_TOPIC_REPLICATION_FACTOR_CONFIG),
            String::from_str("1"),
        );
        set_property(
            props,
            String::from_str(LOG_INITIAL_TASK_DELAY_MS_CONFIG),
            String::from_str("100"),
        );
        if !has_property(props, OFFSETS_TOPIC_PARTITIONS_CONFIG) {
            set_property(props, String::from_str(OFFSETS_TOPIC_PARTITIONS_CONFIG), String::from_str("5"));
        }
        if !has_property(props, GROUP_INITIAL_REBALANCE_DELAY_MS_CONFIG) {
            set_property(
                props,
                String::from_str(GROUP_INITIAL_REBALANCE_DELAY_MS_CONFIG),
                String::from_str("0"),
            );
        }
        match &self.rack {
            Some(rack) => set_property(props, String::from_str(BROKER_RACK_CONFIG), rack.clone()),
            None => {},
        }
        set_property(props, String::from_str(NUM_NETWORK_THREADS_CONFIG), String::from_str("2"));
        set_property(props, String::from_str(BACKGROUND_THREADS_CONFIG), String::from_str("2"));
    }

    fn add_security_props(&self, props: &mut Vec<(String, String)>)
        requires
            keys_unique(old(props)@),
        ensures
            keys_unique(final(props)@),
            pairs_map(final(props)@) == self.stage_security(pairs_map(old(props)@)),
    {
        let pp = self.protocol_and_ports();
        if any_sasl(&pp) {
            match &self.sasl_properties {
                Some(sasl) => set_all(props, sasl),
                None => {},
            }
        }
        if let Some(protocol) = self.inter_broker_security_protocol {
            set_property(
                props,
                String::from_str(INTER_BROKER_SECURITY_PROTOCOL_CONFIG),
                String::from_str(protocol.name()),
            );
        }
        if self.enable_token.unwrap_or(false) {
            set_property(
                props,
                String::from_str(DELEGATION_TOKEN_SECRET_KEY_CONFIG),
                String::from_str("secretkey"),
            );
        }
    }

    fn add_replication_props(&self, props: &mut Vec<(String, String)>)
        requires
            keys_unique(old(props)@),
        ensures
            keys_unique(final(props)@),
            pairs_map(final(props)@) == self.stage_replication(pairs_map(old(props)@)),
    {
        set_property(
            props,
            String::from_str(NUM_PARTITIONS_CONFIG),
            i32_to_string(self.num_partitions.unwrap_or(1)),
        );
        set_property(
            props,
            String::from_str(DEFAULT_REPLICATION_FACTOR_CONFIG),
            i16_to_string(self.default_replication_factor.unwrap_or(1)),
        );
        if self.enable_fetch_from_follower.unwrap_or(false) {
            set_property(props, String::from_str(BROKER_RACK_CONFIG), i32_to_string(self.node_id));
            set_property(
                props,
                String::from_str(REPLICA_SELECTOR_CLASS_CONFIG),
                String::from_str("org.apache.kafka.common.replica.RackAwareReplicaSelector"),
            );
        }
    }

    /// The broker's server properties, each key once. `log_dirs` are the
    /// directories made for it, `log_dirs_needed` of them; with more than one
    /// they all go to `log.dirs`, else the first is `log.dir`.
    pub fn build(self, log_dirs: Vec<String>) -> (r: Vec<(String, String)>)
        requires
            log_dirs@.len() >= 1,
        ensures
            keys_unique(r@),
            pairs_map(r@) == self.spec_props(log_dirs@.map_values(|s: String| s@)),
    {
        let mut props: Vec<(String, String)> = Vec::new();
        assert(pairs_map(props@) == Map::<Seq<char>, Seq<char>>::empty());
        self.add_listener_props(&mut props);
        self.add_log_dir_props(&mut props, &log_dirs);
        self.add_default_props(&mut props);
        self.add_security_props(&mut props);
        self.add_replication_props(&mut props);
        props
    }

    /// The listeners the broker opens, with their ports, in protocol order.
    pub fn protocol_and_ports(&self) -> (r: Vec<(SecurityProtocol, i32)>)
        ensures
            r@ == self.spec_protocol_and_ports(),
    {
        let ibsp = self.inter_broker_security_protocol;
        let mut r: Vec<(SecurityProtocol, i32)> = Vec::new();
        if self.enable_plaintext.unwrap_or(true) || ibsp == Some(SecurityProtocol::Plaintext) {
            r.push((SecurityProtocol::Plaintext, self.port.unwrap_or(RANDOM_PORT)));
        }
        if self.enable_ssl.unwrap_or(false) || ibsp == Some(SecurityProtocol::Ssl) {
            r.push((SecurityProtocol::Ssl, self.ssl_port.unwrap_or(RANDOM_PORT)));
        }
        if self.enable_sasl_plaintext.unwrap_or(false) || ibsp == Some(
            SecurityProtocol::SaslPlaintext,
        ) {
            r.push(
                (SecurityProtocol::SaslPlaintext, self.sasl_plaintext_port.unwrap_or(RANDOM_PORT)),
            );
        }
        if self.enable_sasl_ssl.unwrap_or(false) || ibsp == Some(SecurityProtocol::SaslSsl) {
            r.push((SecurityProtocol::SaslSsl, self.sasl_ssl_port.unwrap_or(RANDOM_PORT)));
        }
        assert(r@ =~= self.spec_protocol_and_ports());
        r
    }
}


/// A broker built with only its node id and perhaps its port chosen listens
/// on plaintext at that port (the system's choice when none was given),
/// identifies as that node, and has one partition per topic by default.
pub proof fn lemma_default_broker_props(
    b: BrokerConfigPropsBuilder,
    node_id: i32,
    port: Option<i32>,
    log_dirs: Seq<Seq<char>>,
)
    requires
        b@ == default_settings(node_id, port),
        log_dirs.len() >= 1,
    ensures
        ({
            let props = b.spec_props(log_dirs);
            let listeners = "PLAINTEXT"@ + ":localhost:"@ + int_text(port.unwrap_or(RANDOM_PORT) as int);
            &&& props.contains_key(LISTENERS_CONFIG@)
            &&& props[LISTENERS_CONFIG@] == listeners
            &&& props.contains_key(ADVERTISED_LISTENERS_CONFIG@)
            &&& props[ADVERTISED_LISTENERS_CONFIG@] == listeners
            &&& props.contains_key(LISTENER_SECURITY_PROTOCOL_MAP_CONFIG@)
            &&& props[LISTENER_SECURITY_PROTOCOL_MAP_CONFIG@] == "PLAINTEXT"@ + ":"@ + "PLAINTEXT"@
                + ",CONTROLLER:PLAINTEXT"@
            &&& props.contains_key(NODE_ID_CONFIG@)
            &&& props[NODE_ID_CONFIG@] == int_text(node_id as int)
            &&& props.contains_key(BROKER_ID_CONFIG@)
            &&& props[BROKER_ID_CONFIG@] == int_text(node_id as int)
            &&& props.contains_key(NUM_PARTITIONS_CONFIG@)
            &&& props[NUM_PARTITIONS_CONFIG@] == int_text(1)
            &&& props.contains_key(LOG_DIR_CONFIG@)
            &&& props[LOG_DIR_CONFIG@] == log_dirs[0]
        }),
{
    let pp = b.spec_protocol_and_ports();
    let port_used = port.unwrap_or(RANDOM_PORT);
    assert(pp =~= seq![(SecurityProtocol::Plaintext, port_used)]);
    let entries = pp.map_values(|p: (SecurityProtocol, i32)| listener_text(p));
    assert(entries =~= seq![listener_text((SecurityProtocol::Plaintext, port_used))]);
    let map_entries = pp.map_values(|p: (SecurityProtocol, i32)| protocol_map_text(p));
    assert(map_entries =~= seq![protocol_map_text((SecurityProtocol::Plaintext, port_used))]);
    // The keys differ: each by its length or by one of its first characters.
    reveal_strlit("unstable.feature.versions.enable");
    reveal_strlit("unstable.api.versions.enable");
    reveal_strlit("server.max.startup.time.ms");
    reveal_strlit("node.id");
    reveal_strlit("broker.id");
    reveal_strlit("advertised.listeners");
    reveal_strlit("listeners");
    reveal_strlit("controller.listener.names");
    reveal_strlit("listener.security.protocol.map");
    reveal_strlit("log.dir");
    reveal_strlit("process.roles");
    reveal_strlit("replica.socket.timeout.ms");
    reveal_strlit("controller.socket.timeout.ms");
    reveal_strlit("controlled.shutdown.enable");
    reveal_strlit("delete.topic.enable");
    reveal_strlit("log.segment.delete.delay.ms");
    reveal_strlit("log.cleaner.dedupe.buffer.size");
    reveal_strlit("offsets.topic.replication.factor");
    reveal_strlit("log.initial.task.delay.ms");
    reveal_strlit("offsets.topic.num.partitions");
    reveal_strlit("group.initial.rebalance.delay.ms");
    reveal_strlit("num.network.threads");
    reveal_strlit("background.threads");
    reveal_strlit("num.partitions");
    reveal_strlit("default.replication.factor");
    assert(UNSTABLE_FEATURE_VERSIONS_ENABLE_CONFIG@.len() == 32);
    assert(UNSTABLE_FEATURE_VERSIONS_ENABLE_CONFIG@[0] == 'u');
    assert(UNSTABLE_API_VERSIONS_ENABLE_CONFIG@.len() == 28);
    assert(UNSTABLE_API_VERSIONS_ENABLE_CONFIG@[0] == 'u');
    assert(SERVER_MAX_STARTUP_TIME_MS_CONFIG@.len() == 26);
    assert(SERVER_MAX_STARTUP_TIME_MS_CONFIG@[0] == 's');
    assert(NODE_ID_CONFIG@.len() == 7);
    assert(NODE_ID_CONFIG@[0] == 'n');
    assert(BROKER_ID_CONFIG@.len() == 9);
    assert(BROKER_ID_CONFIG@[0] == 'b');
    assert(ADVERTISED_LISTENERS_CONFIG@.len() == 20);
    assert(ADVERTISED_LISTENERS_CONFIG@[0] == 'a');
    assert(LISTENERS_CONFIG@.len() == 9);
    assert(LISTENERS_CONFIG@[0] == 'l');
    assert(CONTROLLER_LISTENER_NAMES_CONFIG@.len() == 25);
    assert(CONTROLLER_LISTENER_NAMES_CONFIG@[0] == 'c');
    assert(LISTENER_SECURITY_PROTOCOL_MAP_CONFIG@.len() == 30);
    assert(LISTENER_SECURITY_PROTOCOL_MAP_CONFIG@[1] == 'i');
    assert(LOG_DIR_CONFIG@.len() == 7);
    assert(LOG_DIR_CONFIG@[0] == 'l');
    assert(PROCESS_ROLES_CONFIG@.len() == 13);
    assert(PROCESS_ROLES_CONFIG@[0] == 'p');
    assert(REPLICA_SOCKET_TIMEOUT_MS_CONFIG@.len() == 25);
    assert(REPLICA_SOCKET_TIMEOUT_MS_CONFIG@[0] == 'r');
    assert(CONTROLLER_SOCKET_TIMEOUT_MS_CONFIG@.len() == 28);
    assert(CONTROLLER_SOCKET_TIMEOUT_MS_CONFIG@[0] == 'c');
    assert(CONTROLLED_SHUTDOWN_ENABLE_CONFIG@.len() == 26);
    assert(CONTROLLED_SHUTDOWN_ENABLE_CONFIG@[0] == 'c');
    assert(DELETE_TOPIC_ENABLE_CONFIG@.len() == 19);
    assert(DELETE_TOPIC_ENABLE_CONFIG@[0] == 'd');
    assert(LOG_DELETE_DELAY_MS_CONFIG@.len() == 27);
    assert(LOG_DELETE_DELAY_MS_CONFIG@[0] == 'l');
    assert(LOG_CLEANER_DEDUPE_BUFFER_SIZE_PROP@.len() == 30);
    assert(LOG_CLEANER_DEDUPE_BUFFER_SIZE_PROP@[1] == 'o');
    assert(OFFSETS_TOPIC_REPLICATION_FACTOR_CONFIG@.len() == 32);
    assert(OFFSETS_TOPIC_REPLICATION_FACTOR_CONFIG@[0] == 'o');
    assert(LOG_INITIAL_TASK_DELAY_MS_CONFIG@.len() == 25);
    assert(LOG_INITIAL_TASK_DELAY_MS_CONFIG@[0] == 'l');
    assert(OFFSETS_TOPIC_PARTITIONS_CONFIG@.len() == 28);
    assert(OFFSETS_TOPIC_PARTITIONS_CONFIG@[0] == 'o');
    assert(GROUP_INITIAL_REBALANCE_DELAY_MS_CONFIG@.len() == 32);
    assert(GROUP_INITIAL_REBALANCE_DELAY_MS_CONFIG@[0] == 'g');
    assert(NUM_NETWORK_THREADS_CONFIG@.len() == 19);
    assert(NUM_NETWORK_THREADS_CONFIG@[0] == 'n');
    assert(BACKGROUND_THREADS_CONFIG@.len() == 18);
    assert(BACKGROUND_THREADS_CONFIG@[0] == 'b');
    assert(NUM_PARTITIONS_CONFIG@.len() == 14);
    assert(NUM_PARTITIONS_CONFIG@[0] == 'n');
    assert(DEFAULT_REPLICATION_FACTOR_CONFIG@.len() == 26);
    assert(DEFAULT_REPLICATION_FACTOR_CONFIG@[0] == 'd');
}

} // verus!
