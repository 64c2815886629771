use rafka_clients::broker_config_props::{BrokerConfigPropsBuilder, RANDOM_PORT};
use rafka_clients::security_protocol::SecurityProtocol;
use std::collections::HashMap;

fn props_of(builder: BrokerConfigPropsBuilder, dirs: &[&str]) -> HashMap<String, String> {
    let pairs = builder.build(dirs.iter().map(|d| d.to_string()).collect());
    let n = pairs.len();
    let map: HashMap<String, String> = pairs.into_iter().collect();
    assert_eq!(map.len(), n, "each key once");
    map
}

#[test]
fn default_broker_listens_on_plaintext() {
    let builder = BrokerConfigPropsBuilder::builder(3);
    assert_eq!(
        builder.protocol_and_ports(),
        vec![(SecurityProtocol::Plaintext, RANDOM_PORT)]
    );
    assert_eq!(builder.log_dirs_needed(), 1);
    let props = props_of(builder, &["/tmp/broker-logs"]);
    assert_eq!(props.len(), 25);
    assert_eq!(props["node.id"], "3");
    assert_eq!(props["broker.id"], "3");
    assert_eq!(props["listeners"], "PLAINTEXT:localhost:0");
    assert_eq!(props["advertised.listeners"], "PLAINTEXT:localhost:0");
    assert_eq!(
        props["listener.security.protocol.map"],
        "PLAINTEXT:PLAINTEXT,CONTROLLER:PLAINTEXT"
    );
    assert_eq!(props["log.dir"], "/tmp/broker-logs");
    assert!(!props.contains_key("log.dirs"));
    assert_eq!(props["controlled.shutdown.enable"], "true");
    assert_eq!(props["delete.topic.enable"], "true");
    assert_eq!(props["offsets.topic.num.partitions"], "5");
    assert_eq!(props["group.initial.rebalance.delay.ms"], "0");
    assert_eq!(props["log.segment.delete.delay.ms"], "1000");
    assert_eq!(props["log.cleaner.dedupe.buffer.size"], "2097152");
    assert_eq!(props["num.partitions"], "1");
    assert_eq!(props["default.replication.factor"], "1");
    assert_eq!(props["process.roles"], "broker");
    assert!(!props.contains_key("broker.rack"));
    assert!(!props.contains_key("security.inter.broker.protocol"));
}

#[test]
fn chosen_port_and_negative_node_id() {
    let builder = BrokerConfigPropsBuilder::builder(-7).port(9092);
    assert_eq!(
        builder.protocol_and_ports(),
        vec![(SecurityProtocol::Plaintext, 9092)]
    );
    let props = props_of(builder, &["/a"]);
    assert_eq!(props["listeners"], "PLAINTEXT:localhost:9092");
    assert_eq!(props["node.id"], "-7");
}
