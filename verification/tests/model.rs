use chronicle_cql::broker::{add_feed, feed_events, PermanodeBrokerThrough, SocketMsg, Topology};
use chronicle_cql::compression::UNCOMPRESSED;
use chronicle_cql::config::{
    collectors_count, default_keyspace, ApiConfig, BrokerConfig, Config, DatacenterConfig, KeyspaceConfig,
    StorageConfig, ThreadCount, CONFIG_PATH,
};
use chronicle_cql::consistency::Consistency;
use chronicle_cql::header::Header;
use chronicle_cql::insert::{Mainnet, Record};
use chronicle_cql::mqtt::{service_name, Messages, Metadata, Topic};
use chronicle_cql::query::{Query, VALUES};
use chronicle_cql::sync::SyncData;
use chronicle_cql::wire;
use std::collections::HashMap;

#[test]
fn consistency_codes_are_those_of_the_protocol() {
    let table = [
        (Consistency::Any, 0x0000u16),
        (Consistency::One, 0x0001),
        (Consistency::Two, 0x0002),
        (Consistency::Three, 0x0003),
        (Consistency::Quorum, 0x0004),
        (Consistency::All, 0x0005),
        (Consistency::LocalQuorum, 0x0006),
        (Consistency::EachQuorum, 0x0007),
        (Consistency::Serial, 0x0008),
        (Consistency::LocalSerial, 0x0009),
        (Consistency::LocalOne, 0x000A),
    ];
    for (level, code) in table {
        assert_eq!(level.code(), code);
        assert_eq!(Consistency::from_code(code), Some(level));
    }
    assert_eq!(Consistency::from_code(0x000B), None);
    assert_eq!(Consistency::from_code(u16::MAX), None);
}

#[test]
fn wire_numbers_are_big_endian() {
    let mut buffer = Vec::new();
    wire::put_u16(&mut buffer, 0x0102);
    wire::put_u32(&mut buffer, 0x03040506);
    wire::put_u64(&mut buffer, 0x0708090a0b0c0d0e);
    assert_eq!(buffer, vec![1, 2, 3, 4, 5, 6, 7, 8, 9, 10, 11, 12, 13, 14]);
    assert_eq!(wire::get_u16(&buffer, 0), 0x0102);
    assert_eq!(wire::get_u32(&buffer, 2), 0x03040506);
    assert_eq!(wire::get_u64(&buffer, 6), 0x0708090a0b0c0d0e);
}

#[test]
fn twos_complement_matches_the_machine() {
    for v in [i8::MIN, -1, 0, 1, i8::MAX] {
        assert_eq!(wire::i8_bits(v), v as u8);
        assert_eq!(wire::i8_from_bits(v as u8), v);
    }
    for v in [i16::MIN, -1, 0, 1, i16::MAX] {
        assert_eq!(wire::i16_bits(v), v as u16);
        assert_eq!(wire::i16_from_bits(v as u16), v);
    }
    for v in [i32::MIN, -1, 0, 1, i32::MAX] {
        assert_eq!(wire::i32_bits(v), v as u32);
        assert_eq!(wire::i32_from_bits(v as u32), v);
    }
    for v in [i64::MIN, -1, 0, 1, i64::MAX] {
        assert_eq!(wire::i64_bits(v), v as u64);
        assert_eq!(wire::i64_from_bits(v as u64), v);
    }
}

fn sync(gaps: Vec<std::ops::Range<u32>>, unlogged: Vec<std::ops::Range<u32>>) -> SyncData {
    SyncData { completed: vec![0..1], synced_but_unlogged: unlogged, gaps }
}

#[test]
fn lowest_gap_is_the_last_one() {
    let mut data = sync(vec![30..40, 10..20], vec![50..60]);
    assert_eq!(data.take_lowest_gap(), Some(10..20));
    assert_eq!(data.take_lowest_gap(), Some(30..40));
    assert_eq!(data.take_lowest_gap(), None);
    assert_eq!(data.take_lowest_unlogged(), Some(50..60));
    assert_eq!(data.take_lowest_unlogged(), None);
    assert_eq!(data.completed, vec![0..1]);
}

#[test]
fn lowest_of_gap_and_unlogged_is_taken() {
    let mut data = sync(vec![30..40, 10..20], vec![50..60, 20..30]);
    assert_eq!(data.get_lowest_gap_or_unlogged(), Some(&(10..20)));
    assert_eq!(data.take_lowest_gap_or_unlogged(), Some(10..20));
    assert_eq!(data.get_lowest_gap_or_unlogged(), Some(&(20..30)));
    assert_eq!(data.take_lowest_gap_or_unlogged(), Some(20..30));
    assert_eq!(data.take_lowest_gap_or_unlogged(), Some(30..40));
    assert_eq!(data.take_lowest_gap_or_unlogged(), Some(50..60));
    assert_eq!(data.take_lowest_gap_or_unlogged(), None);
    assert_eq!(data.get_lowest_gap_or_unlogged(), None);
}

#[test]
fn equal_starts_take_the_unlogged_range() {
    let mut data = sync(vec![10..20], vec![10..15]);
    assert_eq!(data.take_lowest_gap_or_unlogged(), Some(10..15));
    assert_eq!(data.gaps, vec![10..20]);
    assert!(data.synced_but_unlogged.is_empty());
}

#[test]
fn adjoining_ranges_are_merged() {
    let mut data = sync(vec![40..50, 10..20], vec![60..70, 30..40, 20..30]);
    assert_eq!(data.take_lowest_uncomplete(), Some(10..50));
    assert!(data.gaps.is_empty());
    assert_eq!(data.synced_but_unlogged, vec![60..70]);
    assert_eq!(data.take_lowest_uncomplete(), Some(60..70));
    assert_eq!(data.take_lowest_uncomplete(), None);
    assert_eq!(data.completed, vec![0..1]);
}

#[test]
fn a_hole_stops_the_merge() {
    let mut data = sync(vec![25..30, 10..20], vec![]);
    assert_eq!(data.take_lowest_uncomplete(), Some(10..20));
    assert_eq!(data.gaps, vec![25..30]);
}

#[test]
fn default_thread_count_is_one_per_core() {
    assert_eq!(ThreadCount::default(), ThreadCount::CoreMultiple(1));
    let config = StorageConfig::default();
    assert!(config.keyspaces.is_empty());
    assert_eq!(config.listen_address, "");
    assert_eq!(config.thread_count, ThreadCount::CoreMultiple(1));
    assert_eq!(config.reporter_count, 0);
    assert_eq!(config.local_datacenter, "");
    assert_eq!(Config::default().storage_config, config);
    assert_eq!(CONFIG_PATH, "./config.ron");
}

fn example() -> Config {
    let mut data_centers = HashMap::new();
    data_centers.insert("USA".to_string(), DatacenterConfig { replication_factor: 2 });
    data_centers.insert("Canada".to_string(), DatacenterConfig { replication_factor: 1 });
    Config {
        storage_config: StorageConfig {
            keyspaces: vec![KeyspaceConfig { name: "my_mainnet".to_string(), data_centers }],
            listen_address: "127.0.0.1:8080".to_owned(),
            thread_count: ThreadCount::CoreMultiple(1),
            reporter_count: 2,
            local_datacenter: "datacenter1".to_owned(),
        },
        api_config: ApiConfig {},
        broker_config: BrokerConfig {},
    }
}

#[test]
fn example_config_is_a_plain_value() {
    let config = example();
    assert_eq!(config, config.clone());
    assert_ne!(config, Config::default());
    assert_eq!(config.storage_config.keyspaces[0].data_centers["USA"].replication_factor, 2);
}

#[test]
fn default_keyspace_is_the_first_one_listed() {
    assert_eq!(default_keyspace(&Some(example().storage_config)), "my_mainnet");
    assert_eq!(default_keyspace(&Some(StorageConfig::default())), "permanode");
    assert_eq!(default_keyspace(&None), "permanode");
    assert_eq!(collectors_count(Some(3)), 3);
    assert_eq!(collectors_count(None), 10);
}

#[test]
fn topics_have_their_names() {
    assert_eq!(Messages::name(), "messages");
    assert_eq!(Messages::qos(), 0);
    assert_eq!(Metadata::name(), "messages/{messageId}/metadata");
    assert_eq!(Metadata::qos(), 0);
    assert_eq!(service_name::<Messages>(), "messages.peer_addr");
    assert_eq!(service_name::<Metadata>(), "messages/{messageId}/metadata.peer_addr");
}

#[test]
fn insert_statements_name_the_keyspace() {
    let keyspace = Mainnet::new(String::from("mainnet"));
    assert_eq!(keyspace.name(), "mainnet");
    assert_eq!(
        keyspace.statement(&Record::Message(vec![])),
        "INSERT INTO mainnet.messages (message_id, message) VALUES (?, ?)"
    );
    assert_eq!(
        keyspace.statement(&Record::Metadata(vec![])),
        "INSERT INTO mainnet.messages (message_id, metadata) VALUES (?, ?)"
    );
    assert_eq!(
        keyspace.statement(&Record::MessageAndMetadata(vec![], vec![])),
        "INSERT INTO mainnet.messages (message_id, message, metadata) VALUES (?, ?, ?)"
    );
}

#[test]
fn insert_binds_the_id_first() {
    let Query(bytes) = Mainnet::bind_values(Query::new().query_flags(VALUES), &[1, 2], &Record::Message(vec![3]));
    assert_eq!(bytes, vec![1, 0, 0, 0, 2, 1, 2, 0, 0, 0, 1, 3]);
    let Query(bytes) = Mainnet::bind_values(Query::new(), &[1], &Record::Metadata(vec![4, 5]));
    assert_eq!(bytes, vec![0, 0, 0, 1, 1, 0, 0, 0, 2, 4, 5]);
    let Query(bytes) =
        Mainnet::bind_values(Query::new(), &[], &Record::MessageAndMetadata(vec![6], vec![7]));
    assert_eq!(bytes, vec![0, 0, 0, 0, 0, 0, 0, 1, 6, 0, 0, 0, 1, 7]);
    let _ = UNCOMPRESSED;
}

#[test]
fn adding_a_feed_takes_two_events() {
    let events = match add_feed("tcp://localhost:1883") {
        Some(events) => events,
        None => panic!("the address was refused"),
    };
    assert_eq!(
        events,
        vec![
            PermanodeBrokerThrough::Topology(Topology::AddMqttMessages(String::from("tcp://localhost:1883"))),
            PermanodeBrokerThrough::Topology(Topology::AddMqttMessagesReferenced(String::from(
                "tcp://localhost:1883"
            ))),
        ]
    );
    assert_eq!(events, feed_events(String::from("tcp://localhost:1883")));
    match &events[1] {
        PermanodeBrokerThrough::Topology(topology) => {
            assert_eq!(topology.address(), "tcp://localhost:1883");
            assert!(topology.is_add());
        }
        _ => panic!("not a topology event"),
    }
    assert!(!Topology::RemoveMqttMessages(String::new()).is_add());
    assert_eq!(
        SocketMsg::PermanodeBroker(PermanodeBrokerThrough::Shutdown),
        SocketMsg::PermanodeBroker(PermanodeBrokerThrough::Shutdown)
    );
}

#[test]
fn a_feed_address_is_taken_as_the_parser_gives_it() {
    let events = match add_feed("HTTP://Example.COM:80/a/../b") {
        Some(events) => events,
        None => panic!("the address was refused"),
    };
    match &events[0] {
        PermanodeBrokerThrough::Topology(topology) => assert_eq!(topology.address(), "http://example.com/b"),
        _ => panic!("not a topology event"),
    }
}

#[test]
fn what_is_no_url_adds_no_feed() {
    assert_eq!(add_feed("no scheme here"), None);
    assert_eq!(add_feed("http://[not-an-address]/"), None);
    assert_eq!(add_feed(""), None);
    assert_eq!(add_feed("//missing.scheme"), None);
}
