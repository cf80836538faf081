use zplugin_dds::discovery::{
    classify, is_discarded, is_keyless, on_data, DiscoverySample, MatchedEntity, MAX_SAMPLES,
};
use zplugin_dds::qos::{History, HistoryKind, IgnoreLocalKind, QosHolder};

const LOCAL: u64 = 1000;

fn qos() -> QosHolder {
    QosHolder { handle: 5, reliability: None, history: None, ignore_local: None }
}

fn mirrored() -> QosHolder {
    QosHolder {
        handle: 5,
        reliability: None,
        history: Some(History { kind: HistoryKind::KeepAll, depth: 0 }),
        ignore_local: Some(IgnoreLocalKind::Participant),
    }
}

fn key(last: u8) -> [u8; 16] {
    let mut k = [0u8; 16];
    k[15] = last;
    k
}

fn sample(topic: &str, partitions: &[&str]) -> DiscoverySample {
    DiscoverySample {
        valid_data: true,
        alive: true,
        key: key(2),
        participant_instance_handle: 7,
        topic_name: topic.to_string(),
        topic_type: "std_msgs::String".to_string(),
        partitions: partitions.iter().map(|p| p.to_string()).collect(),
        qos: qos(),
    }
}

#[test]
fn keyless_is_decided_by_the_last_key_byte() {
    for last in 0..=255u8 {
        assert_eq!(is_keyless(&key(last)), last == 3 || last == 4, "{}", last);
    }
}

#[test]
fn keyless_ignores_the_other_key_bytes() {
    let mut k = [3u8; 16];
    k[15] = 2;
    assert!(!is_keyless(&k));
    let mut k = [9u8; 16];
    k[15] = 4;
    assert!(is_keyless(&k));
}

#[test]
fn two_partitions_give_two_events() {
    let events = classify(&sample("Chatter", &["a", "b"]), LOCAL, true);
    let expected = |p: &str| MatchedEntity::DiscoveredPublication {
        topic_name: "Chatter".to_string(),
        topic_type: "std_msgs::String".to_string(),
        keyless: false,
        partition: Some(p.to_string()),
        qos: mirrored(),
    };
    assert_eq!(events, vec![expected("a"), expected("b")]);
}

#[test]
fn no_partition_gives_one_event_without_partition() {
    let events = classify(&sample("Chatter", &[]), LOCAL, false);
    assert_eq!(
        events,
        vec![MatchedEntity::DiscoveredSubscription {
            topic_name: "Chatter".to_string(),
            topic_type: "std_msgs::String".to_string(),
            keyless: false,
            partition: None,
            qos: mirrored(),
        }]
    );
}

#[test]
fn keyless_entity_is_marked_in_its_events() {
    let mut s = sample("Chatter", &["p"]);
    s.key = key(3);
    match &classify(&s, LOCAL, true)[0] {
        MatchedEntity::DiscoveredPublication { keyless, .. } => assert!(*keyless),
        other => panic!("{:?}", other),
    }
}

#[test]
fn dead_instances_give_undiscovered_events() {
    let mut s = sample("Chatter", &["a", "b"]);
    s.alive = false;
    assert_eq!(
        classify(&s, LOCAL, true),
        vec![
            MatchedEntity::UndiscoveredPublication {
                topic_name: "Chatter".to_string(),
                topic_type: "std_msgs::String".to_string(),
                partition: Some("a".to_string()),
            },
            MatchedEntity::UndiscoveredPublication {
                topic_name: "Chatter".to_string(),
                topic_type: "std_msgs::String".to_string(),
                partition: Some("b".to_string()),
            },
        ]
    );
    s.partitions.clear();
    assert_eq!(
        classify(&s, LOCAL, false),
        vec![MatchedEntity::UndiscoveredSubscription {
            topic_name: "Chatter".to_string(),
            topic_type: "std_msgs::String".to_string(),
            partition: None,
        }]
    );
}

#[test]
fn internal_topics_are_discarded() {
    for topic in ["DCPSPublication", "DCPSSubscription", "my_DCPS_topic"] {
        let s = sample(topic, &["a"]);
        assert!(is_discarded(&s, LOCAL));
        assert!(classify(&s, LOCAL, true).is_empty());
    }
}

#[test]
fn own_participant_is_discarded() {
    let mut s = sample("Chatter", &["a"]);
    s.participant_instance_handle = LOCAL;
    assert!(is_discarded(&s, LOCAL));
    assert!(classify(&s, LOCAL, true).is_empty());
    assert!(!is_discarded(&s, LOCAL + 1));
    assert_eq!(classify(&s, LOCAL + 1, true).len(), 1);
}

#[test]
fn samples_without_data_are_discarded() {
    let mut s = sample("Chatter", &[]);
    s.valid_data = false;
    assert!(is_discarded(&s, LOCAL));
    assert!(classify(&s, LOCAL, true).is_empty());
}

#[test]
fn on_data_classifies_the_samples_in_order() {
    let mut hidden = sample("Hidden", &[]);
    hidden.participant_instance_handle = LOCAL;
    let samples = vec![sample("A", &["x", "y"]), hidden, sample("B", &[])];
    let topics: Vec<(String, Option<String>)> = on_data(&samples, LOCAL, true)
        .into_iter()
        .map(|e| match e {
            MatchedEntity::DiscoveredPublication { topic_name, partition, .. } => (topic_name, partition),
            other => panic!("{:?}", other),
        })
        .collect();
    assert_eq!(
        topics,
        vec![
            ("A".to_string(), Some("x".to_string())),
            ("A".to_string(), Some("y".to_string())),
            ("B".to_string(), None),
        ]
    );
}

#[test]
fn on_data_loses_no_sample() {
    assert_eq!(MAX_SAMPLES, 32);
    let samples: Vec<DiscoverySample> = (0..40).map(|i| sample(&format!("T{}", i), &[])).collect();
    let events = on_data(&samples, LOCAL, true);
    assert_eq!(events.len(), 40);
    match &events[39] {
        MatchedEntity::DiscoveredPublication { topic_name, .. } => assert_eq!(topic_name, "T39"),
        other => panic!("{:?}", other),
    }
    assert!(on_data(&Vec::new(), LOCAL, true).is_empty());
}
