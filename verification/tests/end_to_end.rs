use std::cell::RefCell;
use std::rc::Rc;
use zplugin_dds::coders::{CoderChoice, Coders, IdentityCoder, Writer};
use zplugin_dds::discovery::{classify, DiscoverySample};
use zplugin_dds::forward::{forward_samples, Sample};
use zplugin_dds::route::{Action, Bridge, PublicationRoute};
use zplugin_dds::{MatchedEntity, QosHolder};

struct Overlay {
    published: Rc<RefCell<Vec<(String, Vec<u8>)>>>,
    resource: String,
}

impl Writer for Overlay {
    fn write(&self, buf: &[u8]) {
        self.published.borrow_mut().push((self.resource.clone(), buf.to_vec()));
    }
}

fn chatter(participant: u64) -> DiscoverySample {
    DiscoverySample {
        valid_data: true,
        alive: true,
        key: [0; 16],
        participant_instance_handle: participant,
        topic_name: "Chatter".to_string(),
        topic_type: "std_msgs::String".to_string(),
        partitions: vec![],
        qos: QosHolder { handle: participant, reliability: None, history: None, ignore_local: None },
    }
}

#[test]
fn discovered_publication_is_bridged_unchanged() {
    let mut bridge = Bridge::new("robot1".to_string(), None);
    let coders = Coders::new();
    let published = Rc::new(RefCell::new(Vec::new()));

    let mut events = classify(&chatter(11), 1, true);
    assert_eq!(events.len(), 1);
    let (key, topic_name, topic_type) = match bridge.handle(events.remove(0)) {
        Action::OpenPublication { key, topic_name, topic_type, keyless, .. } => {
            assert!(!keyless);
            (key, topic_name, topic_type)
        }
        other => panic!("{:?}", other),
    };
    assert_eq!(key, "robot1/Chatter");
    assert_eq!(coders.new_encoder(&topic_name, &topic_type), Ok(CoderChoice::Identity));
    let encoder = IdentityCoder::new(Overlay { published: published.clone(), resource: key.clone() });
    assert!(bridge.publication_opened(&key, 1, 100));

    let taken = vec![
        Sample { valid_data: true, payload: vec![0, 1, 0, 0, 5, 0, 0, 0, b'h', b'e', b'l', b'l', 0] },
        Sample { valid_data: true, payload: vec![] },
    ];
    assert_eq!(forward_samples(&encoder, taken), 2);
    assert_eq!(
        *published.borrow(),
        vec![
            ("robot1/Chatter".to_string(), vec![0, 1, 0, 0, 5, 0, 0, 0, b'h', b'e', b'l', b'l', 0]),
            ("robot1/Chatter".to_string(), vec![]),
        ]
    );
}

#[test]
fn second_participant_on_the_same_topic_opens_nothing() {
    let mut bridge = Bridge::new("robot1".to_string(), None);
    let mut opened = 0;
    let mut noticed: Vec<String> = Vec::new();
    for participant in [11u64, 12, 13] {
        for event in classify(&chatter(participant), 1, true) {
            match bridge.handle(event) {
                Action::OpenPublication { key, .. } => {
                    opened += 1;
                    assert!(bridge.publication_opened(&key, 1, 100));
                }
                Action::AlreadyRouted { key } => noticed.push(key),
                other => panic!("{:?}", other),
            }
        }
    }
    assert_eq!(opened, 1);
    assert_eq!(noticed, vec!["robot1/Chatter".to_string(), "robot1/Chatter".to_string()]);
    assert_eq!(
        bridge.publication_route("robot1/Chatter"),
        Some(PublicationRoute { resource: Some(1), reader: Some(100) })
    );
}

#[test]
fn the_own_participant_is_never_bridged() {
    let mut bridge = Bridge::new("robot1".to_string(), None);
    for event in classify(&chatter(1), 1, true) {
        bridge.handle(event);
    }
    assert_eq!(bridge.publication_route("robot1/Chatter"), None);
}

#[test]
fn every_partition_gets_its_own_route() {
    let mut bridge = Bridge::new("s".to_string(), None);
    let mut sample = chatter(11);
    sample.partitions = vec!["a".to_string(), "b".to_string()];
    let keys: Vec<String> = classify(&sample, 1, false)
        .into_iter()
        .map(|event: MatchedEntity| match bridge.handle(event) {
            Action::OpenSubscription { key, .. } => key,
            other => panic!("{:?}", other),
        })
        .collect();
    assert_eq!(keys, vec!["s/a/Chatter".to_string(), "s/b/Chatter".to_string()]);
}
