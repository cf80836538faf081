//! Classification of discovery samples into the events that drive the bridge.

use crate::qos::{mirrored, QosHolder};
use crate::text::{contains, occurs_in, opt_text};
use vstd::prelude::*;

verus! {

/// The most samples that one callback asks the bus for.
pub const MAX_SAMPLES: usize = 32;

/// An announcement that the bridge has to act on, or to note.
#[derive(Debug, Clone, PartialEq, Eq)]
pub enum MatchedEntity {
    DiscoveredPublication {
        topic_name: String,
        topic_type: String,
        keyless: bool,
        partition: Option<String>,
        qos: QosHolder,
    },
    UndiscoveredPublication { topic_name: String, topic_type: String, partition: Option<String> },
    DiscoveredSubscription {
        topic_name: String,
        topic_type: String,
        keyless: bool,
        partition: Option<String>,
        qos: QosHolder,
    },
    UndiscoveredSubscription { topic_name: String, topic_type: String, partition: Option<String> },
}

/// What a `MatchedEntity` says, with its texts as character sequences.
pub enum EntityView {
    DiscoveredPublication {
        topic_name: Seq<char>,
        topic_type: Seq<char>,
        keyless: bool,
        partition: Option<Seq<char>>,
        qos: QosHolder,
    },
    UndiscoveredPublication {
        topic_name: Seq<char>,
        topic_type: Seq<char>,
        partition: Option<Seq<char>>,
    },
    DiscoveredSubscription {
        topic_name: Seq<char>,
        topic_type: Seq<char>,
        keyless: bool,
        partition: Option<Seq<char>>,
        qos: QosHolder,
    },
    UndiscoveredSubscription {
        topic_name: Seq<char>,
        topic_type: Seq<char>,
        partition: Option<Seq<char>>,
    },
}

impl View for MatchedEntity {
    type V = EntityView;

    open spec fn view(&self) -> EntityView {
        match *self {
            MatchedEntity::DiscoveredPublication {
                topic_name,
                topic_type,
                keyless,
                partition,
                qos,
            } => EntityView::DiscoveredPublication {
                topic_name: topic_name@,
                topic_type: topic_type@,
                keyless,
                partition: opt_text(partition),
                qos,
            },
            MatchedEntity::UndiscoveredPublication {
                topic_name,
                topic_type,
                partition,
            } => EntityView::UndiscoveredPublication {
                topic_name: topic_name@,
                topic_type: topic_type@,
                partition: opt_text(partition),
            },
            MatchedEntity::DiscoveredSubscription {
                topic_name,
                topic_type,
                keyless,
                partition,
                qos,
            } => EntityView::DiscoveredSubscription {
                topic_name: topic_name@,
                topic_type: topic_type@,
                keyless,
                partition: opt_text(partition),
                qos,
            },
            MatchedEntity::UndiscoveredSubscription {
                topic_name,
                topic_type,
                partition,
            } => EntityView::UndiscoveredSubscription {
                topic_name: topic_name@,
                topic_type: topic_type@,
                partition: opt_text(partition),
            },
        }
    }
}

/// What a list of events says.
pub open spec fn entity_views(events: Seq<MatchedEntity>) -> Seq<EntityView> {
    Seq::new(events.len(), |i: int| events[i]@)
}

/// One sample of a discovery topic, as the bus delivered it.
#[derive(Debug, Clone, PartialEq, Eq)]
pub struct DiscoverySample {
    /// Whether the sample carries data at all.
    pub valid_data: bool,
    /// Whether the announced instance is alive.
    pub alive: bool,
    /// The instance key of the announced entity.
    pub key: [u8; 16],
    /// The participant that the entity belongs to.
    pub participant_instance_handle: u64,
    pub topic_name: String,
    pub topic_type: String,
    pub partitions: Vec<String>,
    pub qos: QosHolder,
}

/// The text that marks the bus's own topics.
pub open spec fn internal_marker() -> Seq<char> {
    seq!['D', 'C', 'P', 'S']
}

/// A key denotes a keyless entity when its last byte is 3 or 4.
pub open spec fn keyless(key: Seq<u8>) -> bool {
    key[15] == 3 || key[15] == 4
}

/// A sample gives no event when it carries no data, announces one of the bus's
/// own topics, or comes from the bridge's own participant.
pub open spec fn discarded(sample: DiscoverySample, local_participant: u64) -> bool {
    ||| !sample.valid_data
    ||| occurs_in(sample.topic_name@, internal_marker())
    ||| sample.participant_instance_handle == local_participant
}

/// The event for a sample in one partition, or in none.
pub open spec fn entity(
    sample: DiscoverySample,
    publication: bool,
    partition: Option<Seq<char>>,
) -> EntityView {
    if sample.alive {
        if publication {
            EntityView::DiscoveredPublication {
                topic_name: sample.topic_name@,
                topic_type: sample.topic_type@,
                keyless: keyless(sample.key@),
                partition,
                qos: mirrored(sample.qos),
            }
        } else {
            EntityView::DiscoveredSubscription {
                topic_name: sample.topic_name@,
                topic_type: sample.topic_type@,
                keyless: keyless(sample.key@),
                partition,
                qos: mirrored(sample.qos),
            }
        }
    } else {
        if publication {
            EntityView::UndiscoveredPublication {
                topic_name: sample.topic_name@,
                topic_type: sample.topic_type@,
                partition,
            }
        } else {
            EntityView::UndiscoveredSubscription {
                topic_name: sample.topic_name@,
                topic_type: sample.topic_type@,
                partition,
            }
        }
    }
}

/// The events that one sample gives: none if it is discarded, one without a
/// partition if it names none, else one for each partition, in their order.
pub open spec fn classified(
    sample: DiscoverySample,
    local_participant: u64,
    publication: bool,
) -> Seq<EntityView> {
    if discarded(sample, local_participant) {
        Seq::empty()
    } else if sample.partitions.len() == 0 {
        seq![entity(sample, publication, None)]
    } else {
        Seq::new(
            sample.partitions@.len(),
            |i: int| entity(sample, publication, Some(sample.partitions@[i]@)),
        )
    }
}

/// The events that a run of samples gives, sample by sample.
pub open spec fn classified_batch(
    samples: Seq<DiscoverySample>,
    local_participant: u64,
    publication: bool,
) -> Seq<EntityView>
    decreases samples.len(),
{
    if samples.len() == 0 {
        Seq::empty()
    } else {
        classified_batch(samples.drop_last(), local_participant, publication) + classified(
            samples.last(),
            local_participant,
            publication,
        )
    }
}

/// Whether the key denotes a keyless entity.
pub fn is_keyless(key: &[u8; 16]) -> (r: bool)
    ensures
        r == keyless(key@),
        r <==> key@[15] == 3 || key@[15] == 4,
{
    key[15] == 3 || key[15] == 4
}

/// Whether the sample gives no event.
pub fn is_discarded(sample: &DiscoverySample, local_participant: u64) -> (r: bool)
    ensures
        r == discarded(*sample, local_participant),
{
    proof {
        reveal_strlit("DCPS");
        assert("DCPS"@ =~= internal_marker());
    }
    !sample.valid_data || contains(sample.topic_name.as_str(), "DCPS")
        || sample.participant_instance_handle == local_participant
}

fn make_entity(sample: &DiscoverySample, publication: bool, partition: Option<String>) -> (e:
    MatchedEntity)
    ensures
        e@ == entity(*sample, publication, opt_text(partition)),
{
    if sample.alive {
        if publication {
            MatchedEntity::DiscoveredPublication {
                topic_name: sample.topic_name.clone(),
                topic_type: sample.topic_type.clone(),
                keyless: is_keyless(&sample.key),
                partition,
                qos: sample.qos.mirror(),
            }
        } else {
            MatchedEntity::DiscoveredSubscription {
                topic_name: sample.topic_name.clone(),
                topic_type: sample.topic_type.clone(),
                keyless: is_keyless(&sample.key),
                partition,
                qos: sample.qos.mirror(),
            }
        }
    } else {
        if publication {
            MatchedEntity::UndiscoveredPublication {
                topic_name: sample.topic_name.clone(),
                topic_type: sample.topic_type.clone(),
                partition,
            }
        } else {
            MatchedEntity::UndiscoveredSubscription {
                topic_name: sample.topic_name.clone(),
                topic_type: sample.topic_type.clone(),
                partition,
            }
        }
    }
}

fn classify_into(
    sample: &DiscoverySample,
    local_participant: u64,
    publication: bool,
    out: &mut Vec<MatchedEntity>,
)
    ensures
        entity_views(final(out)@) == entity_views(old(out)@) + classified(
            *sample,
            local_participant,
            publication,
        ),
{
    let ghost before = entity_views(out@);
    if is_discarded(sample, local_participant) {
        return ;
    }
    if sample.partitions.len() == 0 {
        out.push(make_entity(sample, publication, None));
        return ;
    }
    let ghost all = classified(*sample, local_participant, publication);
    let mut k: usize = 0;
    while k < sample.partitions.len()
        invariant
            k <= sample.partitions.len(),
            sample.partitions.len() > 0,
            !discarded(*sample, local_participant),
            all == classified(*sample, local_participant, publication),
            entity_views(out@) == before + all.take(k as int),
        decreases sample.partitions.len() - k,
    {
        let partition = sample.partitions[k].clone();
        let event = make_entity(sample, publication, Some(partition));
        let ghost held = out@;
        out.push(event);
        assert(entity_views(out@) =~= entity_views(held).push(event@));
        k += 1;
    }
}

/// Classifies one discovery sample. `publication` says whether the sample came
/// from the publication topic (else from the subscription topic).
pub fn classify(sample: &DiscoverySample, local_participant: u64, publication: bool) -> (events:
    Vec<MatchedEntity>)
    ensures
        entity_views(events@) == classified(*sample, local_participant, publication),
{
    let mut events: Vec<MatchedEntity> = Vec::new();
    classify_into(sample, local_participant, publication, &mut events);
    assert(Seq::<EntityView>::empty() + classified(*sample, local_participant, publication)
        =~= classified(*sample, local_participant, publication));
    events
}

/// Handles what one callback took from a discovery topic: classifies every
/// sample in its order and returns the events to send on.
pub fn on_data(samples: &Vec<DiscoverySample>, local_participant: u64, publication: bool) -> (events:
    Vec<MatchedEntity>)
    ensures
        entity_views(events@) == classified_batch(samples@, local_participant, publication),
{
    let mut events: Vec<MatchedEntity> = Vec::new();
    let mut i: usize = 0;
    while i < samples.len()
        invariant
            i <= samples.len(),
            entity_views(events@) == classified_batch(
                samples@.take(i as int),
                local_participant,
                publication,
            ),
        decreases samples.len() - i,
    {
        assert(samples@.take(i + 1).drop_last() =~= samples@.take(i as int));
        classify_into(&samples[i], local_participant, publication, &mut events);
        i += 1;
    }
    assert(samples@.take(samples.len() as int) =~= samples@);
    events
}

/// A sample that is not discarded and names partitions gives exactly one event
/// for each of them, in their order, and the events differ in the partition alone.
pub proof fn one_event_per_partition(
    sample: DiscoverySample,
    local_participant: u64,
    publication: bool,
)
    requires
        !discarded(sample, local_participant),
        sample.partitions.len() > 0,
    ensures
        classified(sample, local_participant, publication).len() == sample.partitions.len(),
        forall|i: int|
            0 <= i < sample.partitions.len() ==> #[trigger] classified(
                sample,
                local_participant,
                publication,
            )[i] == entity(sample, publication, Some(sample.partitions@[i]@)),
{
}

/// A sample that is not discarded and names no partition gives exactly one
/// event, without a partition.
pub proof fn one_event_without_partition(
    sample: DiscoverySample,
    local_participant: u64,
    publication: bool,
)
    requires
        !discarded(sample, local_participant),
        sample.partitions.len() == 0,
    ensures
        classified(sample, local_participant, publication) == seq![
            entity(sample, publication, None),
        ],
{
}

} // verus!
