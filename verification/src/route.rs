//! The route table and the decisions of the bridge's control loop: which
//! discovery event opens a route, under which key, and which is passed over.

use crate::discovery::{EntityView, MatchedEntity};
use crate::filter::{allowed, is_allowed, pattern_of, AllowFilter};
use crate::qos::{writer_policy, QosHolder};
use crate::text::opt_text;
use vstd::hash_map::StringHashMap;
use vstd::prelude::*;
use vstd::string::StringExecFns;

verus! {

/// The key of a route: the scope, the partition if there is one, and the topic
/// name, with a slash between them.
pub open spec fn route_key(
    scope: Seq<char>,
    partition: Option<Seq<char>>,
    topic_name: Seq<char>,
) -> Seq<char> {
    match partition {
        Some(p) => scope + seq!['/'] + p + seq!['/'] + topic_name,
        None => scope + seq!['/'] + topic_name,
    }
}

/// Builds the key of a route.
pub fn make_route_key(scope: &str, partition: &Option<String>, topic_name: &str) -> (key: String)
    ensures
        key@ == route_key(scope@, opt_text(*partition), topic_name@),
{
    proof {
        reveal_strlit("/");
    }
    let mut key = String::from_str(scope);
    key.append("/");
    match partition {
        Some(p) => {
            key.append(p.as_str());
            key.append("/");
        },
        None => {},
    }
    key.append(topic_name);
    key
}

/// The endpoints of a route from the bus to the overlay: the overlay resource
/// and the bus reader, each `None` until it has been created.
#[derive(Clone, Copy, Debug, PartialEq, Eq)]
pub struct PublicationRoute {
    pub resource: Option<u64>,
    pub reader: Option<i32>,
}

/// The endpoint of a route from the overlay to the bus: the bus writer, `None`
/// until it has been created.
#[derive(Clone, Copy, Debug, PartialEq, Eq)]
pub struct SubscriptionRoute {
    pub writer: Option<i32>,
}

/// What the control loop has to do for one event.
#[derive(Debug, Clone, PartialEq, Eq)]
pub enum Action {
    /// Declare an overlay resource and a publisher for `key`, and create a bus
    /// reader on the topic with `qos` that forwards into the resource.
    OpenPublication {
        key: String,
        topic_name: String,
        topic_type: String,
        partition: Option<String>,
        keyless: bool,
        qos: QosHolder,
    },
    /// Create a bus writer on the topic with `qos`, and start forwarding what
    /// the overlay delivers for `key` into it.
    OpenSubscription {
        key: String,
        topic_name: String,
        topic_type: String,
        partition: Option<String>,
        keyless: bool,
        qos: QosHolder,
    },
    /// The key does not pass the allow filter: the event is dropped.
    Rejected { key: String },
    /// The key has its route already: nothing to do.
    AlreadyRouted { key: String },
    /// The event is noted and changes nothing.
    Noted,
}

/// What an `Action` says, with its texts as character sequences.
pub enum ActionView {
    OpenPublication {
        key: Seq<char>,
        topic_name: Seq<char>,
        topic_type: Seq<char>,
        partition: Option<Seq<char>>,
        keyless: bool,
        qos: QosHolder,
    },
    OpenSubscription {
        key: Seq<char>,
        topic_name: Seq<char>,
        topic_type: Seq<char>,
        partition: Option<Seq<char>>,
        keyless: bool,
        qos: QosHolder,
    },
    Rejected { key: Seq<char> },
    AlreadyRouted { key: Seq<char> },
    Noted,
}

impl View for Action {
    type V = ActionView;

    open spec fn view(&self) -> ActionView {
        match *self {
            Action::OpenPublication {
                key,
                topic_name,
                topic_type,
                partition,
                keyless,
                qos,
            } => ActionView::OpenPublication {
                key: key@,
                topic_name: topic_name@,
                topic_type: topic_type@,
                partition: opt_text(partition),
                keyless,
                qos,
            },
            Action::OpenSubscription {
                key,
                topic_name,
                topic_type,
                partition,
                keyless,
                qos,
            } => ActionView::OpenSubscription {
                key: key@,
                topic_name: topic_name@,
                topic_type: topic_type@,
                partition: opt_text(partition),
                keyless,
                qos,
            },
            Action::Rejected { key } => ActionView::Rejected { key: key@ },
            Action::AlreadyRouted { key } => ActionView::AlreadyRouted { key: key@ },
            Action::Noted => ActionView::Noted,
        }
    }
}

/// The state of the bridge: its scope, the pattern of its allow filter, and the
/// two route maps.
pub struct BridgeView {
    pub scope: Seq<char>,
    pub allow: Option<Seq<char>>,
    pub publications: Map<Seq<char>, PublicationRoute>,
    pub subscriptions: Map<Seq<char>, SubscriptionRoute>,
}

/// A route whose endpoints are still to be created.
pub open spec fn pending_publication() -> PublicationRoute {
    PublicationRoute { resource: None, reader: None }
}

/// A route whose endpoint is still to be created.
pub open spec fn pending_subscription() -> SubscriptionRoute {
    SubscriptionRoute { writer: None }
}

/// One step of the control loop: the state after the event, and what is to be
/// done for it.
///
/// A discovered entity whose key the filter refuses is rejected; one whose key
/// has a route of its direction already is passed over; any other opens the
/// route, which the table holds from then on. Nothing else changes the state.
pub open spec fn step(s: BridgeView, e: EntityView) -> (BridgeView, ActionView) {
    match e {
        EntityView::DiscoveredPublication { topic_name, topic_type, keyless, partition, qos } => {
            let key = route_key(s.scope, partition, topic_name);
            if !allowed(s.allow, key) {
                (s, ActionView::Rejected { key })
            } else if s.publications.contains_key(key) {
                (s, ActionView::AlreadyRouted { key })
            } else {
                (
                    BridgeView {
                        publications: s.publications.insert(key, pending_publication()),
                        ..s
                    },
                    ActionView::OpenPublication {
                        key,
                        topic_name,
                        topic_type,
                        partition,
                        keyless,
                        qos,
                    },
                )
            }
        },
        EntityView::DiscoveredSubscription { topic_name, topic_type, keyless, partition, qos } => {
            let key = route_key(s.scope, partition, topic_name);
            if !allowed(s.allow, key) {
                (s, ActionView::Rejected { key })
            } else if s.subscriptions.contains_key(key) {
                (s, ActionView::AlreadyRouted { key })
            } else {
                (
                    BridgeView {
                        subscriptions: s.subscriptions.insert(key, pending_subscription()),
                        ..s
                    },
                    ActionView::OpenSubscription {
                        key,
                        topic_name,
                        topic_type,
                        partition,
                        keyless,
                        qos: writer_policy(qos),
                    },
                )
            }
        },
        _ => (s, ActionView::Noted),
    }
}

/// The control loop over a run of events: the state after the last, and the
/// actions in the order of the events.
pub open spec fn run(s: BridgeView, events: Seq<EntityView>) -> (BridgeView, Seq<ActionView>)
    decreases events.len(),
{
    if events.len() == 0 {
        (s, Seq::empty())
    } else {
        let (next, action) = step(s, events[0]);
        let (last, actions) = run(next, events.drop_first());
        (last, seq![action] + actions)
    }
}

/// The key under which an event's route stands for a bridge with this scope.
pub open spec fn event_key(scope: Seq<char>, e: EntityView) -> Seq<char> {
    match e {
        EntityView::DiscoveredPublication { topic_name, partition, .. } => route_key(
            scope,
            partition,
            topic_name,
        ),
        EntityView::UndiscoveredPublication { topic_name, partition, .. } => route_key(
            scope,
            partition,
            topic_name,
        ),
        EntityView::DiscoveredSubscription { topic_name, partition, .. } => route_key(
            scope,
            partition,
            topic_name,
        ),
        EntityView::UndiscoveredSubscription { topic_name, partition, .. } => route_key(
            scope,
            partition,
            topic_name,
        ),
    }
}

/// Whether the table holds the route of the given direction under `key`.
pub open spec fn routed(s: BridgeView, key: Seq<char>, publication: bool) -> bool {
    if publication {
        s.publications.contains_key(key)
    } else {
        s.subscriptions.contains_key(key)
    }
}

/// Whether the action opens the route of the given direction under `key`.
pub open spec fn opens(a: ActionView, key: Seq<char>, publication: bool) -> bool {
    if publication {
        a matches ActionView::OpenPublication { key: k, .. } && k == key
    } else {
        a matches ActionView::OpenSubscription { key: k, .. } && k == key
    }
}

/// How many of the actions open the route of the given direction under `key`.
pub open spec fn opened(actions: Seq<ActionView>, key: Seq<char>, publication: bool) -> nat
    decreases actions.len(),
{
    if actions.len() == 0 {
        0
    } else {
        (if opens(actions[0], key, publication) {
            1nat
        } else {
            0nat
        }) + opened(actions.drop_first(), key, publication)
    }
}

proof fn lemma_routed_key_is_not_opened(
    s: BridgeView,
    events: Seq<EntityView>,
    key: Seq<char>,
    publication: bool,
)
    requires
        routed(s, key, publication),
    ensures
        opened(run(s, events).1, key, publication) == 0,
        routed(run(s, events).0, key, publication),
    decreases events.len(),
{
    if events.len() > 0 {
        let (next, action) = step(s, events[0]);
        let (last, actions) = run(next, events.drop_first());
        lemma_routed_key_is_not_opened(next, events.drop_first(), key, publication);
        assert((seq![action] + actions).drop_first() =~= actions);
    }
}

/// Whatever events arrive and in whatever state the bridge starts, the route of
/// one direction under one key is opened at most once, and never if the table
/// holds it already. Events with the same scope, partition and topic name have
/// the same key, so all of them together open at most one route of a direction.
pub proof fn route_opened_at_most_once(
    s: BridgeView,
    events: Seq<EntityView>,
    key: Seq<char>,
    publication: bool,
)
    ensures
        opened(run(s, events).1, key, publication) <= 1,
        routed(s, key, publication) ==> opened(run(s, events).1, key, publication) == 0,
    decreases events.len(),
{
    if routed(s, key, publication) {
        lemma_routed_key_is_not_opened(s, events, key, publication);
    } else if events.len() > 0 {
        let (next, action) = step(s, events[0]);
        let (last, actions) = run(next, events.drop_first());
        assert((seq![action] + actions).drop_first() =~= actions);
        if opens(action, key, publication) {
            lemma_routed_key_is_not_opened(next, events.drop_first(), key, publication);
        } else {
            route_opened_at_most_once(next, events.drop_first(), key, publication);
        }
    }
}

/// An action opens a route only for an event with that route's key, and the
/// table holds the route from then on.
pub proof fn opened_route_is_held(s: BridgeView, e: EntityView, key: Seq<char>, publication: bool)
    requires
        opens(step(s, e).1, key, publication),
    ensures
        key == event_key(s.scope, e),
        allowed(s.allow, key),
        !routed(s, key, publication),
        routed(step(s, e).0, key, publication),
{
}

/// A discovered entity whose key the filter refuses creates no route: the state
/// stays as it was and the action is `Rejected`. The events after it are handled
/// as if it had not arrived.
pub proof fn rejected_event_is_skipped(s: BridgeView, e: EntityView, rest: Seq<EntityView>)
    requires
        e is DiscoveredPublication || e is DiscoveredSubscription,
        !allowed(s.allow, event_key(s.scope, e)),
    ensures
        step(s, e) == (s, ActionView::Rejected { key: event_key(s.scope, e) }),
        run(s, seq![e] + rest).0 == run(s, rest).0,
        run(s, seq![e] + rest).1 == seq![ActionView::Rejected { key: event_key(s.scope, e) }] + run(
            s,
            rest,
        ).1,
{
    assert((seq![e] + rest).drop_first() =~= rest);
}

/// A step never removes a route, and never changes the scope or the filter.
pub proof fn routes_are_kept(s: BridgeView, e: EntityView, key: Seq<char>, publication: bool)
    ensures
        step(s, e).0.scope == s.scope,
        step(s, e).0.allow == s.allow,
        routed(s, key, publication) ==> routed(step(s, e).0, key, publication),
{
}

/// The state and the routes of the bridge's control loop.
pub struct Bridge {
    scope: String,
    allow: Option<AllowFilter>,
    publications: StringHashMap<PublicationRoute>,
    subscriptions: StringHashMap<SubscriptionRoute>,
}

impl View for Bridge {
    type V = BridgeView;

    closed spec fn view(&self) -> BridgeView {
        BridgeView {
            scope: self.scope@,
            allow: pattern_of(self.allow),
            publications: self.publications@,
            subscriptions: self.subscriptions@,
        }
    }
}

impl Bridge {
    /// A bridge without routes.
    pub fn new(scope: String, allow: Option<AllowFilter>) -> (bridge: Bridge)
        ensures
            bridge@ == (BridgeView {
                scope: scope@,
                allow: pattern_of(allow),
                publications: Map::empty(),
                subscriptions: Map::empty(),
            }),
    {
        Bridge {
            scope,
            allow,
            publications: StringHashMap::new(),
            subscriptions: StringHashMap::new(),
        }
    }

    /// The scope that every key starts with.
    pub fn scope(&self) -> (s: &str)
        ensures
            s@ == self@.scope,
    {
        self.scope.as_str()
    }

    /// The route from the bus to the overlay under `key`, if there is one.
    pub fn publication_route(&self, key: &str) -> (route: Option<PublicationRoute>)
        ensures
            route == if self@.publications.contains_key(key@) {
                Some(self@.publications[key@])
            } else {
                None
            },
    {
        match self.publications.get(key) {
            Some(route) => Some(*route),
            None => None,
        }
    }

    /// The route from the overlay to the bus under `key`, if there is one.
    pub fn subscription_route(&self, key: &str) -> (route: Option<SubscriptionRoute>)
        ensures
            route == if self@.subscriptions.contains_key(key@) {
                Some(self@.subscriptions[key@])
            } else {
                None
            },
    {
        match self.subscriptions.get(key) {
            Some(route) => Some(*route),
            None => None,
        }
    }

    /// Handles one event: decides what is to be done for it and, where it opens
    /// a route, enters the route in the table.
    pub fn handle(&mut self, event: MatchedEntity) -> (action: Action)
        ensures
            (final(self)@, action@) == step(old(self)@, event@),
    {
        match event {
            MatchedEntity::DiscoveredPublication {
                topic_name,
                topic_type,
                keyless,
                partition,
                qos,
            } => {
                let key = make_route_key(self.scope.as_str(), &partition, topic_name.as_str());
                if !is_allowed(&self.allow, key.as_str()) {
                    Action::Rejected { key }
                } else if self.publications.contains_key(key.as_str()) {
                    Action::AlreadyRouted { key }
                } else {
                    self.publications.insert(
                        key.clone(),
                        PublicationRoute { resource: None, reader: None },
                    );
                    Action::OpenPublication { key, topic_name, topic_type, partition, keyless, qos }
                }
            },
            MatchedEntity::DiscoveredSubscription {
                topic_name,
                topic_type,
                keyless,
                partition,
                qos,
            } => {
                let key = make_route_key(self.scope.as_str(), &partition, topic_name.as_str());
                if !is_allowed(&self.allow, key.as_str()) {
                    Action::Rejected { key }
                } else if self.subscriptions.contains_key(key.as_str()) {
                    Action::AlreadyRouted { key }
                } else {
                    self.subscriptions.insert(key.clone(), SubscriptionRoute { writer: None });
                    Action::OpenSubscription {
                        key,
                        topic_name,
                        topic_type,
                        partition,
                        keyless,
                        qos: qos.for_writer(),
                    }
                }
            },
            MatchedEntity::UndiscoveredPublication { .. } => Action::Noted,
            MatchedEntity::UndiscoveredSubscription { .. } => Action::Noted,
        }
    }

    /// Records the overlay resource and the bus reader that were created for
    /// the route under `key`. Returns whether the table holds that route; if it
    /// does not, nothing changes.
    pub fn publication_opened(&mut self, key: &str, resource: u64, reader: i32) -> (known: bool)
        ensures
            known == old(self)@.publications.contains_key(key@),
            known ==> final(self)@ == (BridgeView {
                publications: old(self)@.publications.insert(
                    key@,
                    PublicationRoute { resource: Some(resource), reader: Some(reader) },
                ),
                ..old(self)@
            }),
            !known ==> final(self)@ == old(self)@,
    {
        if self.publications.contains_key(key) {
            self.publications.insert(
                key.to_owned(),
                PublicationRoute { resource: Some(resource), reader: Some(reader) },
            );
            true
        } else {
            false
        }
    }

    /// Records the bus writer that was created for the route under `key`.
    /// Returns whether the table holds that route; if it does not, nothing
    /// changes.
    pub fn subscription_opened(&mut self, key: &str, writer: i32) -> (known: bool)
        ensures
            known == old(self)@.subscriptions.contains_key(key@),
            known ==> final(self)@ == (BridgeView {
                subscriptions: old(self)@.subscriptions.insert(
                    key@,
                    SubscriptionRoute { writer: Some(writer) },
                ),
                ..old(self)@
            }),
            !known ==> final(self)@ == old(self)@,
    {
        if self.subscriptions.contains_key(key) {
            self.subscriptions.insert(key.to_owned(), SubscriptionRoute { writer: Some(writer) });
            true
        } else {
            false
        }
    }

    /// Drops the route from the bus to the overlay under `key`, whose endpoints
    /// could not be created: the key is routed no longer, so that a later
    /// discovery opens it anew. No other route changes. Returns whether the
    /// table held the route.
    pub fn publication_failed(&mut self, key: &str) -> (known: bool)
        ensures
            known == old(self)@.publications.contains_key(key@),
            final(self)@ == (BridgeView {
                publications: old(self)@.publications.remove(key@),
                ..old(self)@
            }),
    {
        let known = self.publications.contains_key(key);
        self.publications.remove(key);
        known
    }

    /// Drops the route from the overlay to the bus under `key`, whose endpoint
    /// could not be created: the key is routed no longer, so that a later
    /// discovery opens it anew. No other route changes. Returns whether the
    /// table held the route.
    pub fn subscription_failed(&mut self, key: &str) -> (known: bool)
        ensures
            known == old(self)@.subscriptions.contains_key(key@),
            final(self)@ == (BridgeView {
                subscriptions: old(self)@.subscriptions.remove(key@),
                ..old(self)@
            }),
    {
        let known = self.subscriptions.contains_key(key);
        self.subscriptions.remove(key);
        known
    }
}

/// The state after the route of one direction under `key` has failed.
pub open spec fn without_route(s: BridgeView, key: Seq<char>, publication: bool) -> BridgeView {
    if publication {
        BridgeView { publications: s.publications.remove(key), ..s }
    } else {
        BridgeView { subscriptions: s.subscriptions.remove(key), ..s }
    }
}

/// A failed route leaves every other route as it was, and is itself routed no
/// longer: the next discovery of its key that the filter allows opens it anew.
pub proof fn failed_route_is_forgotten(
    s: BridgeView,
    key: Seq<char>,
    publication: bool,
    other: Seq<char>,
    other_publication: bool,
)
    requires
        other != key || other_publication != publication,
    ensures
        !routed(without_route(s, key, publication), key, publication),
        routed(without_route(s, key, publication), other, other_publication) == routed(
            s,
            other,
            other_publication,
        ),
        without_route(s, key, publication).scope == s.scope,
        without_route(s, key, publication).allow == s.allow,
{
}

} // verus!
