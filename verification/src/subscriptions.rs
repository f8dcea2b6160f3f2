//! Event subscriptions of the frontend: which ones it asks for, how they read in status text,
//! and how the frontend reconciles what it is subscribed to with what its view needs.

use vstd::prelude::*;
use crate::events::{EventScope, EventSubscription, EventTopic};
use crate::navigation::AppView;
use crate::protocol::ClientMessage;
use crate::session::{optional_text, GraphRuntimeCaches};
use crate::keyed::KeyedList;
use crate::protocol::NodeDiagnosticSummary;
use crate::text::{str_equal, text_of};

verus! {

/// An event scope with its ids as characters.
pub enum ScopeView {
    Global,
    Graph(Seq<char>),
    Node(Seq<char>, Seq<char>),
    Element(Seq<char>, Seq<char>, Seq<char>),
}

/// The scope as characters.
pub open spec fn scope_view(scope: EventScope) -> ScopeView {
    match scope {
        EventScope::Global => ScopeView::Global,
        EventScope::Graph { graph_id } => ScopeView::Graph(graph_id@),
        EventScope::Node { graph_id, node_id } => ScopeView::Node(graph_id@, node_id@),
        EventScope::Element { graph_id, node_id, element_id } => ScopeView::Element(
            graph_id@,
            node_id@,
            element_id@,
        ),
    }
}

/// The text of a scope: `global`, `graph:<graph>`, `node:<graph>/<node>` or
/// `element:<graph>/<node>/<element>`.
pub open spec fn scope_text(scope: ScopeView) -> Seq<char> {
    match scope {
        ScopeView::Global => "global"@,
        ScopeView::Graph(g) => "graph:"@ + g,
        ScopeView::Node(g, n) => "node:"@ + g + "/"@ + n,
        ScopeView::Element(g, n, e) => "element:"@ + g + "/"@ + n + "/"@ + e,
    }
}

/// The text of a subscription: `<topic>@<scope>`.
pub open spec fn subscription_text(subscription: EventSubscription) -> Seq<char> {
    subscription.topic.label_text() + "@"@ + scope_text(scope_view(subscription.scope))
}

/// Formats a single subscription as `<topic>@<scope>`.
pub fn format_subscription(subscription: &EventSubscription) -> (text: String)
    ensures
        text@ == subscription_text(*subscription),
{
    let mut text = subscription.topic.label().to_owned();
    text.append("@");
    match &subscription.scope {
        EventScope::Global => {
            text.append("global");
        },
        EventScope::Graph { graph_id } => {
            text.append("graph:");
            text.append(graph_id.as_str());
        },
        EventScope::Node { graph_id, node_id } => {
            text.append("node:");
            text.append(graph_id.as_str());
            text.append("/");
            text.append(node_id.as_str());
        },
        EventScope::Element { graph_id, node_id, element_id } => {
            text.append("element:");
            text.append(graph_id.as_str());
            text.append("/");
            text.append(node_id.as_str());
            text.append("/");
            text.append(element_id.as_str());
        },
    }
    text
}

/// The texts of subscriptions joined by `, `.
pub open spec fn joined_texts(subscriptions: Seq<EventSubscription>) -> Seq<char>
    decreases subscriptions.len(),
{
    if subscriptions.len() == 0 {
        Seq::empty()
    } else if subscriptions.len() == 1 {
        subscription_text(subscriptions[0])
    } else {
        joined_texts(subscriptions.drop_last()) + ", "@ + subscription_text(subscriptions.last())
    }
}

/// The status text of a subscription list: `none` when empty, else the texts joined by `, `.
pub open spec fn subscriptions_text(subscriptions: Seq<EventSubscription>) -> Seq<char> {
    if subscriptions.len() == 0 {
        "none"@
    } else {
        joined_texts(subscriptions)
    }
}

/// Formats a subscription list for status text and debug logging.
pub fn format_subscriptions(subscriptions: &[EventSubscription]) -> (text: String)
    ensures
        text@ == subscriptions_text(subscriptions@),
{
    if subscriptions.len() == 0 {
        return "none".to_owned();
    }
    let mut text = format_subscription(&subscriptions[0]);
    let mut i: usize = 1;
    assert(subscriptions@.take(1).drop_last() =~= Seq::<EventSubscription>::empty());
    assert(joined_texts(subscriptions@.take(1)) == subscription_text(subscriptions@[0]));
    while i < subscriptions.len()
        invariant
            1 <= i <= subscriptions@.len(),
            text@ == joined_texts(subscriptions@.take(i as int)),
        decreases subscriptions@.len() - i,
    {
        assert(subscriptions@.take(i + 1).drop_last() =~= subscriptions@.take(i as int));
        text.append(", ");
        let next = format_subscription(&subscriptions[i]);
        text.append(next.as_str());
        i = i + 1;
    }
    assert(subscriptions@.take(i as int) =~= subscriptions@);
    text
}

/// The topics switched on, in topic order.
pub open spec fn enabled_topics(connection: bool, ping: bool, name: bool, metadata: bool) -> Seq<
    EventTopic,
> {
    (if connection {
        seq![EventTopic::Connection]
    } else {
        Seq::empty()
    }) + (if ping {
        seq![EventTopic::Ping]
    } else {
        Seq::empty()
    }) + (if name {
        seq![EventTopic::Name]
    } else {
        Seq::empty()
    }) + (if metadata {
        seq![EventTopic::GraphMetadataChanged]
    } else {
        Seq::empty()
    })
}

/// The scopes subscribed to: global, and the selected graph when there is one.
pub open spec fn subscribed_scopes(selected_graph_id: Option<Seq<char>>) -> Seq<ScopeView> {
    match selected_graph_id {
        Some(id) => seq![ScopeView::Global, ScopeView::Graph(id)],
        None => seq![ScopeView::Global],
    }
}

/// Each topic with each scope, topic by topic.
pub open spec fn subscription_plan(topics: Seq<EventTopic>, scopes: Seq<ScopeView>) -> Seq<
    (EventTopic, ScopeView),
>
    decreases topics.len(),
{
    if topics.len() == 0 {
        Seq::empty()
    } else {
        subscription_plan(topics.drop_last(), scopes) + scopes.map_values(
            |scope: ScopeView| (topics.last(), scope),
        )
    }
}

/// The subscriptions as topics and scope views.
pub open spec fn subscription_views(subscriptions: Seq<EventSubscription>) -> Seq<(EventTopic, ScopeView)> {
    subscriptions.map_values(|s: EventSubscription| (s.topic, scope_view(s.scope)))
}

fn push_topic(
    subscriptions: &mut Vec<EventSubscription>,
    topic: EventTopic,
    selected_graph_id: &Option<String>,
)
    ensures
        subscription_views(final(subscriptions)@) == subscription_views(old(subscriptions)@)
            + subscribed_scopes(
            match selected_graph_id {
                Some(id) => Some(id@),
                None => None,
            },
        ).map_values(|scope: ScopeView| (topic, scope)),
{
    let ghost before = subscription_views(subscriptions@);
    subscriptions.push(EventSubscription { topic, scope: EventScope::Global });
    match selected_graph_id {
        Some(id) => {
            subscriptions.push(EventSubscription { topic, scope: EventScope::Graph { graph_id: id.clone() } });
            assert(subscription_views(subscriptions@) =~= before + seq![ScopeView::Global, ScopeView::Graph(id@)].map_values(|scope: ScopeView| (topic, scope)));
        },
        None => {
            assert(subscription_views(subscriptions@) =~= before + seq![ScopeView::Global].map_values(|scope: ScopeView| (topic, scope)));
        },
    }
}

/// Builds the generic event subscriptions the frontend asks for: every switched-on topic, in
/// topic order, each globally and for the selected graph when there is one.
pub fn selected_subscriptions(
    subscribe_connection: bool,
    subscribe_ping: bool,
    subscribe_name: bool,
    subscribe_graph_metadata_changed: bool,
    selected_graph_id: Option<String>,
) -> (subscriptions: Vec<EventSubscription>)
    ensures
        subscription_views(subscriptions@) == subscription_plan(
            enabled_topics(
                subscribe_connection,
                subscribe_ping,
                subscribe_name,
                subscribe_graph_metadata_changed,
            ),
            subscribed_scopes(
                match selected_graph_id {
                    Some(id) => Some(id@),
                    None => None,
                },
            ),
        ),
{
    let ghost scopes = subscribed_scopes(text_of(selected_graph_id));
    let mut topics: Vec<EventTopic> = Vec::new();
    if subscribe_connection {
        topics.push(EventTopic::Connection);
    }
    if subscribe_ping {
        topics.push(EventTopic::Ping);
    }
    if subscribe_name {
        topics.push(EventTopic::Name);
    }
    if subscribe_graph_metadata_changed {
        topics.push(EventTopic::GraphMetadataChanged);
    }
    assert(topics@ =~= enabled_topics(
        subscribe_connection,
        subscribe_ping,
        subscribe_name,
        subscribe_graph_metadata_changed,
    ));
    let mut subscriptions: Vec<EventSubscription> = Vec::new();
    let mut i: usize = 0;
    assert(subscription_views(subscriptions@) =~= subscription_plan(topics@.take(0), scopes));
    while i < topics.len()
        invariant
            i <= topics@.len(),
            subscription_views(subscriptions@) == subscription_plan(topics@.take(i as int), scopes),
            scopes == subscribed_scopes(text_of(selected_graph_id)),
        decreases topics@.len() - i,
    {
        assert(topics@.take(i + 1).drop_last() =~= topics@.take(i as int));
        assert(topics@.take(i + 1).last() == topics@[i as int]);
        push_topic(&mut subscriptions, topics[i], &selected_graph_id);
        i = i + 1;
    }
    assert(topics@.take(i as int) =~= topics@);
    subscriptions
}


/// A subscription as its topic and scope view.
pub open spec fn subscription_view(subscription: EventSubscription) -> (EventTopic, ScopeView) {
    (subscription.topic, scope_view(subscription.scope))
}

/// The subscriptions of a list, as a set of topics and scope views.
pub open spec fn view_set(subscriptions: Seq<EventSubscription>) -> Set<(EventTopic, ScopeView)> {
    Set::new(
        |v: (EventTopic, ScopeView)|
            exists|i: int|
                0 <= i < subscriptions.len() && subscription_view(#[trigger] subscriptions[i]) == v,
    )
}

/// A request to the backend as plain values; subscription lists are taken as sets.
pub enum RequestView {
    Subscribe(Set<(EventTopic, ScopeView)>),
    Unsubscribe(Set<(EventTopic, ScopeView)>),
    GetGraphMetadata,
    GetNodeDefinitions,
    GetRuntimeStatuses,
    GetWledInstances,
    GetMqttBrokerConfigs,
    SubscribeGraphRuntime(Seq<char>),
    UnsubscribeGraphRuntime(Seq<char>),
    SubscribeGraphDiagnostics(Seq<char>),
    UnsubscribeGraphDiagnostics(Seq<char>),
    SubscribeNodeDiagnostics(Seq<char>, Seq<char>),
    UnsubscribeNodeDiagnostics(Seq<char>, Seq<char>),
    Other,
}

/// The request as plain values.
pub open spec fn request_view(request: ClientMessage) -> RequestView {
    match request {
        ClientMessage::Subscribe { subscriptions } => RequestView::Subscribe(
            view_set(subscriptions@),
        ),
        ClientMessage::Unsubscribe { subscriptions } => RequestView::Unsubscribe(
            view_set(subscriptions@),
        ),
        ClientMessage::GetGraphMetadata => RequestView::GetGraphMetadata,
        ClientMessage::GetNodeDefinitions => RequestView::GetNodeDefinitions,
        ClientMessage::GetRuntimeStatuses => RequestView::GetRuntimeStatuses,
        ClientMessage::GetWledInstances => RequestView::GetWledInstances,
        ClientMessage::GetMqttBrokerConfigs => RequestView::GetMqttBrokerConfigs,
        ClientMessage::SubscribeGraphRuntime { graph_id } => RequestView::SubscribeGraphRuntime(
            graph_id@,
        ),
        ClientMessage::UnsubscribeGraphRuntime { graph_id } => RequestView::UnsubscribeGraphRuntime(
            graph_id@,
        ),
        ClientMessage::SubscribeGraphDiagnostics { graph_id } => RequestView::SubscribeGraphDiagnostics(
            graph_id@,
        ),
        ClientMessage::UnsubscribeGraphDiagnostics { graph_id } =>
            RequestView::UnsubscribeGraphDiagnostics(graph_id@),
        ClientMessage::SubscribeNodeDiagnostics { graph_id, node_id } =>
            RequestView::SubscribeNodeDiagnostics(graph_id@, node_id@),
        ClientMessage::UnsubscribeNodeDiagnostics { graph_id, node_id } =>
            RequestView::UnsubscribeNodeDiagnostics(graph_id@, node_id@),
        _ => RequestView::Other,
    }
}

/// The requests as plain values, in order.
pub open spec fn request_views(requests: Seq<ClientMessage>) -> Seq<RequestView> {
    requests.map_values(|r: ClientMessage| request_view(r))
}

fn same_subscription(a: &EventSubscription, b: &EventSubscription) -> (same: bool)
    ensures
        same == (subscription_view(*a) == subscription_view(*b)),
{
    if a.topic != b.topic {
        return false;
    }
    match (&a.scope, &b.scope) {
        (EventScope::Global, EventScope::Global) => true,
        (EventScope::Graph { graph_id: g1 }, EventScope::Graph { graph_id: g2 }) => str_equal(
            g1.as_str(),
            g2.as_str(),
        ),
        (
            EventScope::Node { graph_id: g1, node_id: n1 },
            EventScope::Node { graph_id: g2, node_id: n2 },
        ) => str_equal(g1.as_str(), g2.as_str()) && str_equal(n1.as_str(), n2.as_str()),
        (
            EventScope::Element { graph_id: g1, node_id: n1, element_id: e1 },
            EventScope::Element { graph_id: g2, node_id: n2, element_id: e2 },
        ) => str_equal(g1.as_str(), g2.as_str()) && str_equal(n1.as_str(), n2.as_str())
            && str_equal(e1.as_str(), e2.as_str()),
        _ => false,
    }
}

fn copy_subscription(subscription: &EventSubscription) -> (copy: EventSubscription)
    ensures
        subscription_view(copy) == subscription_view(*subscription),
{
    let scope = match &subscription.scope {
        EventScope::Global => EventScope::Global,
        EventScope::Graph { graph_id } => EventScope::Graph { graph_id: graph_id.clone() },
        EventScope::Node { graph_id, node_id } => EventScope::Node {
            graph_id: graph_id.clone(),
            node_id: node_id.clone(),
        },
        EventScope::Element { graph_id, node_id, element_id } => EventScope::Element {
            graph_id: graph_id.clone(),
            node_id: node_id.clone(),
            element_id: element_id.clone(),
        },
    };
    EventSubscription { topic: subscription.topic, scope }
}

fn holds_subscription(list: &Vec<EventSubscription>, subscription: &EventSubscription) -> (found:
    bool)
    ensures
        found == view_set(list@).contains(subscription_view(*subscription)),
{
    let mut i: usize = 0;
    while i < list.len()
        invariant
            i <= list@.len(),
            forall|j: int|
                0 <= j < i ==> subscription_view(#[trigger] list@[j]) != subscription_view(
                    *subscription,
                ),
        decreases list@.len() - i,
    {
        if same_subscription(&list[i], subscription) {
            assert(view_set(list@).contains(subscription_view(*subscription)));
            return true;
        }
        i = i + 1;
    }
    false
}

proof fn lemma_view_set_push(list: Seq<EventSubscription>, s: EventSubscription)
    ensures
        view_set(list.push(s)) == view_set(list).insert(subscription_view(s)),
{
    let pushed = list.push(s);
    assert forall|v: (EventTopic, ScopeView)| view_set(pushed).contains(v) implies view_set(
        list,
    ).insert(subscription_view(s)).contains(v) by {
        let i = choose|i: int| 0 <= i < pushed.len() && subscription_view(#[trigger] pushed[i]) == v;
        if i < list.len() {
            assert(subscription_view(list[i]) == v);
        }
    }
    assert forall|v: (EventTopic, ScopeView)| view_set(list).insert(subscription_view(s)).contains(
        v,
    ) implies view_set(pushed).contains(v) by {
        if v == subscription_view(s) {
            assert(subscription_view(pushed[list.len() as int]) == v);
        } else {
            let i = choose|i: int| 0 <= i < list.len() && subscription_view(#[trigger] list[i]) == v;
            assert(subscription_view(pushed[i]) == v);
        }
    }
    assert(view_set(pushed) =~= view_set(list).insert(subscription_view(s)));
}

fn missing_from(source: &Vec<EventSubscription>, other: &Vec<EventSubscription>) -> (missing: Vec<
    EventSubscription,
>)
    ensures
        view_set(missing@) == view_set(source@).difference(view_set(other@)),
        missing@.len() > 0 <==> view_set(missing@) != Set::<(EventTopic, ScopeView)>::empty(),
{
    let mut missing: Vec<EventSubscription> = Vec::new();
    let mut i: usize = 0;
    assert(view_set(missing@) =~= view_set(source@.take(0)).difference(view_set(other@)));
    while i < source.len()
        invariant
            i <= source@.len(),
            view_set(missing@) == view_set(source@.take(i as int)).difference(view_set(other@)),
        decreases source@.len() - i,
    {
        proof {
            assert(source@.take(i + 1) =~= source@.take(i as int).push(source@[i as int]));
            lemma_view_set_push(source@.take(i as int), source@[i as int]);
        }
        if !holds_subscription(other, &source[i]) && !holds_subscription(&missing, &source[i]) {
            let copy = copy_subscription(&source[i]);
            proof {
                lemma_view_set_push(missing@, copy);
            }
            missing.push(copy);
        }
        assert(view_set(missing@) =~= view_set(source@.take(i + 1)).difference(view_set(other@)));
        i = i + 1;
    }
    assert(source@.take(i as int) =~= source@);
    proof {
        if missing@.len() > 0 {
            assert(view_set(missing@).contains(subscription_view(missing@[0])));
        } else {
            assert(view_set(missing@) =~= Set::<(EventTopic, ScopeView)>::empty());
        }
    }
    missing
}

/// The one-time requests still owed, in the order they are sent: graph metadata, node
/// definitions, runtime statuses, WLED instances and MQTT broker configurations.
pub open spec fn initial_requests(
    metadata_requested: bool,
    node_definitions_requested: bool,
    running_graphs_requested: bool,
    wled_instances_requested: bool,
    mqtt_brokers_requested: bool,
) -> Seq<RequestView> {
    (if metadata_requested {
        Seq::empty()
    } else {
        seq![RequestView::GetGraphMetadata]
    }) + (if node_definitions_requested {
        Seq::empty()
    } else {
        seq![RequestView::GetNodeDefinitions]
    }) + (if running_graphs_requested {
        Seq::empty()
    } else {
        seq![RequestView::GetRuntimeStatuses]
    }) + (if wled_instances_requested {
        Seq::empty()
    } else {
        seq![RequestView::GetWledInstances]
    }) + (if mqtt_brokers_requested {
        Seq::empty()
    } else {
        seq![RequestView::GetMqttBrokerConfigs]
    })
}

/// The requests that move the event subscriptions from `active` to `desired`: first dropping
/// those no longer wanted, then adding the new ones, each only when there is any.
pub open spec fn reconcile_requests(
    active: Set<(EventTopic, ScopeView)>,
    desired: Set<(EventTopic, ScopeView)>,
) -> Seq<RequestView> {
    let removed = active.difference(desired);
    let added = desired.difference(active);
    (if removed == Set::<(EventTopic, ScopeView)>::empty() {
        Seq::empty()
    } else {
        seq![RequestView::Unsubscribe(removed)]
    }) + (if added == Set::<(EventTopic, ScopeView)>::empty() {
        Seq::empty()
    } else {
        seq![RequestView::Subscribe(added)]
    })
}

/// The graph whose runtime updates and diagnostics the frontend follows: the selected graph while
/// the editor is shown.
pub open spec fn followed_graph(active_view: AppView, selected_graph_id: Option<Seq<char>>) -> Option<
    Seq<char>,
> {
    if active_view == AppView::Editor {
        selected_graph_id
    } else {
        None
    }
}

/// The node whose detailed diagnostics the frontend follows: the node of the open diagnostics
/// window in the selected graph, while the editor is shown.
pub open spec fn followed_node(
    active_view: AppView,
    selected_graph_id: Option<Seq<char>>,
    diagnostics_window_node_id: Option<Seq<char>>,
) -> Option<(Seq<char>, Seq<char>)> {
    if active_view == AppView::Editor {
        match (selected_graph_id, diagnostics_window_node_id) {
            (Some(graph_id), Some(node_id)) => Some((graph_id, node_id)),
            _ => None,
        }
    } else {
        None
    }
}

/// The requests that move a graph subscription (runtime updates, or diagnostics when
/// `diagnostics`) from `current` to `target`: unsubscribe from the old graph, then subscribe to
/// the new one; nothing when they agree.
pub open spec fn graph_switch(
    current: Option<Seq<char>>,
    target: Option<Seq<char>>,
    diagnostics: bool,
) -> Seq<RequestView> {
    if current == target {
        Seq::empty()
    } else {
        (match current {
            Some(previous) => seq![
                if diagnostics {
                    RequestView::UnsubscribeGraphDiagnostics(previous)
                } else {
                    RequestView::UnsubscribeGraphRuntime(previous)
                },
            ],
            None => Seq::empty(),
        }) + (match target {
            Some(graph_id) => seq![
                if diagnostics {
                    RequestView::SubscribeGraphDiagnostics(graph_id)
                } else {
                    RequestView::SubscribeGraphRuntime(graph_id)
                },
            ],
            None => Seq::empty(),
        })
    }
}

/// The requests that move the node diagnostics subscription from `current` to `target`.
pub open spec fn node_switch(
    current: Option<(Seq<char>, Seq<char>)>,
    target: Option<(Seq<char>, Seq<char>)>,
) -> Seq<RequestView> {
    if current == target {
        Seq::empty()
    } else {
        (match current {
            Some((graph_id, node_id)) => seq![
                RequestView::UnsubscribeNodeDiagnostics(graph_id, node_id),
            ],
            None => Seq::empty(),
        }) + (match target {
            Some((graph_id, node_id)) => seq![
                RequestView::SubscribeNodeDiagnostics(graph_id, node_id),
            ],
            None => Seq::empty(),
        })
    }
}

/// The texts of an optional pair of ids.
pub open spec fn pair_text(pair: Option<(String, String)>) -> Option<(Seq<char>, Seq<char>)> {
    match pair {
        Some((a, b)) => Some((a@, b@)),
        None => None,
    }
}

fn same_graph(current: &Option<String>, target: Option<&str>) -> (same: bool)
    ensures
        same == (text_of(*current) == optional_text(target)),
{
    match (current, target) {
        (Some(a), Some(b)) => str_equal(a.as_str(), b),
        (None, None) => true,
        _ => false,
    }
}

fn same_node(current: &Option<(String, String)>, target: Option<(&str, &str)>) -> (same: bool)
    ensures
        same == (pair_text(*current) == match target {
            Some((g, n)) => Some((g@, n@)),
            None => None::<(Seq<char>, Seq<char>)>,
        }),
{
    match (current, target) {
        (Some((g1, n1)), Some((g2, n2))) => str_equal(g1.as_str(), g2) && str_equal(n1.as_str(), n2),
        (None, None) => true,
        _ => false,
    }
}

fn request_once(requests: &mut Vec<ClientMessage>, requested: &mut bool, request: ClientMessage)
    ensures
        request_views(final(requests)@) == request_views(old(requests)@) + if *old(requested) {
            Seq::<RequestView>::empty()
        } else {
            seq![request_view(request)]
        },
        *final(requested),
{
    let ghost start = request_views(requests@);
    if !*requested {
        let ghost view = request_view(request);
        requests.push(request);
        *requested = true;
        assert(request_views(requests@) =~= start + seq![view]);
    } else {
        assert(request_views(requests@) =~= start + Seq::<RequestView>::empty());
    }
}

/// What the frontend has asked the backend to send it, kept between frames.
pub struct SubscriptionState {
    /// The generic event subscriptions currently held.
    pub active_event_subscriptions: Vec<EventSubscription>,
    /// Whether the event subscriptions have been set up on this connection.
    pub initialized: bool,
    pub metadata_requested_once: bool,
    pub node_definitions_requested_once: bool,
    pub running_graphs_requested_once: bool,
    pub wled_instances_requested_once: bool,
    pub mqtt_brokers_requested_once: bool,
    /// The graph whose runtime updates are subscribed to.
    pub runtime_graph_subscription: Option<String>,
    /// The graph whose diagnostics summaries are subscribed to.
    pub diagnostics_graph_subscription: Option<String>,
    /// The graph and node whose detailed diagnostics are subscribed to.
    pub diagnostics_node_subscription: Option<(String, String)>,
}

impl SubscriptionState {
    /// Forgets everything set up on the previous connection, so that the next sync subscribes
    /// and requests the initial data anew.
    pub fn reset_sync_state(&mut self)
        ensures
            final(self).active_event_subscriptions@.len() == 0,
            !final(self).initialized,
            !final(self).metadata_requested_once,
            !final(self).node_definitions_requested_once,
            !final(self).running_graphs_requested_once,
            !final(self).wled_instances_requested_once,
            !final(self).mqtt_brokers_requested_once,
            final(self).runtime_graph_subscription is None,
            final(self).diagnostics_graph_subscription is None,
            final(self).diagnostics_node_subscription is None,
    {
        self.active_event_subscriptions = Vec::new();
        self.initialized = false;
        self.metadata_requested_once = false;
        self.node_definitions_requested_once = false;
        self.running_graphs_requested_once = false;
        self.wled_instances_requested_once = false;
        self.mqtt_brokers_requested_once = false;
        self.runtime_graph_subscription = None;
        self.diagnostics_graph_subscription = None;
        self.diagnostics_node_subscription = None;
    }

    /// The requests a connected sync sends from this state for the wanted event subscriptions:
    /// the reconciliation when the subscriptions were never set up or differ from the wanted
    /// ones, then the one-time requests not yet made.
    pub open spec fn event_sync_requests(self, wanted: Set<(EventTopic, ScopeView)>) -> Seq<
        RequestView,
    > {
        let active = view_set(self.active_event_subscriptions@);
        (if !self.initialized || active != wanted {
            reconcile_requests(active, wanted)
        } else {
            Seq::empty()
        }) + initial_requests(
            self.metadata_requested_once,
            self.node_definitions_requested_once,
            self.running_graphs_requested_once,
            self.wled_instances_requested_once,
            self.mqtt_brokers_requested_once,
        )
    }

    /// Whether the event subscriptions are set up to exactly `wanted` and every one-time request
    /// has been made.
    pub open spec fn events_settled(self, wanted: Set<(EventTopic, ScopeView)>) -> bool {
        &&& self.initialized
        &&& view_set(self.active_event_subscriptions@) == wanted
        &&& self.metadata_requested_once
        &&& self.node_definitions_requested_once
        &&& self.running_graphs_requested_once
        &&& self.wled_instances_requested_once
        &&& self.mqtt_brokers_requested_once
    }

    /// The requests that move the graph-scoped subscriptions from this state to what the editor
    /// follows.
    pub open spec fn graph_sync_requests(
        self,
        active_view: AppView,
        selected_graph_id: Option<Seq<char>>,
        diagnostics_window_node_id: Option<Seq<char>>,
    ) -> Seq<RequestView> {
        let graph = followed_graph(active_view, selected_graph_id);
        graph_switch(text_of(self.runtime_graph_subscription), graph, false) + graph_switch(
            text_of(self.diagnostics_graph_subscription),
            graph,
            true,
        ) + node_switch(
            pair_text(self.diagnostics_node_subscription),
            followed_node(active_view, selected_graph_id, diagnostics_window_node_id),
        )
    }

    /// Whether the graph-scoped subscriptions are those the editor follows.
    pub open spec fn graph_subscriptions_settled(
        self,
        active_view: AppView,
        selected_graph_id: Option<Seq<char>>,
        diagnostics_window_node_id: Option<Seq<char>>,
    ) -> bool {
        let graph = followed_graph(active_view, selected_graph_id);
        &&& text_of(self.runtime_graph_subscription) == graph
        &&& text_of(self.diagnostics_graph_subscription) == graph
        &&& pair_text(self.diagnostics_node_subscription) == followed_node(
            active_view,
            selected_graph_id,
            diagnostics_window_node_id,
        )
    }

    /// Once the event subscriptions are settled on a wanted set, syncing again with the same set
    /// sends nothing.
    pub proof fn lemma_settled_event_sync_sends_nothing(self, wanted: Set<(EventTopic, ScopeView)>)
        requires
            self.events_settled(wanted),
        ensures
            self.event_sync_requests(wanted) == Seq::<RequestView>::empty(),
    {
        assert(self.event_sync_requests(wanted) =~= Seq::<RequestView>::empty());
    }

    /// Once the graph-scoped subscriptions follow the editor, reconciling again with the same
    /// view and selection sends nothing.
    pub proof fn lemma_settled_graph_sync_sends_nothing(
        self,
        active_view: AppView,
        selected_graph_id: Option<Seq<char>>,
        diagnostics_window_node_id: Option<Seq<char>>,
    )
        requires
            self.graph_subscriptions_settled(active_view, selected_graph_id, diagnostics_window_node_id),
        ensures
            self.graph_sync_requests(active_view, selected_graph_id, diagnostics_window_node_id)
                == Seq::<RequestView>::empty(),
    {
        assert(self.graph_sync_requests(active_view, selected_graph_id, diagnostics_window_node_id)
            =~= Seq::<RequestView>::empty());
    }

    /// Reconciles the graph-scoped subscriptions with the editor: runtime updates and
    /// diagnostics of the followed graph, and detailed diagnostics of the followed node; returns
    /// the requests to send, in order.
    ///
    /// While disconnected nothing happens. Switching the runtime subscription drops the cached
    /// live values; dropping a diagnostics subscription drops the cached diagnostic summaries.
    pub fn ensure_runtime_updates_subscription(
        &mut self,
        connected: bool,
        active_view: AppView,
        selected_graph_id: Option<&str>,
        diagnostics_window_node_id: Option<&str>,
        caches: &mut GraphRuntimeCaches,
    ) -> (requests: Vec<ClientMessage>)
        ensures
            !connected ==> requests@.len() == 0 && *final(self) == *old(self) && *final(caches)
                == *old(caches),
            connected ==> {
                let graph = followed_graph(active_view, optional_text(selected_graph_id));
                let runtime_before = text_of(old(self).runtime_graph_subscription);
                let diagnostics_before = text_of(old(self).diagnostics_graph_subscription);
                &&& request_views(requests@) == old(self).graph_sync_requests(
                    active_view,
                    optional_text(selected_graph_id),
                    optional_text(diagnostics_window_node_id),
                )
                &&& final(self).graph_subscriptions_settled(
                    active_view,
                    optional_text(selected_graph_id),
                    optional_text(diagnostics_window_node_id),
                )
                &&& if runtime_before != graph {
                    final(caches).runtime_node_values@ == Map::<
                        Seq<char>,
                        KeyedList<crate::value::InputValue>,
                    >::empty()
                } else {
                    final(caches).runtime_node_values == old(caches).runtime_node_values
                }
                &&& if diagnostics_before != graph && diagnostics_before is Some {
                    final(caches).node_diagnostic_summaries_by_graph@ == Map::<
                        Seq<char>,
                        KeyedList<NodeDiagnosticSummary>,
                    >::empty()
                } else {
                    final(caches).node_diagnostic_summaries_by_graph == old(
                        caches,
                    ).node_diagnostic_summaries_by_graph
                }
                &&& final(caches).graph_runtime_modes == old(caches).graph_runtime_modes
                &&& final(caches).plot_history == old(caches).plot_history
                &&& final(caches).node_diagnostic_details_by_graph == old(
                    caches,
                ).node_diagnostic_details_by_graph
                &&& final(caches).preview_frames_by_graph == old(caches).preview_frames_by_graph
                &&& final(self).active_event_subscriptions == old(self).active_event_subscriptions
                &&& final(self).initialized == old(self).initialized
            },
    {
        let mut requests: Vec<ClientMessage> = Vec::new();
        if !connected {
            return requests;
        }
        let editing = match active_view {
            AppView::Editor => true,
            AppView::Dashboard => false,
        };
        let desired: Option<&str> = if editing {
            selected_graph_id
        } else {
            None
        };
        let desired_node: Option<(&str, &str)> = if editing {
            match (selected_graph_id, diagnostics_window_node_id) {
                (Some(graph_id), Some(node_id)) => Some((graph_id, node_id)),
                _ => None,
            }
        } else {
            None
        };
        assert(optional_text(desired) == followed_graph(active_view, optional_text(selected_graph_id)));
        self.switch_runtime_subscription(desired, &mut requests, caches);
        self.switch_diagnostics_subscription(desired, &mut requests, caches);
        self.switch_node_diagnostics_subscription(desired_node, &mut requests);
        requests
    }

    fn switch_runtime_subscription(
        &mut self,
        desired: Option<&str>,
        requests: &mut Vec<ClientMessage>,
        caches: &mut GraphRuntimeCaches,
    )
        ensures
            request_views(final(requests)@) == request_views(old(requests)@) + graph_switch(
                text_of(old(self).runtime_graph_subscription),
                optional_text(desired),
                false,
            ),
            text_of(final(self).runtime_graph_subscription) == optional_text(desired),
            if text_of(old(self).runtime_graph_subscription) != optional_text(desired) {
                final(caches).runtime_node_values@ == Map::<
                    Seq<char>,
                    KeyedList<crate::value::InputValue>,
                >::empty()
            } else {
                final(caches).runtime_node_values == old(caches).runtime_node_values
            },
            final(caches).graph_runtime_modes == old(caches).graph_runtime_modes,
            final(caches).plot_history == old(caches).plot_history,
            final(caches).node_diagnostic_summaries_by_graph == old(
                caches,
            ).node_diagnostic_summaries_by_graph,
            final(caches).node_diagnostic_details_by_graph == old(
                caches,
            ).node_diagnostic_details_by_graph,
            final(caches).preview_frames_by_graph == old(caches).preview_frames_by_graph,
            final(self).diagnostics_graph_subscription == old(self).diagnostics_graph_subscription,
            final(self).diagnostics_node_subscription == old(self).diagnostics_node_subscription,
            final(self).active_event_subscriptions == old(self).active_event_subscriptions,
            final(self).initialized == old(self).initialized,
    {
        let ghost start = request_views(requests@);
        if !same_graph(&self.runtime_graph_subscription, desired) {
            if let Some(previous) = self.runtime_graph_subscription.take() {
                requests.push(ClientMessage::UnsubscribeGraphRuntime { graph_id: previous });
                caches.runtime_node_values.clear();
            }
            if let Some(graph_id) = desired {
                requests.push(ClientMessage::SubscribeGraphRuntime { graph_id: graph_id.to_owned() });
                self.runtime_graph_subscription = Some(graph_id.to_owned());
                caches.runtime_node_values.clear();
            }
        }
        assert(request_views(requests@) =~= start + graph_switch(
            text_of(old(self).runtime_graph_subscription),
            optional_text(desired),
            false,
        ));
    }

    fn switch_diagnostics_subscription(
        &mut self,
        desired: Option<&str>,
        requests: &mut Vec<ClientMessage>,
        caches: &mut GraphRuntimeCaches,
    )
        ensures
            request_views(final(requests)@) == request_views(old(requests)@) + graph_switch(
                text_of(old(self).diagnostics_graph_subscription),
                optional_text(desired),
                true,
            ),
            text_of(final(self).diagnostics_graph_subscription) == optional_text(desired),
            if text_of(old(self).diagnostics_graph_subscription) != optional_text(desired)
                && old(self).diagnostics_graph_subscription is Some {
                final(caches).node_diagnostic_summaries_by_graph@ == Map::<
                    Seq<char>,
                    KeyedList<NodeDiagnosticSummary>,
                >::empty()
            } else {
                final(caches).node_diagnostic_summaries_by_graph == old(
                    caches,
                ).node_diagnostic_summaries_by_graph
            },
            final(caches).graph_runtime_modes == old(caches).graph_runtime_modes,
            final(caches).runtime_node_values == old(caches).runtime_node_values,
            final(caches).plot_history == old(caches).plot_history,
            final(caches).node_diagnostic_details_by_graph == old(
                caches,
            ).node_diagnostic_details_by_graph,
            final(caches).preview_frames_by_graph == old(caches).preview_frames_by_graph,
            final(self).runtime_graph_subscription == old(self).runtime_graph_subscription,
            final(self).diagnostics_node_subscription == old(self).diagnostics_node_subscription,
            final(self).active_event_subscriptions == old(self).active_event_subscriptions,
            final(self).initialized == old(self).initialized,
    {
        let ghost start = request_views(requests@);
        if !same_graph(&self.diagnostics_graph_subscription, desired) {
            if let Some(previous) = self.diagnostics_graph_subscription.take() {
                requests.push(ClientMessage::UnsubscribeGraphDiagnostics { graph_id: previous });
                caches.node_diagnostic_summaries_by_graph.clear();
            }
            if let Some(graph_id) = desired {
                requests.push(
                    ClientMessage::SubscribeGraphDiagnostics { graph_id: graph_id.to_owned() },
                );
                self.diagnostics_graph_subscription = Some(graph_id.to_owned());
            }
        }
        assert(request_views(requests@) =~= start + graph_switch(
            text_of(old(self).diagnostics_graph_subscription),
            optional_text(desired),
            true,
        ));
    }

    fn switch_node_diagnostics_subscription(
        &mut self,
        desired: Option<(&str, &str)>,
        requests: &mut Vec<ClientMessage>,
    )
        ensures
            request_views(final(requests)@) == request_views(old(requests)@) + node_switch(
                pair_text(old(self).diagnostics_node_subscription),
                match desired {
                    Some((g, n)) => Some((g@, n@)),
                    None => None,
                },
            ),
            pair_text(final(self).diagnostics_node_subscription) == match desired {
                Some((g, n)) => Some((g@, n@)),
                None => None::<(Seq<char>, Seq<char>)>,
            },
            final(self).runtime_graph_subscription == old(self).runtime_graph_subscription,
            final(self).diagnostics_graph_subscription == old(self).diagnostics_graph_subscription,
            final(self).active_event_subscriptions == old(self).active_event_subscriptions,
            final(self).initialized == old(self).initialized,
    {
        let ghost start = request_views(requests@);
        if !same_node(&self.diagnostics_node_subscription, desired) {
            if let Some((graph_id, node_id)) = self.diagnostics_node_subscription.take() {
                requests.push(ClientMessage::UnsubscribeNodeDiagnostics { graph_id, node_id });
            }
            if let Some((graph_id, node_id)) = desired {
                requests.push(
                    ClientMessage::SubscribeNodeDiagnostics {
                        graph_id: graph_id.to_owned(),
                        node_id: node_id.to_owned(),
                    },
                );
                self.diagnostics_node_subscription = Some((graph_id.to_owned(), node_id.to_owned()));
            }
        }
        assert(request_views(requests@) =~= start + node_switch(
            pair_text(old(self).diagnostics_node_subscription),
            match desired {
                Some((g, n)) => Some((g@, n@)),
                None => None,
            },
        ));
    }

    fn request_initial_data(&mut self, requests: &mut Vec<ClientMessage>)
        ensures
            request_views(final(requests)@) == request_views(old(requests)@) + initial_requests(
                old(self).metadata_requested_once,
                old(self).node_definitions_requested_once,
                old(self).running_graphs_requested_once,
                old(self).wled_instances_requested_once,
                old(self).mqtt_brokers_requested_once,
            ),
            final(self).metadata_requested_once,
            final(self).node_definitions_requested_once,
            final(self).running_graphs_requested_once,
            final(self).wled_instances_requested_once,
            final(self).mqtt_brokers_requested_once,
            final(self).active_event_subscriptions == old(self).active_event_subscriptions,
            final(self).initialized == old(self).initialized,
            final(self).runtime_graph_subscription == old(self).runtime_graph_subscription,
            final(self).diagnostics_graph_subscription == old(self).diagnostics_graph_subscription,
            final(self).diagnostics_node_subscription == old(self).diagnostics_node_subscription,
    {
        let ghost start = request_views(requests@);
        request_once(requests, &mut self.metadata_requested_once, ClientMessage::GetGraphMetadata);
        request_once(
            requests,
            &mut self.node_definitions_requested_once,
            ClientMessage::GetNodeDefinitions,
        );
        request_once(
            requests,
            &mut self.running_graphs_requested_once,
            ClientMessage::GetRuntimeStatuses,
        );
        request_once(requests, &mut self.wled_instances_requested_once, ClientMessage::GetWledInstances);
        request_once(
            requests,
            &mut self.mqtt_brokers_requested_once,
            ClientMessage::GetMqttBrokerConfigs,
        );
        assert(request_views(requests@) =~= start + initial_requests(
            old(self).metadata_requested_once,
            old(self).node_definitions_requested_once,
            old(self).running_graphs_requested_once,
            old(self).wled_instances_requested_once,
            old(self).mqtt_brokers_requested_once,
        ));
    }

    /// Reconciles the generic event subscriptions with `desired` and sends the one-time data
    /// requests still owed on this connection; returns the requests to send, in order.
    ///
    /// While disconnected nothing happens. Otherwise, when the subscriptions were never set up or
    /// differ from `desired` (as sets), the ones no longer wanted are dropped and the new ones
    /// added, and `desired` becomes the active set; then each one-time request not yet made is
    /// made.
    pub fn sync_event_subscriptions_and_request_initial_data(
        &mut self,
        connected: bool,
        desired: Vec<EventSubscription>,
    ) -> (requests: Vec<ClientMessage>)
        ensures
            !connected ==> requests@.len() == 0 && *final(self) == *old(self),
            connected ==> {
                &&& request_views(requests@) == old(self).event_sync_requests(view_set(desired@))
                &&& final(self).events_settled(view_set(desired@))
                &&& final(self).runtime_graph_subscription == old(self).runtime_graph_subscription
                &&& final(self).diagnostics_graph_subscription == old(
                    self,
                ).diagnostics_graph_subscription
                &&& final(self).diagnostics_node_subscription == old(
                    self,
                ).diagnostics_node_subscription
            },
    {
        let mut requests: Vec<ClientMessage> = Vec::new();
        if !connected {
            return requests;
        }
        self.reconcile_event_subscriptions(desired, &mut requests);
        self.request_initial_data(&mut requests);
        requests
    }

    fn reconcile_event_subscriptions(
        &mut self,
        desired: Vec<EventSubscription>,
        requests: &mut Vec<ClientMessage>,
    )
        ensures
            ({
                let active = view_set(old(self).active_event_subscriptions@);
                let wanted = view_set(desired@);
                request_views(final(requests)@) == request_views(old(requests)@) + if !old(
                    self,
                ).initialized || active != wanted {
                    reconcile_requests(active, wanted)
                } else {
                    Seq::empty()
                }
            }),
            final(self).initialized,
            view_set(final(self).active_event_subscriptions@) == view_set(desired@),
            final(self).metadata_requested_once == old(self).metadata_requested_once,
            final(self).node_definitions_requested_once == old(self).node_definitions_requested_once,
            final(self).running_graphs_requested_once == old(self).running_graphs_requested_once,
            final(self).wled_instances_requested_once == old(self).wled_instances_requested_once,
            final(self).mqtt_brokers_requested_once == old(self).mqtt_brokers_requested_once,
            final(self).runtime_graph_subscription == old(self).runtime_graph_subscription,
            final(self).diagnostics_graph_subscription == old(self).diagnostics_graph_subscription,
            final(self).diagnostics_node_subscription == old(self).diagnostics_node_subscription,
    {
        let ghost start = request_views(requests@);
        let ghost active = view_set(self.active_event_subscriptions@);
        let ghost wanted = view_set(desired@);
        let removed = missing_from(&self.active_event_subscriptions, &desired);
        let added = missing_from(&desired, &self.active_event_subscriptions);
        proof {
            if removed@.len() == 0 && added@.len() == 0 {
                assert forall|v: (EventTopic, ScopeView)| active.contains(v) implies wanted.contains(
                    v,
                ) by {
                    assert(!active.difference(wanted).contains(v));
                }
                assert forall|v: (EventTopic, ScopeView)| wanted.contains(v) implies active.contains(
                    v,
                ) by {
                    assert(!wanted.difference(active).contains(v));
                }
                assert(active =~= wanted);
            }
            if active == wanted {
                assert(active.difference(wanted) =~= Set::<(EventTopic, ScopeView)>::empty());
                assert(wanted.difference(active) =~= Set::<(EventTopic, ScopeView)>::empty());
            }
        }
        if !self.initialized || removed.len() > 0 || added.len() > 0 {
            if removed.len() > 0 {
                requests.push(ClientMessage::Unsubscribe { subscriptions: removed });
            }
            if added.len() > 0 {
                requests.push(ClientMessage::Subscribe { subscriptions: added });
            }
            self.active_event_subscriptions = desired;
            self.initialized = true;
        }
        assert(request_views(requests@) =~= start + if !old(self).initialized || active != wanted {
            reconcile_requests(active, wanted)
        } else {
            Seq::empty()
        });
    }
}

} // verus!
