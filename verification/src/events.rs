//! Kubernetes events of an application and their summary.

use vstd::prelude::*;
use crate::tally::{counts_view, string_views, tally, tally_keys};

verus! {

/// A list of events.
#[derive(Debug, Clone)]
pub struct EventList {
    pub metadata: Option<ListMeta>,
    pub items: Vec<Event>,
}

/// Metadata of a list response.
#[derive(Debug, Clone)]
pub struct ListMeta {
    pub resource_version: Option<String>,
    pub continue_token: Option<String>,
    pub remaining_item_count: Option<i64>,
}

/// A report of something that happened in the cluster. The field
/// `event_type` is the event's `type` (`Normal`, `Warning`, ...).
#[derive(Debug, Clone)]
pub struct Event {
    pub metadata: Option<EventMetadata>,
    pub involved_object: Option<ObjectReference>,
    pub reason: Option<String>,
    pub message: Option<String>,
    pub source: Option<EventSource>,
    pub first_timestamp: Option<String>,
    pub last_timestamp: Option<String>,
    pub count: Option<i32>,
    pub event_type: Option<String>,
    pub event_time: Option<String>,
    pub action: Option<String>,
    pub related: Option<ObjectReference>,
    pub reporting_component: Option<String>,
    pub reporting_instance: Option<String>,
    pub series: Option<EventSeries>,
}

/// Metadata of an event.
#[derive(Debug, Clone)]
pub struct EventMetadata {
    pub name: Option<String>,
    pub namespace: Option<String>,
    pub uid: Option<String>,
    pub resource_version: Option<String>,
    pub creation_timestamp: Option<String>,
}

/// A reference to a Kubernetes object.
#[derive(Debug, Clone)]
pub struct ObjectReference {
    pub kind: Option<String>,
    pub namespace: Option<String>,
    pub name: Option<String>,
    pub uid: Option<String>,
    pub api_version: Option<String>,
    pub resource_version: Option<String>,
    pub field_path: Option<String>,
}

/// The component that reported an event.
#[derive(Debug, Clone)]
pub struct EventSource {
    pub component: Option<String>,
    pub host: Option<String>,
}

/// A series of repeated events.
#[derive(Debug, Clone)]
pub struct EventSeries {
    pub count: Option<i32>,
    pub last_observed_time: Option<String>,
}

/// Counts by type and reason, and the compact events.
#[derive(Debug, Clone)]
pub struct EventListSummary {
    pub total_events: usize,
    pub events_by_type: Vec<(String, usize)>,
    pub events_by_reason: Vec<(String, usize)>,
    pub events: Vec<EventSummary>,
}

/// The compact view of one event.
#[derive(Debug, Clone)]
pub struct EventSummary {
    pub name: Option<String>,
    pub event_type: Option<String>,
    pub reason: Option<String>,
    pub message: Option<String>,
    pub involved_object_kind: Option<String>,
    pub involved_object_name: Option<String>,
    pub involved_object_namespace: Option<String>,
    pub source_component: Option<String>,
    pub count: Option<i32>,
    pub first_timestamp: Option<String>,
    pub last_timestamp: Option<String>,
}

/// The types of the events that have one, in order.
pub open spec fn event_types(events: Seq<Event>) -> Seq<Seq<char>>
    decreases events.len(),
{
    if events.len() == 0 {
        Seq::empty()
    } else {
        let rest = event_types(events.drop_last());
        match events.last().event_type {
            Some(t) => rest.push(t@),
            None => rest,
        }
    }
}

/// The reasons of the events that have one, in order.
pub open spec fn event_reasons(events: Seq<Event>) -> Seq<Seq<char>>
    decreases events.len(),
{
    if events.len() == 0 {
        Seq::empty()
    } else {
        let rest = event_reasons(events.drop_last());
        match events.last().reason {
            Some(r) => rest.push(r@),
            None => rest,
        }
    }
}

impl EventSummary {
    /// What the compact view of an event reports.
    pub open spec fn summarizes(self, event: Event) -> bool {
        &&& self.name == match event.metadata {
            Some(m) => m.name,
            None => None,
        }
        &&& self.event_type == event.event_type
        &&& self.reason == event.reason
        &&& self.message == event.message
        &&& self.involved_object_kind == match event.involved_object {
            Some(o) => o.kind,
            None => None,
        }
        &&& self.involved_object_name == match event.involved_object {
            Some(o) => o.name,
            None => None,
        }
        &&& self.involved_object_namespace == match event.involved_object {
            Some(o) => o.namespace,
            None => None,
        }
        &&& self.source_component == match event.source {
            Some(s) => s.component,
            None => None,
        }
        &&& self.count == event.count
        &&& self.first_timestamp == event.first_timestamp
        &&& self.last_timestamp == event.last_timestamp
    }

    /// Builds the compact view of an event.
    pub fn from_event(event: Event) -> (r: Self)
        ensures
            r.summarizes(event),
    {
        let (involved_object_kind, involved_object_name, involved_object_namespace) = match event.involved_object {
            Some(o) => (o.kind, o.name, o.namespace),
            None => (None, None, None),
        };
        EventSummary {
            name: match event.metadata {
                Some(m) => m.name,
                None => None,
            },
            event_type: event.event_type,
            reason: event.reason,
            message: event.message,
            involved_object_kind,
            involved_object_name,
            involved_object_namespace,
            source_component: match event.source {
                Some(s) => s.component,
                None => None,
            },
            count: event.count,
            first_timestamp: event.first_timestamp,
            last_timestamp: event.last_timestamp,
        }
    }
}

impl EventListSummary {
    /// What the summary of an event list reports.
    pub open spec fn summarizes(self, list: EventList) -> bool {
        &&& self.total_events == list.items@.len()
        &&& counts_view(self.events_by_type@) == tally(event_types(list.items@))
        &&& counts_view(self.events_by_reason@) == tally(event_reasons(list.items@))
        &&& self.events@.len() == list.items@.len()
        &&& forall|i: int| 0 <= i < self.events@.len() ==> #[trigger] self.events@[i].summarizes(list.items@[i])
    }

    /// Summarizes an event list: counts by type and by reason, and each event.
    pub fn from_list(list: EventList) -> (r: Self)
        ensures
            r.summarizes(list),
    {
        let ghost items = list.items@;
        let total_events = list.items.len();
        let mut types: Vec<String> = Vec::new();
        let mut reasons: Vec<String> = Vec::new();
        for i in 0..list.items.len()
            invariant
                items == list.items@,
                string_views(types@) == event_types(items.take(i as int)),
                string_views(reasons@) == event_reasons(items.take(i as int)),
        {
            proof {
                assert(items.take(i + 1).drop_last() =~= items.take(i as int));
            }
            match &list.items[i].event_type {
                Some(t) => {
                    types.push(t.clone());
                },
                None => {},
            }
            match &list.items[i].reason {
                Some(r) => {
                    reasons.push(r.clone());
                },
                None => {},
            }
            assert(string_views(types@) =~= event_types(items.take(i + 1)));
            assert(string_views(reasons@) =~= event_reasons(items.take(i + 1)));
        }
        assert(items.take(items.len() as int) =~= items);
        let events_by_type = tally_keys(&types);
        let events_by_reason = tally_keys(&reasons);
        let mut events: Vec<EventSummary> = Vec::new();
        for ev in it: list.items.into_iter()
            invariant
                it.seq() == items,
                events@.len() == it.index(),
                forall|j: int| 0 <= j < events@.len() ==> #[trigger] events@[j].summarizes(items[j]),
        {
            events.push(EventSummary::from_event(ev));
        }
        EventListSummary { total_events, events_by_type, events_by_reason, events }
    }
}

} // verus!
