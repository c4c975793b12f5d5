//! Events: the record that the provider is given for each.

use crate::activity::activity_id;
use crate::activity::activity_of;
use crate::layer::EtwLayer;
use vstd::prelude::*;

verus! {

/// The keyword under which events are written.
pub const EVENT_KEYWORD: u64 = 1;

/// The span in which an event happens.
#[derive(Clone, Copy, Debug)]
pub struct EventSpan {
    /// The span's number.
    pub id: u64,
    /// The number of the span that encloses it.
    pub parent: Option<u64>,
}

/// The number of the span in which an event happens, 0 where there is none.
pub open spec fn current_span(span: Option<EventSpan>) -> u64 {
    match span {
        Some(inside) => inside.id,
        None => 0,
    }
}

/// The number of the span that encloses the span in which an event happens, 0
/// where there is none.
pub open spec fn enclosing_span(span: Option<EventSpan>) -> u64 {
    match span {
        Some(EventSpan { parent: Some(parent), .. }) => parent,
        _ => 0,
    }
}

/// What the provider is to write for an event, beside the event's own fields.
pub struct EventRecord<'p, 'n, P, T> {
    pub provider: &'p P,
    pub timestamp: T,
    pub activity_id: [u8; 16],
    pub related_activity_id: [u8; 16],
    pub name: &'n str,
    pub level: u8,
    pub keyword: u64,
}

/// All that the provider is to write for an event.
pub struct EventWrites<'p, 'n, P, T> {
    /// The normal event.
    pub normal: EventRecord<'p, 'n, P, T>,
    /// The extra event, to be written in the Common Schema 4.0 mapping.
    pub common_schema: Option<EventRecord<'p, 'n, P, T>>,
}

/// Whether `record` is the record of an event: its activity is the span in which
/// it happens, and the related activity is the span that encloses that one.
pub open spec fn is_event_record<'p, 'n, P, T>(
    record: EventRecord<'p, 'n, P, T>,
    provider: Option<&'p P>,
    timestamp: T,
    span: Option<EventSpan>,
    name: &'n str,
    level: u8,
) -> bool {
    &&& provider == Some(record.provider)
    &&& record.timestamp == timestamp
    &&& record.activity_id@ == activity_of(current_span(span))
    &&& record.related_activity_id@ == activity_of(enclosing_span(span))
    &&& record.name == name
    &&& record.level == level
    &&& record.keyword == EVENT_KEYWORD
}

/// The extra record that a layer has written for an event whose normal record is
/// `normal`: the same, where Common Schema events are on.
pub open spec fn extra_record<'p, 'n, P, T>(
    layer: EtwLayer,
    normal: EventRecord<'p, 'n, P, T>,
) -> Option<EventRecord<'p, 'n, P, T>> {
    if layer.emit_common_schema_events {
        Some(normal)
    } else {
        None
    }
}

impl EtwLayer {
    /// What to write for an event: the normal record and, where Common Schema
    /// events are on, the same once more in the Common Schema mapping.
    pub fn on_event<'p, 'n, P, T: Copy>(
        &self,
        provider: Option<&'p P>,
        timestamp: T,
        span: Option<EventSpan>,
        name: &'n str,
        level: u8,
    ) -> (writes: EventWrites<'p, 'n, P, T>)
        requires
            provider is Some,
        ensures
            is_event_record(writes.normal, provider, timestamp, span, name, level),
            writes.common_schema == extra_record(*self, writes.normal),
    {
        let current: u64 = match span {
            Some(inside) => inside.id,
            None => 0,
        };
        let parent: u64 = match span {
            Some(inside) => match inside.parent {
                Some(parent) => parent,
                None => 0,
            },
            None => 0,
        };
        let normal = EventRecord {
            provider: provider.unwrap(),
            timestamp,
            activity_id: activity_id(current),
            related_activity_id: activity_id(parent),
            name,
            level,
            keyword: EVENT_KEYWORD,
        };
        let common_schema: Option<EventRecord<'p, 'n, P, T>> = if self.emit_common_schema_events {
            Some(
                EventRecord {
                    provider: normal.provider,
                    timestamp: normal.timestamp,
                    activity_id: normal.activity_id,
                    related_activity_id: normal.related_activity_id,
                    name: normal.name,
                    level: normal.level,
                    keyword: normal.keyword,
                },
            )
        } else {
            None
        };
        EventWrites { normal, common_schema }
    }
}

} // verus!
