//! What is written for events and spans, and what is kept with a span, whatever
//! the layer's configuration is.

use crate::activity::activity_id;
use crate::activity::mark_activity;
use crate::activity::set_activity;
use crate::event::EventSpan;
use crate::event::EventWrites;
use crate::laws::law_activity_holds_span;
use crate::layer::EtwLayer;
use crate::span::SlotLabels;
use crate::span::SlotsMut;
use crate::span::SpanAttributes;
use crate::span::SpanData;
use crate::span::SpanEdge;
use crate::span::SpanLookup;
use crate::span::SpanRecord;
use vstd::bytes::spec_u64_from_le_bytes;
use vstd::bytes::spec_u64_to_le_bytes;
use vstd::prelude::*;

verus! {

/// The parts of an activity that is set.
proof fn lemma_set_activity_parts(span: u64)
    ensures
        set_activity(span).len() == 16,
        set_activity(span)[0] == 1,
        forall|i: int| 1 <= i < 8 ==> set_activity(span)[i] == 0,
        spec_u64_from_le_bytes(set_activity(span).subrange(8, 16)) == span,
{
    vstd::bytes::lemma_auto_spec_u64_to_from_le_bytes();
    assert(set_activity(span).subrange(8, 16) =~= spec_u64_to_le_bytes(span));
}

/// The activity of a span is a byte of 1, seven bytes of 0, and the number of the
/// span in little-endian order. Without a span it is sixteen bytes of 0.
pub proof fn law_activity_bytes(span: u64, id: [u8; 16], i: int)
    requires
        call_ensures(activity_id, (span,), id),
    ensures
        span != 0 ==> id@[0] == 1,
        1 <= i < 8 ==> id@[i] == 0,
        spec_u64_from_le_bytes(id@.subrange(8, 16)) == span,
        span == 0 && 0 <= i < 16 ==> id@[i] == 0,
{
    lemma_set_activity_parts(span);
    law_activity_holds_span(span);
}

/// The activity of a span that is known to exist is marked with a byte of 1 even
/// where the span's number is 0.
pub proof fn law_marked_activity_bytes(span: u64, id: [u8; 16], i: int)
    requires
        call_ensures(mark_activity, (span,), id),
    ensures
        id@[0] == 1,
        1 <= i < 8 ==> id@[i] == 0,
        spec_u64_from_le_bytes(id@.subrange(8, 16)) == span,
{
    lemma_set_activity_parts(span);
}

/// At every level, an event in a span is written under the activity that holds the
/// number of that span, and is related to the activity that holds the number of the
/// span that encloses it, or to none where nothing does.
pub proof fn law_event_in_span<'p, 'n, P, T: Copy>(
    layer: EtwLayer,
    provider: Option<&'p P>,
    timestamp: T,
    id: u64,
    parent: Option<u64>,
    name: &'n str,
    level: u8,
    writes: EventWrites<'p, 'n, P, T>,
    i: int,
)
    requires
        call_ensures(
            EtwLayer::on_event::<P, T>,
            (&layer, provider, timestamp, Some(EventSpan { id, parent }), name, level),
            writes,
        ),
    ensures
        id != 0 ==> writes.normal.activity_id@[0] == 1,
        1 <= i < 8 ==> writes.normal.activity_id@[i] == 0,
        spec_u64_from_le_bytes(writes.normal.activity_id@.subrange(8, 16)) == id,
        id == 0 && 0 <= i < 16 ==> writes.normal.activity_id@[i] == 0,
        parent matches Some(number) && number != 0 ==> writes.normal.related_activity_id@[0] == 1,
        1 <= i < 8 ==> writes.normal.related_activity_id@[i] == 0,
        parent matches Some(number) ==> spec_u64_from_le_bytes(
            writes.normal.related_activity_id@.subrange(8, 16),
        ) == number,
        (parent is None || parent == Some(0u64)) && 0 <= i < 16
            ==> writes.normal.related_activity_id@[i] == 0,
{
    lemma_set_activity_parts(id);
    law_activity_holds_span(id);
    if parent is Some {
        lemma_set_activity_parts(parent->0);
        law_activity_holds_span(parent->0);
    }
}

/// At every level, an event outside of every span is written under no activity and
/// is related to none.
pub proof fn law_event_outside_spans<'p, 'n, P, T: Copy>(
    layer: EtwLayer,
    provider: Option<&'p P>,
    timestamp: T,
    name: &'n str,
    level: u8,
    writes: EventWrites<'p, 'n, P, T>,
    i: int,
)
    requires
        call_ensures(
            EtwLayer::on_event::<P, T>,
            (&layer, provider, timestamp, None::<EventSpan>, name, level),
            writes,
        ),
        0 <= i < 16,
    ensures
        writes.normal.activity_id@[i] == 0,
        writes.normal.related_activity_id@[i] == 0,
{
}

/// The provider that was lent is given the event's own time, name and level, under
/// the keyword 1.
pub proof fn law_event_is_passed_on<'p, 'n, P, T: Copy>(
    layer: EtwLayer,
    provider: &'p P,
    timestamp: T,
    span: Option<EventSpan>,
    name: &'n str,
    level: u8,
    writes: EventWrites<'p, 'n, P, T>,
)
    requires
        call_ensures(
            EtwLayer::on_event::<P, T>,
            (&layer, Some(provider), timestamp, span, name, level),
            writes,
        ),
    ensures
        writes.normal.provider == provider,
        writes.normal.timestamp == timestamp,
        writes.normal.name@ == name@,
        writes.normal.level == level,
        writes.normal.keyword == 1,
{
}

/// There is an extra event exactly where Common Schema events are on, and it is
/// written to the same provider with the same time, activities, name, level and
/// keyword as the normal one.
pub proof fn law_extra_event<'p, 'n, P, T: Copy>(
    layer: EtwLayer,
    provider: Option<&'p P>,
    timestamp: T,
    span: Option<EventSpan>,
    name: &'n str,
    level: u8,
    writes: EventWrites<'p, 'n, P, T>,
)
    requires
        call_ensures(
            EtwLayer::on_event::<P, T>,
            (&layer, provider, timestamp, span, name, level),
            writes,
        ),
    ensures
        writes.common_schema is Some <==> layer.emit_common_schema_events,
        writes.common_schema matches Some(extra) ==> {
            &&& extra.provider == writes.normal.provider
            &&& extra.timestamp == writes.normal.timestamp
            &&& extra.activity_id@ == writes.normal.activity_id@
            &&& extra.related_activity_id@ == writes.normal.related_activity_id@
            &&& extra.name@ == writes.normal.name@
            &&& extra.level == writes.normal.level
            &&& extra.keyword == writes.normal.keyword
        },
{
}

/// The activities of an event depend on nothing but the span in which it happens:
/// two layers give events of the same span the same activities, whatever their
/// providers, times, names and levels.
pub proof fn law_event_activity_depends_on_span_alone<'p, 'n, 'q, 'm, P, T: Copy, Q, U: Copy>(
    layer: EtwLayer,
    provider: Option<&'p P>,
    timestamp: T,
    name: &'n str,
    level: u8,
    writes: EventWrites<'p, 'n, P, T>,
    other_layer: EtwLayer,
    other_provider: Option<&'q Q>,
    other_timestamp: U,
    other_name: &'m str,
    other_level: u8,
    other_writes: EventWrites<'q, 'm, Q, U>,
    span: Option<EventSpan>,
)
    requires
        call_ensures(
            EtwLayer::on_event::<P, T>,
            (&layer, provider, timestamp, span, name, level),
            writes,
        ),
        call_ensures(
            EtwLayer::on_event::<Q, U>,
            (&other_layer, other_provider, other_timestamp, span, other_name, other_level),
            other_writes,
        ),
    ensures
        writes.normal.activity_id@ == other_writes.normal.activity_id@,
        writes.normal.related_activity_id@ == other_writes.normal.related_activity_id@,
{
}

/// Something is kept with a new span exactly where the span is found.
pub proof fn law_new_span_is_kept_where_found<V>(
    layer: EtwLayer,
    labels: SlotLabels,
    id: u64,
    attributes: SpanAttributes,
    field_names: Option<Vec<&'static str>>,
    kept: Option<SpanData<V>>,
)
    requires
        call_ensures(
            EtwLayer::on_new_span::<V>,
            (&layer, labels, id, attributes, field_names),
            kept,
        ),
    ensures
        kept is Some <==> field_names is Some,
{
}

/// A new span is kept with an activity that is marked and holds its own number,
/// whatever its attributes, its fields and its slots.
pub proof fn law_new_span_activity<V>(
    layer: EtwLayer,
    labels: SlotLabels,
    id: u64,
    attributes: SpanAttributes,
    names: Vec<&'static str>,
    data: SpanData<V>,
    i: int,
)
    requires
        call_ensures(
            EtwLayer::on_new_span::<V>,
            (&layer, labels, id, attributes, Some(names)),
            Some(data),
        ),
    ensures
        data.activity_id@[0] == 1,
        1 <= i < 8 ==> data.activity_id@[i] == 0,
        spec_u64_from_le_bytes(data.activity_id@.subrange(8, 16)) == id,
{
    lemma_set_activity_parts(id);
}

/// A new span whose parent is not taken from the context, or is not named, is
/// related to no activity, whatever its own number. One whose parent is both is
/// related to the activity that holds the parent's number.
pub proof fn law_new_span_related_activity<V>(
    layer: EtwLayer,
    labels: SlotLabels,
    id: u64,
    attributes: SpanAttributes,
    names: Vec<&'static str>,
    data: SpanData<V>,
    i: int,
)
    requires
        call_ensures(
            EtwLayer::on_new_span::<V>,
            (&layer, labels, id, attributes, Some(names)),
            Some(data),
        ),
    ensures
        (!attributes.is_contextual || attributes.parent is None || attributes.parent == Some(0u64))
            && 0 <= i < 16 ==> data.related_activity_id@[i] == 0,
        attributes.is_contextual && attributes.parent is Some && attributes.parent->0 != 0 ==> {
            &&& data.related_activity_id@[0] == 1
            &&& 1 <= i < 8 ==> data.related_activity_id@[i] == 0
            &&& spec_u64_from_le_bytes(data.related_activity_id@.subrange(8, 16))
                == attributes.parent->0
        },
{
    if attributes.parent is Some {
        lemma_set_activity_parts(attributes.parent->0);
    }
}

/// An event in a span is written under the activity that is kept with that span,
/// and an event in a span right inside it is related to that activity.
pub proof fn law_events_carry_activity_of_span<'p, 'n, P, T: Copy, V>(
    layer: EtwLayer,
    labels: SlotLabels,
    id: u64,
    attributes: SpanAttributes,
    names: Vec<&'static str>,
    data: SpanData<V>,
    provider: Option<&'p P>,
    timestamp: T,
    parent: Option<u64>,
    child: u64,
    name: &'n str,
    level: u8,
    inside: EventWrites<'p, 'n, P, T>,
    below: EventWrites<'p, 'n, P, T>,
)
    requires
        id != 0,
        call_ensures(
            EtwLayer::on_new_span::<V>,
            (&layer, labels, id, attributes, Some(names)),
            Some(data),
        ),
        call_ensures(
            EtwLayer::on_event::<P, T>,
            (&layer, provider, timestamp, Some(EventSpan { id, parent }), name, level),
            inside,
        ),
        call_ensures(
            EtwLayer::on_event::<P, T>,
            (
                &layer,
                provider,
                timestamp,
                Some(EventSpan { id: child, parent: Some(id) }),
                name,
                level,
            ),
            below,
        ),
    ensures
        inside.normal.activity_id@ == data.activity_id@,
        below.normal.related_activity_id@ == data.activity_id@,
{
}

/// New spans with different numbers are kept with different activities.
pub proof fn law_different_spans_have_different_activities<V>(
    layer: EtwLayer,
    labels: SlotLabels,
    attributes: SpanAttributes,
    names: Vec<&'static str>,
    id: u64,
    data: SpanData<V>,
    other_id: u64,
    other_data: SpanData<V>,
)
    requires
        call_ensures(
            EtwLayer::on_new_span::<V>,
            (&layer, labels, id, attributes, Some(names)),
            Some(data),
        ),
        call_ensures(
            EtwLayer::on_new_span::<V>,
            (&layer, labels, other_id, attributes, Some(names)),
            Some(other_data),
        ),
        id != other_id,
    ensures
        data.activity_id@ != other_data.activity_id@,
{
    lemma_set_activity_parts(id);
    lemma_set_activity_parts(other_id);
}

/// The start of a span with which data is kept is written to the provider that was
/// lent, at the time at hand, with that data, at the level of the span, under the
/// keyword 1 and the tag 0.
pub proof fn law_span_start<'p, 'a, P, T, V>(
    layer: EtwLayer,
    provider: &'p P,
    timestamp: T,
    data: &'a SpanData<V>,
    level: u8,
    record: Option<SpanRecord<'p, 'a, P, T, V>>,
)
    requires
        call_ensures(
            EtwLayer::on_enter::<P, T, V>,
            (&layer, Some(provider), timestamp, Some(SpanLookup { data: Some(data), level })),
            record,
        ),
    ensures
        record matches Some(start) && {
            &&& start.edge is Start
            &&& start.provider == provider
            &&& start.timestamp == timestamp
            &&& start.data == data
            &&& start.level == level
            &&& start.keyword == 1
            &&& start.event_tag == 0
        },
{
}

/// The stop of a span with which data is kept is written to the provider that was
/// lent, at the time at hand, with that data, at the level of the span, under the
/// keyword 1 and the tag 0.
pub proof fn law_span_stop<'p, 'a, P, T, V>(
    layer: EtwLayer,
    provider: &'p P,
    timestamp: T,
    data: &'a SpanData<V>,
    level: u8,
    record: Option<SpanRecord<'p, 'a, P, T, V>>,
)
    requires
        call_ensures(
            EtwLayer::on_exit::<P, T, V>,
            (&layer, Some(provider), timestamp, Some(SpanLookup { data: Some(data), level })),
            record,
        ),
    ensures
        record matches Some(stop) && {
            &&& stop.edge is Stop
            &&& stop.provider == provider
            &&& stop.timestamp == timestamp
            &&& stop.data == data
            &&& stop.level == level
            &&& stop.keyword == 1
            &&& stop.event_tag == 0
        },
{
}

/// Nothing is written, and nothing is recorded, for a span that is not found or
/// with which nothing is kept.
pub proof fn law_unknown_spans_are_passed_over<'p, 'a, P, T, V>(
    layer: EtwLayer,
    provider: Option<&'p P>,
    timestamp: T,
    span: Option<SpanLookup<'a, V>>,
    start: Option<SpanRecord<'p, 'a, P, T, V>>,
    stop: Option<SpanRecord<'p, 'a, P, T, V>>,
    not_found: Option<SlotsMut<'a, V>>,
    nothing_kept: Option<SlotsMut<'a, V>>,
)
    requires
        span matches Some(found) ==> found.data is None,
        call_ensures(EtwLayer::on_enter::<P, T, V>, (&layer, provider, timestamp, span), start),
        call_ensures(EtwLayer::on_exit::<P, T, V>, (&layer, provider, timestamp, span), stop),
        call_ensures(
            EtwLayer::on_record::<V>,
            (&layer, None::<Option<&'a mut SpanData<V>>>),
            not_found,
        ),
        call_ensures(
            EtwLayer::on_record::<V>,
            (&layer, Some(None::<&'a mut SpanData<V>>)),
            nothing_kept,
        ),
    ensures
        start is None,
        stop is None,
        not_found is None,
        nothing_kept is None,
{
}

/// A new span's start is written under the activity that its events carry, and
/// with the slots that it was kept with.
pub proof fn law_start_carries_activity_of_events<'p, 'a, 'n, P, T: Copy, V>(
    layer: EtwLayer,
    labels: SlotLabels,
    id: u64,
    attributes: SpanAttributes,
    names: Vec<&'static str>,
    data: &'a SpanData<V>,
    provider: &'p P,
    timestamp: T,
    level: u8,
    start: Option<SpanRecord<'p, 'a, P, T, V>>,
    stop: Option<SpanRecord<'p, 'a, P, T, V>>,
    parent: Option<u64>,
    name: &'n str,
    event_level: u8,
    event: EventWrites<'p, 'n, P, T>,
)
    requires
        id != 0,
        call_ensures(
            EtwLayer::on_new_span::<V>,
            (&layer, labels, id, attributes, Some(names)),
            Some(*data),
        ),
        call_ensures(
            EtwLayer::on_enter::<P, T, V>,
            (&layer, Some(provider), timestamp, Some(SpanLookup { data: Some(data), level })),
            start,
        ),
        call_ensures(
            EtwLayer::on_exit::<P, T, V>,
            (&layer, Some(provider), timestamp, Some(SpanLookup { data: Some(data), level })),
            stop,
        ),
        call_ensures(
            EtwLayer::on_event::<P, T>,
            (
                &layer,
                Some(provider),
                timestamp,
                Some(EventSpan { id, parent }),
                name,
                event_level,
            ),
            event,
        ),
    ensures
        start matches Some(written) && written.data.activity_id@ == event.normal.activity_id@,
        stop matches Some(written) && written.data.activity_id@ == event.normal.activity_id@,
{
}

/// Recording into a span shows the recorder the span's names, values and index
/// table as they are, brings what it writes into the span, and keeps the names, the
/// activities and the number of slots.
pub proof fn law_recording<'a, V>(
    layer: EtwLayer,
    data: &'a mut SpanData<V>,
    slots: Option<SlotsMut<'a, V>>,
)
    requires
        call_ensures(EtwLayer::on_record::<V>, (&layer, Some(Some(data))), slots),
    ensures
        slots matches Some(parts) && {
            &&& parts.fields@ == old(data).fields@
            &&& parts.values@ == old(data).values@
            &&& parts.indexes@ == old(data).indexes@
            &&& final(data).values@ == final(parts.values)@
            &&& final(data).indexes@ == final(parts.indexes)@
        },
        final(data).fields@ == old(data).fields@,
        final(data).values@.len() == old(data).values@.len(),
        final(data).indexes@.len() == old(data).indexes@.len(),
        final(data).activity_id@ == old(data).activity_id@,
        final(data).related_activity_id@ == old(data).related_activity_id@,
{
}

/// Lending a span's slots shows the names, values and index table as they are,
/// brings what is written into the span, and keeps the names, the activities and
/// the number of slots.
pub proof fn law_lending_slots<'a, V>(data: &'a mut SpanData<V>, slots: SlotsMut<'a, V>)
    requires
        call_ensures(SpanData::<V>::slots_mut, (data,), slots),
    ensures
        slots.fields@ == old(data).fields@,
        old(slots.values)@ == old(data).values@,
        old(slots.indexes)@ == old(data).indexes@,
        final(data).values@ == final(slots.values)@,
        final(data).indexes@ == final(slots.indexes)@,
        final(data).fields@ == old(data).fields@,
        final(data).values@.len() == old(data).values@.len(),
        final(data).indexes@.len() == old(data).indexes@.len(),
        final(data).activity_id@ == old(data).activity_id@,
        final(data).related_activity_id@ == old(data).related_activity_id@,
{
}

/// A callback asks for a provider only where it writes to it, and a new span asks
/// for nothing but that there be at most 33 slots without names.
pub proof fn law_record_calls_are_open<'p, 'a, 'n, P, T: Copy, V>(
    layer: EtwLayer,
    provider: &'p P,
    missing: Option<&'p P>,
    timestamp: T,
    event_span: Option<EventSpan>,
    name: &'n str,
    level: u8,
    found: SpanLookup<'a, V>,
    bare: SpanLookup<'a, V>,
    id: u64,
    attributes: SpanAttributes,
    names: Vec<&'static str>,
    recorded: Option<Option<&'a mut SpanData<V>>>,
)
    requires
        bare.data is None,
    ensures
        call_requires(activity_id, (id,)),
        call_requires(mark_activity, (id,)),
        call_requires(
            EtwLayer::on_event::<P, T>,
            (&layer, Some(provider), timestamp, event_span, name, level),
        ),
        call_requires(
            EtwLayer::on_enter::<P, T, V>,
            (&layer, Some(provider), timestamp, Some(found)),
        ),
        call_requires(
            EtwLayer::on_exit::<P, T, V>,
            (&layer, Some(provider), timestamp, Some(found)),
        ),
        call_requires(
            EtwLayer::on_enter::<P, T, V>,
            (&layer, missing, timestamp, None::<SpanLookup<'a, V>>),
        ),
        call_requires(
            EtwLayer::on_exit::<P, T, V>,
            (&layer, missing, timestamp, None::<SpanLookup<'a, V>>),
        ),
        call_requires(EtwLayer::on_enter::<P, T, V>, (&layer, missing, timestamp, Some(bare))),
        call_requires(EtwLayer::on_exit::<P, T, V>, (&layer, missing, timestamp, Some(bare))),
        call_requires(EtwLayer::on_record::<V>, (&layer, recorded)),
        call_requires(
            EtwLayer::on_new_span::<V>,
            (&layer, SlotLabels::Named, id, attributes, Some(names)),
        ),
        names@.len() <= 33 ==> call_requires(
            EtwLayer::on_new_span::<V>,
            (&layer, SlotLabels::Unnamed, id, attributes, Some(names)),
        ),
        call_requires(
            EtwLayer::on_new_span::<V>,
            (&layer, SlotLabels::Unnamed, id, attributes, None::<Vec<&'static str>>),
        ),
{
}

} // verus!
