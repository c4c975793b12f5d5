//! Spans: what is kept with each, and the records that the provider is given
//! when one is entered and left.

use crate::activity::activity_id;
use crate::activity::activity_of;
use crate::activity::mark_activity;
use crate::activity::set_activity;
use crate::layer::EtwLayer;
use crate::slots::declared_slots;
use crate::slots::is_name_order;
use crate::slots::name_order;
use vstd::prelude::*;

verus! {

/// The keyword under which the start and the stop of a span are written.
pub const SPAN_KEYWORD: u64 = 1;

/// The tag with which the start and the stop of a span are written.
pub const SPAN_TAG: u32 = 0;

/// The most slots that a span with unnamed slots can have.
pub const MAX_UNNAMED_SLOTS: usize = 33;

/// Whether the slots of a span carry the names of its fields.
#[derive(Clone, Copy, Debug, PartialEq, Eq, Structural)]
pub enum SlotLabels {
    /// Every slot has the empty name, and the slots are indexed in the order of
    /// their declaration.
    Unnamed,
    /// Each slot has the name of its field, and the slots are indexed in the
    /// order of their names.
    Named,
}

/// What is kept with a span: one slot for each of its fields, the order in which
/// the slots are found, and the activities that the span belongs to.
#[derive(Debug)]
pub struct SpanData<V> {
    pub fields: Vec<&'static str>,
    /// The value recorded for each field, `None` as long as there is none.
    pub values: Vec<Option<V>>,
    pub indexes: Vec<u8>,
    pub activity_id: [u8; 16],
    pub related_activity_id: [u8; 16],
}

/// How the parent of a new span was given.
#[derive(Clone, Copy, Debug)]
pub struct SpanAttributes {
    /// Whether the parent is the span that is current.
    pub is_contextual: bool,
    /// The number of the parent, where it was named.
    pub parent: Option<u64>,
}

/// The number of the span that a new span is related to, 0 where there is none.
pub open spec fn related_span(attributes: SpanAttributes) -> u64 {
    match attributes.parent {
        Some(parent) if attributes.is_contextual => parent,
        _ => 0,
    }
}

/// Whether `data` has `n` empty slots without names, in the order of their
/// declaration.
pub open spec fn has_unnamed_slots<V>(data: SpanData<V>, n: nat) -> bool {
    &&& data.fields@.len() == n
    &&& forall|i: int| 0 <= i < n ==> (#[trigger] data.fields@[i])@ == ""@
    &&& data.values@ == Seq::new(n, |i: int| None::<V>)
    &&& data.indexes@ == declared_slots(n)
}

/// Whether `data` has one empty slot for each of `names`, indexed in the order
/// of the names.
pub open spec fn has_named_slots<V>(data: SpanData<V>, names: Seq<&'static str>) -> bool {
    &&& data.fields@ == names
    &&& data.values@ == Seq::new(names.len(), |i: int| None::<V>)
    &&& is_name_order(data.indexes@, names)
}

/// Whether `data` is what is kept with a new span, before any value is recorded:
/// empty slots for its fields, the span as the activity, and the span that it is
/// related to as the related activity.
pub open spec fn is_new_span_data<V>(
    data: SpanData<V>,
    labels: SlotLabels,
    id: u64,
    attributes: SpanAttributes,
    names: Seq<&'static str>,
) -> bool {
    &&& match labels {
        SlotLabels::Unnamed => has_unnamed_slots(data, names.len()),
        SlotLabels::Named => has_named_slots(data, names),
    }
    &&& data.activity_id@ == set_activity(id)
    &&& data.related_activity_id@ == activity_of(related_span(attributes))
}

/// `n` empty values.
fn empty_values<V>(n: usize) -> (values: Vec<Option<V>>)
    ensures
        values@ == Seq::new(n as nat, |i: int| None::<V>),
{
    let mut values: Vec<Option<V>> = Vec::new();
    while values.len() < n
        invariant
            values@.len() <= n,
            forall|i: int| 0 <= i < values@.len() ==> values@[i] == None::<V>,
        decreases n - values@.len(),
    {
        values.push(None);
    }
    assert(values@ =~= Seq::new(n as nat, |i: int| None::<V>));
    values
}

/// Calls `AsMut::as_mut` of std's `Vec`, which lends the elements of the vector as
/// a mutable slice. What is written through the slice is written to the vector,
/// and a slice keeps its length.
#[verifier::external_body]
fn elements_mut<T>(vec: &mut Vec<T>) -> (elements: &mut [T])
    ensures
        elements@ == old(vec)@,
        final(vec)@ == final(elements)@,
        final(elements)@.len() == elements@.len(),
{
    vec.as_mut()
}

impl<V> SpanData<V> {
    /// The data of a span with `n` slots without names, in no activity.
    pub fn unnamed(n: usize) -> (data: SpanData<V>)
        requires
            n <= MAX_UNNAMED_SLOTS,
        ensures
            has_unnamed_slots(data, n as nat),
            data.activity_id@ == activity_of(0),
            data.related_activity_id@ == activity_of(0),
    {
        let mut fields: Vec<&'static str> = Vec::new();
        let mut indexes: Vec<u8> = Vec::new();
        let mut slot: u8 = 0;
        while (slot as usize) < n
            invariant
                slot <= n <= MAX_UNNAMED_SLOTS,
                fields@.len() == slot,
                forall|i: int| 0 <= i < slot ==> (#[trigger] fields@[i])@ == ""@,
                indexes@ == declared_slots(slot as nat),
            decreases n - slot,
        {
            fields.push("");
            indexes.push(slot);
            slot = slot + 1;
            assert(indexes@ =~= declared_slots(slot as nat));
        }
        SpanData {
            fields,
            values: empty_values(n),
            indexes,
            activity_id: activity_id(0),
            related_activity_id: activity_id(0),
        }
    }

    /// The data of a span with one slot for each of `names`, in no activity.
    pub fn named(names: Vec<&'static str>) -> (data: SpanData<V>)
        ensures
            has_named_slots(data, names@),
            data.activity_id@ == activity_of(0),
            data.related_activity_id@ == activity_of(0),
    {
        let indexes: Vec<u8> = name_order(&names);
        let values: Vec<Option<V>> = empty_values(names.len());
        SpanData {
            fields: names,
            values,
            indexes,
            activity_id: activity_id(0),
            related_activity_id: activity_id(0),
        }
    }

    /// What a recorder of values may read and write: it reads the names, and
    /// writes the values and the index table, neither of which it can resize.
    pub fn slots_mut(&mut self) -> (slots: SlotsMut<'_, V>)
        ensures
            slots.fields@ == old(self).fields@,
            slots.values@ == old(self).values@,
            slots.indexes@ == old(self).indexes@,
            final(self).fields == old(self).fields,
            final(self).values@ == final(slots.values)@,
            final(self).values@.len() == old(self).values@.len(),
            final(self).indexes@ == final(slots.indexes)@,
            final(self).indexes@.len() == old(self).indexes@.len(),
            final(self).activity_id == old(self).activity_id,
            final(self).related_activity_id == old(self).related_activity_id,
    {
        SlotsMut {
            fields: self.fields.as_slice(),
            values: elements_mut(&mut self.values),
            indexes: elements_mut(&mut self.indexes),
        }
    }
}

/// The slots of a span, as a recorder of values is handed them.
pub struct SlotsMut<'a, V> {
    pub fields: &'a [&'static str],
    pub values: &'a mut [Option<V>],
    pub indexes: &'a mut [u8],
}

/// A span that was looked up.
pub struct SpanLookup<'a, V> {
    /// What is kept with the span; there is nothing where the span is not known
    /// to the layer from its beginning.
    pub data: Option<&'a SpanData<V>>,
    /// The level of the span.
    pub level: u8,
}

/// What happened to a span.
#[derive(Clone, Copy, Debug, PartialEq, Eq, Structural)]
pub enum SpanEdge {
    Start,
    Stop,
}

/// What the provider is to write for the start or the stop of a span.
pub struct SpanRecord<'p, 'a, P, T, V> {
    pub provider: &'p P,
    pub edge: SpanEdge,
    pub timestamp: T,
    /// The activities, the fields and the values to write.
    pub data: &'a SpanData<V>,
    pub level: u8,
    pub keyword: u64,
    pub event_tag: u32,
}

/// What is kept with the span that was looked up, if there is anything.
pub open spec fn known_data<'a, V>(span: Option<SpanLookup<'a, V>>) -> Option<&'a SpanData<V>> {
    match span {
        Some(found) => found.data,
        None => None,
    }
}

/// The record of the start or the stop of a span; there is none where nothing is
/// kept with the span.
pub open spec fn span_record<'p, 'a, P, T, V>(
    provider: Option<&'p P>,
    edge: SpanEdge,
    timestamp: T,
    span: Option<SpanLookup<'a, V>>,
) -> Option<SpanRecord<'p, 'a, P, T, V>> {
    match known_data(span) {
        Some(data) => Some(
            SpanRecord {
                provider: provider->0,
                edge,
                timestamp,
                data,
                level: span->0.level,
                keyword: SPAN_KEYWORD,
                event_tag: SPAN_TAG,
            },
        ),
        None => None,
    }
}

impl EtwLayer {
    /// What to keep with a new span; nothing where the span is not found. The
    /// span's values are recorded into it afterwards, through its slots.
    pub fn on_new_span<V>(
        &self,
        labels: SlotLabels,
        id: u64,
        attributes: SpanAttributes,
        field_names: Option<Vec<&'static str>>,
    ) -> (kept: Option<SpanData<V>>)
        requires
            labels == SlotLabels::Unnamed ==> (field_names matches Some(names)
                ==> names@.len() <= MAX_UNNAMED_SLOTS),
        ensures
            match field_names {
                None => kept is None,
                Some(names) => kept matches Some(data) && is_new_span_data(
                    data,
                    labels,
                    id,
                    attributes,
                    names@,
                ),
            },
    {
        let names: Vec<&'static str> = match field_names {
            None => {
                return None;
            },
            Some(names) => names,
        };
        let parent_span_id: u64 = if attributes.is_contextual {
            match attributes.parent {
                Some(parent) => parent,
                None => 0,
            }
        } else {
            0
        };
        let mut data: SpanData<V> = match labels {
            SlotLabels::Unnamed => SpanData::unnamed(names.len()),
            SlotLabels::Named => SpanData::named(names),
        };
        data.activity_id = mark_activity(id);
        data.related_activity_id = activity_id(parent_span_id);
        Some(data)
    }

    /// The record of a span's start.
    pub fn on_enter<'p, 'a, P, T, V>(
        &self,
        provider: Option<&'p P>,
        timestamp: T,
        span: Option<SpanLookup<'a, V>>,
    ) -> (record: Option<SpanRecord<'p, 'a, P, T, V>>)
        requires
            known_data(span) is Some ==> provider is Some,
        ensures
            record == span_record(provider, SpanEdge::Start, timestamp, span),
    {
        let span = match span {
            None => {
                return None;
            },
            Some(span) => span,
        };
        match span.data {
            None => None,
            Some(data) => Some(
                SpanRecord {
                    provider: provider.unwrap(),
                    edge: SpanEdge::Start,
                    timestamp,
                    data,
                    level: span.level,
                    keyword: SPAN_KEYWORD,
                    event_tag: SPAN_TAG,
                },
            ),
        }
    }

    /// The record of a span's stop.
    pub fn on_exit<'p, 'a, P, T, V>(
        &self,
        provider: Option<&'p P>,
        timestamp: T,
        span: Option<SpanLookup<'a, V>>,
    ) -> (record: Option<SpanRecord<'p, 'a, P, T, V>>)
        requires
            known_data(span) is Some ==> provider is Some,
        ensures
            record == span_record(provider, SpanEdge::Stop, timestamp, span),
    {
        let span = match span {
            None => {
                return None;
            },
            Some(span) => span,
        };
        match span.data {
            None => None,
            Some(data) => Some(
                SpanRecord {
                    provider: provider.unwrap(),
                    edge: SpanEdge::Stop,
                    timestamp,
                    data,
                    level: span.level,
                    keyword: SPAN_KEYWORD,
                    event_tag: SPAN_TAG,
                },
            ),
        }
    }

    /// The slots into which values added to a span are recorded; there are none
    /// where the span is not found or nothing is kept with it.
    pub fn on_record<'a, V>(&self, span: Option<Option<&'a mut SpanData<V>>>) -> (slots: Option<
        SlotsMut<'a, V>,
    >)
        ensures
            match span {
                Some(Some(data)) => slots matches Some(parts) && {
                    &&& parts.fields@ == data.fields@
                    &&& parts.values@ == data.values@
                    &&& parts.indexes@ == data.indexes@
                    &&& final(data).fields == data.fields
                    &&& final(data).values@ == final(parts.values)@
                    &&& final(data).values@.len() == data.values@.len()
                    &&& final(data).indexes@ == final(parts.indexes)@
                    &&& final(data).indexes@.len() == data.indexes@.len()
                    &&& final(data).activity_id == data.activity_id
                    &&& final(data).related_activity_id == data.related_activity_id
                },
                _ => slots is None,
            },
    {
        match span {
            Some(Some(data)) => Some(data.slots_mut()),
            _ => None,
        }
    }
}

} // verus!
