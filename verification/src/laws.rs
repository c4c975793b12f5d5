//! What holds of the layer as a whole.

pub mod config;
pub mod records;
pub mod tables;

use crate::activity::activity_of;
use crate::activity::unset_activity;
use crate::event::current_span;
use crate::event::enclosing_span;
use crate::event::extra_record;
use crate::event::is_event_record;
use crate::event::EventRecord;
use crate::event::EventSpan;
use crate::event::EventWrites;
use crate::guid::guid_bytes_of_name;
use crate::guid::Guid;
use crate::layer::group_error;
use crate::layer::is_option_char;
use crate::layer::ConfigError;
use crate::layer::EtwLayer;
use crate::layer::ProviderGroup;
use crate::layer::ProviderGroupView;
use crate::layer::ProviderRequest;
use crate::names::lemma_bytes_le_antisymmetric;
use crate::names::lemma_name_bytes_injective;
use crate::names::name_bytes;
use crate::names::name_le;
use crate::slots::declared_slots;
use crate::slots::has_key;
use crate::slots::is_name_order;
use crate::slots::same_slots_per_name;
use crate::slots::slots_in_range;
use crate::slots::sorted_by_name;
use crate::span::is_new_span_data;
use crate::span::known_data;
use crate::span::related_span;
use crate::span::span_record;
use crate::span::SlotLabels;
use crate::span::SpanAttributes;
use crate::span::SpanData;
use crate::span::SpanEdge;
use crate::span::SpanLookup;
use crate::span::SpanRecord;
use vstd::bytes::spec_u64_from_le_bytes;
use vstd::bytes::spec_u64_to_le_bytes;
use vstd::prelude::*;

verus! {

/// An activity has sixteen bytes. The first is 1 where the activity is set and 0
/// where it is not, and it is set exactly where there is a span.
pub proof fn law_first_byte_marks_activity(span: u64)
    ensures
        activity_of(span).len() == 16,
        activity_of(span)[0] == (if span != 0 { 1u8 } else { 0u8 }),
{
    vstd::bytes::lemma_auto_spec_u64_to_from_le_bytes();
}

/// The last eight bytes of an activity are the span's number in little-endian
/// order, set or not.
pub proof fn law_activity_holds_span(span: u64)
    ensures
        spec_u64_from_le_bytes(activity_of(span).subrange(8, 16)) == span,
{
    vstd::bytes::lemma_auto_spec_u64_to_from_le_bytes();
    if span != 0 {
        assert(activity_of(span).subrange(8, 16) =~= spec_u64_to_le_bytes(span));
    } else {
        vstd::bytes::spec_u64_to_le_bytes_to_open(0);
        assert(0u64 & 0xff == 0 && (0u64 >> 8) & 0xff == 0 && (0u64 >> 16) & 0xff == 0 && (0u64
            >> 24) & 0xff == 0 && (0u64 >> 32) & 0xff == 0 && (0u64 >> 40) & 0xff == 0 && (0u64
            >> 48) & 0xff == 0 && (0u64 >> 56) & 0xff == 0) by (bit_vector);
        assert(activity_of(span).subrange(8, 16) =~= spec_u64_to_le_bytes(0));
    }
}

/// Two spans with the same activity are the same span.
pub proof fn law_activity_identifies_span(a: u64, b: u64)
    requires
        activity_of(a) == activity_of(b),
    ensures
        a == b,
{
    law_activity_holds_span(a);
    law_activity_holds_span(b);
}

/// An event in a span is written under the activity that is kept with the span,
/// and an event in a span right inside it is written with that activity as the
/// related one.
pub proof fn law_events_share_activity_of_span<V>(
    data: SpanData<V>,
    labels: SlotLabels,
    id: u64,
    attributes: SpanAttributes,
    names: Seq<&'static str>,
    parent: Option<u64>,
    child: u64,
)
    requires
        is_new_span_data(data, labels, id, attributes, names),
        id != 0,
    ensures
        activity_of(current_span(Some(EventSpan { id, parent }))) == data.activity_id@,
        activity_of(enclosing_span(Some(EventSpan { id: child, parent: Some(id) })))
            == data.activity_id@,
{
}

/// The start and the stop of a span are written under the same activity as the
/// events in it, whatever values were recorded in between.
pub proof fn law_span_records_share_activity_with_events<'p, P, T, V>(
    created: SpanData<V>,
    kept: &SpanData<V>,
    labels: SlotLabels,
    id: u64,
    attributes: SpanAttributes,
    names: Seq<&'static str>,
    provider: Option<&'p P>,
    edge: SpanEdge,
    timestamp: T,
    level: u8,
    parent: Option<u64>,
)
    requires
        is_new_span_data(created, labels, id, attributes, names),
        kept.activity_id == created.activity_id,
        id != 0,
    ensures
        span_record(provider, edge, timestamp, Some(SpanLookup { data: Some(kept), level })) matches Some(
            record,
        ) && record.data.activity_id@ == activity_of(
            current_span(Some(EventSpan { id, parent })),
        ),
{
}

/// An event outside of every span is written under no activity and is related to
/// none; one in a span that nothing encloses is related to none.
pub proof fn law_events_outside_spans_have_no_activity(id: u64)
    ensures
        activity_of(current_span(None)) == unset_activity(),
        activity_of(enclosing_span(None)) == unset_activity(),
        activity_of(enclosing_span(Some(EventSpan { id, parent: None }))) == unset_activity(),
{
}

/// A new span is related to an activity only where its parent was both taken
/// from the context and named.
pub proof fn law_related_activity_needs_contextual_named_parent(attributes: SpanAttributes)
    requires
        !attributes.is_contextual || attributes.parent is None,
    ensures
        activity_of(related_span(attributes)) == unset_activity(),
{
}

/// A new span has one name, one value and one index for each of its fields, and
/// each index is the number of a slot.
pub proof fn law_new_span_slots_agree<V>(
    data: SpanData<V>,
    labels: SlotLabels,
    id: u64,
    attributes: SpanAttributes,
    names: Seq<&'static str>,
)
    requires
        is_new_span_data(data, labels, id, attributes, names),
    ensures
        data.fields@.len() == names.len(),
        data.values@.len() == names.len(),
        data.indexes@.len() == names.len(),
        slots_in_range(data.indexes@, data.fields@),
{
}

/// The start and the stop of a span are written for the same spans, with the
/// same activities, fields, values, level, keyword and tag.
pub proof fn law_start_and_stop_agree<'p, 'a, P, T, V>(
    provider: Option<&'p P>,
    started: T,
    stopped: T,
    span: Option<SpanLookup<'a, V>>,
)
    ensures
        match (
            span_record(provider, SpanEdge::Start, started, span),
            span_record(provider, SpanEdge::Stop, stopped, span),
        ) {
            (None, None) => known_data(span) is None,
            (Some(start), Some(stop)) => {
                &&& known_data(span) == Some(start.data)
                &&& stop == (SpanRecord { edge: SpanEdge::Stop, timestamp: stopped, ..start })
            },
            _ => false,
        },
{
}

/// The order by name leaves nothing open: two index tables of the same names are
/// the same.
pub proof fn law_name_order_is_unique(a: Seq<u8>, b: Seq<u8>, names: Seq<&'static str>)
    requires
        is_name_order(a, names),
        is_name_order(b, names),
    ensures
        a == b,
{
    assert(same_slots_per_name(a, b, names)) by {
        assert forall|key: Seq<u8>|
            #[trigger] a.filter(has_key(names, key)) == b.filter(has_key(names, key)) by {
            assert(a.filter(has_key(names, key)) == declared_slots(names.len()).filter(
                has_key(names, key),
            ));
            assert(b.filter(has_key(names, key)) == declared_slots(names.len()).filter(
                has_key(names, key),
            ));
        }
    }
    lemma_sorted_determined_per_name(a, b, names);
}

/// The key of the last slot of `a` occurs in `b`, hence comes no later than the
/// key of the last slot of `b`.
proof fn lemma_last_key_le(a: Seq<u8>, b: Seq<u8>, names: Seq<&'static str>)
    requires
        a.len() > 0,
        sorted_by_name(b, names),
        same_slots_per_name(a, b, names),
    ensures
        b.len() > 0,
        name_le(names[a.last() as int], names[b.last() as int]),
{
    let pred = has_key(names, name_bytes(names[a.last() as int]));
    a.lemma_filter_contains(pred, a.len() - 1);
    assert(a.filter(pred) == b.filter(pred));
    b.lemma_filter_contains_rev(pred, a.last());
    let p = choose|p: int| 0 <= p < b.len() && b[p] == a.last();
    assert(name_le(names[b[p] as int], names[b[b.len() - 1] as int]));
}

/// Sorted slots are determined by the slots of each name.
proof fn lemma_sorted_determined_per_name(a: Seq<u8>, b: Seq<u8>, names: Seq<&'static str>)
    requires
        sorted_by_name(a, names),
        sorted_by_name(b, names),
        same_slots_per_name(a, b, names),
    ensures
        a == b,
    decreases a.len(),
{
    if a.len() == 0 {
        if b.len() > 0 {
            assert(same_slots_per_name(b, a, names));
            lemma_last_key_le(b, a, names);
        }
        assert(a =~= b);
    } else {
        lemma_last_key_le(a, b, names);
        assert(same_slots_per_name(b, a, names));
        lemma_last_key_le(b, a, names);
        let key = name_bytes(names[a.last() as int]);
        lemma_bytes_le_antisymmetric(key, name_bytes(names[b.last() as int]));
        assert forall|k: Seq<u8>|
            #[trigger] a.drop_last().filter(has_key(names, k)) == b.drop_last().filter(
                has_key(names, k),
            ) by {
            reveal(Seq::filter);
            let pred = has_key(names, k);
            assert(a.filter(pred) == b.filter(pred));
            if pred(a.last()) {
                assert(a.filter(pred).drop_last() =~= a.drop_last().filter(pred));
                assert(b.filter(pred).drop_last() =~= b.drop_last().filter(pred));
            }
        }
        assert(a.last() == b.last()) by {
            reveal(Seq::filter);
            let pred = has_key(names, key);
            assert(a.filter(pred) == b.filter(pred));
            assert(a.filter(pred).last() == a.last());
            assert(b.filter(pred).last() == b.last());
        }
        lemma_sorted_determined_per_name(a.drop_last(), b.drop_last(), names);
        assert(a =~= a.drop_last().push(a.last()));
        assert(b =~= b.drop_last().push(b.last()));
    }
}

/// Up to 256 fields, the order by name holds each slot exactly once.
pub proof fn law_name_order_holds_each_slot_once(slots: Seq<u8>, names: Seq<&'static str>)
    requires
        is_name_order(slots, names),
        names.len() <= 256,
    ensures
        forall|slot: u8| slot < names.len() ==> #[trigger] slots.contains(slot),
        slots.no_duplicates(),
{
    let declared = declared_slots(names.len());
    assert forall|slot: u8| slot < names.len() implies #[trigger] slots.contains(slot) by {
        let pred = has_key(names, name_bytes(names[slot as int]));
        assert(declared[slot as int] == slot);
        declared.lemma_filter_contains(pred, slot as int);
        assert(slots.filter(pred) == declared.filter(pred));
        slots.lemma_filter_contains_rev(pred, slot);
    }
    assert(declared.no_duplicates());
    declared.unique_seq_to_set();
    assert(slots.to_set() =~= declared.to_set()) by {
        assert forall|slot: u8| slots.to_set().contains(slot) implies declared.to_set().contains(
            slot,
        ) by {
            assert(declared[slot as int] == slot);
        }
    }
    slots.lemma_no_dup_set_cardinality();
}

/// Up to 256 fields, where no two have the same name, the names along the order
/// by name rise strictly, so that a slot is found by halving.
pub proof fn law_distinct_names_rise(slots: Seq<u8>, names: Seq<&'static str>, p: int, q: int)
    requires
        is_name_order(slots, names),
        names.len() <= 256,
        forall|i: int, j: int|
            0 <= i < j < names.len() ==> (#[trigger] names[i])@ != (#[trigger] names[j])@,
        0 <= p < q < slots.len(),
    ensures
        name_le(names[slots[p] as int], names[slots[q] as int]),
        !name_le(names[slots[q] as int], names[slots[p] as int]),
{
    law_name_order_holds_each_slot_once(slots, names);
    let a = names[slots[p] as int];
    let b = names[slots[q] as int];
    if name_le(b, a) {
        lemma_bytes_le_antisymmetric(name_bytes(a), name_bytes(b));
        lemma_name_bytes_injective(a, b);
        assert(slots[p] != slots[q]);
    }
}

/// Once a layer's provider is registered no other is created: whoever registers
/// the layer again gets nothing to create.
pub proof fn law_provider_is_created_once(
    layer: EtwLayer,
    first: Result<Option<ProviderRequest<'_>>, ConfigError>,
    again: Result<Option<ProviderRequest<'_>>, ConfigError>,
)
    requires
        layer.registers(false, first),
        first is Ok,
        layer.registers(true, again),
    ensures
        first->Ok_0 is Some,
        again is Ok,
        again->Ok_0 is None,
{
}

/// A call of a layer, as far as it bears on the layer's provider.
pub enum ProviderCall<'a, P> {
    /// The layer was registered, with `outcome`; `made` is the provider that is
    /// made from the request, where there is one.
    Register {
        layer: EtwLayer,
        outcome: Result<Option<ProviderRequest<'a>>, ConfigError>,
        made: P,
    },
    /// Any other callback: it is lent the provider, and leaves it as it is.
    Callback,
}

/// The provider after a call: the one that was made on request, and else the one
/// from before.
pub open spec fn provider_after<'a, P>(before: Option<P>, call: ProviderCall<'a, P>) -> Option<P> {
    match call {
        ProviderCall::Register { outcome: Ok(Some(_)), made, .. } => Some(made),
        _ => before,
    }
}

/// The provider after a series of calls.
pub open spec fn provider_after_all<'a, P>(
    before: Option<P>,
    calls: Seq<ProviderCall<'a, P>>,
) -> Option<P>
    decreases calls.len(),
{
    if calls.len() == 0 {
        before
    } else {
        provider_after(provider_after_all(before, calls.drop_last()), calls.last())
    }
}

/// Whether each registration in a series of calls has an outcome that registering
/// its layer gives, with the provider as it then is.
pub open spec fn calls_can_happen<'a, P>(
    before: Option<P>,
    calls: Seq<ProviderCall<'a, P>>,
) -> bool
    decreases calls.len(),
{
    calls.len() > 0 ==> {
        &&& calls_can_happen(before, calls.drop_last())
        &&& match calls.last() {
            ProviderCall::Register { layer, outcome, .. } => layer.registers(
                provider_after_all(before, calls.drop_last()) is Some,
                outcome,
            ),
            ProviderCall::Callback => true,
        }
    }
}

/// A provider that is set stays set, and stays the same, under every series of
/// later calls.
pub proof fn law_provider_stays_set<'a, P>(before: Option<P>, calls: Seq<ProviderCall<'a, P>>)
    requires
        before is Some,
        calls_can_happen(before, calls),
    ensures
        provider_after_all(before, calls) == before,
    decreases calls.len(),
{
    if calls.len() > 0 {
        law_provider_stays_set(before, calls.drop_last());
    }
}

/// A registration that is accepted leaves a provider set, whether or not there was
/// one, and every series of later calls leaves that same provider: none of them
/// lacks one.
pub proof fn law_accepted_registration_sets_provider_for_good<'a, P>(
    layer: EtwLayer,
    before: Option<P>,
    outcome: Result<Option<ProviderRequest<'a>>, ConfigError>,
    made: P,
    later: Seq<ProviderCall<'a, P>>,
)
    requires
        layer.registers(before is Some, outcome),
        outcome is Ok,
        calls_can_happen(
            provider_after(before, ProviderCall::Register { layer, outcome, made }),
            later,
        ),
    ensures
        provider_after(before, ProviderCall::Register { layer, outcome, made }) == Some(
            match before {
                Some(provider) => provider,
                None => made,
            },
        ),
        provider_after_all(
            provider_after(before, ProviderCall::Register { layer, outcome, made }),
            later,
        ) == provider_after(before, ProviderCall::Register { layer, outcome, made }),
{
    law_provider_stays_set(
        provider_after(before, ProviderCall::Register { layer, outcome, made }),
        later,
    );
}

/// A layer whose configuration is refused is refused each time, whether or not
/// it has a provider.
pub proof fn law_refusal_does_not_depend_on_provider(
    layer: EtwLayer,
    without: Result<Option<ProviderRequest<'_>>, ConfigError>,
    with: Result<Option<ProviderRequest<'_>>, ConfigError>,
)
    requires
        layer.registers(false, without),
        layer.registers(true, with),
    ensures
        without is Err <==> with is Err,
        without is Err ==> without->Err_0 == with->Err_0,
{
}

/// A layer that joins no group is never refused, whatever its provider is called
/// and whatever its identifier is.
pub proof fn law_layer_without_group_is_accepted(
    layer: EtwLayer,
    registered: bool,
    outcome: Result<Option<ProviderRequest<'_>>, ConfigError>,
)
    requires
        layer.provider_group == ProviderGroup::Unset,
        layer.registers(registered, outcome),
    ensures
        outcome is Ok,
{
}

/// The identifier that is read from a layer whose configuration is accepted is
/// the one under which its provider is then created.
pub proof fn law_read_id_is_the_one_created(
    layer: EtwLayer,
    read: Guid,
    outcome: Result<Option<ProviderRequest<'_>>, ConfigError>,
)
    requires
        read == layer.provider_id,
        group_error(layer.provider_group@) is None,
        layer.registers(false, outcome),
    ensures
        outcome matches Ok(Some(request)) && request.id == read,
{
}

/// A layer that has the identifier of a name, and whose configuration is
/// accepted, has its provider created under the identifier of that name.
pub proof fn law_id_of_name_is_the_one_created(
    layer: EtwLayer,
    name: Seq<char>,
    outcome: Result<Option<ProviderRequest<'_>>, ConfigError>,
)
    requires
        layer.provider_id@ == guid_bytes_of_name(name),
        group_error(layer.provider_group@) is None,
        layer.registers(false, outcome),
    ensures
        outcome matches Ok(Some(request)) && request.id@ == guid_bytes_of_name(name),
{
}

/// The identifier that was assigned last is the one that is read and the one
/// under which the provider is created, whatever came before it.
pub proof fn law_last_assigned_id_is_the_one_created(
    layer: EtwLayer,
    before: Guid,
    last: Guid,
    outcome: Result<Option<ProviderRequest<'_>>, ConfigError>,
)
    requires
        group_error(layer.provider_group@) is None,
        (EtwLayer {
            provider_id: last,
            ..(EtwLayer { provider_id: before, ..layer })
        }).registers(false, outcome),
    ensures
        (EtwLayer { provider_id: last, ..(EtwLayer { provider_id: before, ..layer }) }).provider_id
            == last,
        outcome matches Ok(Some(request)) && request.id == last && request.name@
            == layer.provider_name@,
{
}

/// Common Schema events are written in addition to the normal ones: with the
/// option on there is one extra record for each event, alike to the normal one,
/// with it off there is none, and the normal record is the same either way.
pub proof fn law_common_schema_events_are_extra<'p, 'n, P, T>(
    layer: EtwLayer,
    on: EventWrites<'p, 'n, P, T>,
    off: EventWrites<'p, 'n, P, T>,
    provider: Option<&'p P>,
    timestamp: T,
    span: Option<EventSpan>,
    name: &'n str,
    level: u8,
)
    requires
        is_event_record(on.normal, provider, timestamp, span, name, level),
        on.common_schema == extra_record(
            (EtwLayer { emit_common_schema_events: true, ..layer }),
            on.normal,
        ),
        is_event_record(off.normal, provider, timestamp, span, name, level),
        off.common_schema == extra_record(
            (EtwLayer { emit_common_schema_events: false, ..layer }),
            off.normal,
        ),
    ensures
        on.common_schema matches Some(extra) && is_event_record(
            extra,
            provider,
            timestamp,
            span,
            name,
            level,
        ),
        off.common_schema is None,
        on.normal.activity_id@ == off.normal.activity_id@,
        on.normal.related_activity_id@ == off.normal.related_activity_id@,
        (EventRecord {
            activity_id: off.normal.activity_id,
            related_activity_id: off.normal.related_activity_id,
            ..on.normal
        }) == off.normal,
{
}

/// A group that is named by an identifier is refused exactly where that is zero,
/// one named by a string exactly where some character is neither a lower-case
/// ASCII letter nor an ASCII digit.
pub proof fn law_groups_that_are_refused(guid: Seq<u8>, name: Seq<char>)
    requires
        guid.len() == 16,
    ensures
        group_error(ProviderGroupView::Windows(guid)) is Some <==> (forall|i: int|
            0 <= i < 16 ==> guid[i] == 0),
        group_error(ProviderGroupView::Linux(name)) is Some <==> (exists|i: int|
            0 <= i < name.len() && !is_option_char(#[trigger] name[i])),
{
    if forall|i: int| 0 <= i < 16 ==> guid[i] == 0 {
        assert(guid =~= crate::guid::zero_guid_bytes());
    }
}

/// The options of a layer do not touch each other: set in either order, they
/// give the same layer.
pub proof fn law_options_are_independent(layer: EtwLayer, guid: Guid, group: ProviderGroup)
    ensures
        (EtwLayer {
            provider_id: guid,
            ..(EtwLayer { emit_common_schema_events: true, ..layer })
        }) == (EtwLayer {
            emit_common_schema_events: true,
            ..(EtwLayer { provider_id: guid, ..layer })
        }),
        (EtwLayer { provider_id: guid, ..(EtwLayer { provider_group: group, ..layer }) }) == (
        EtwLayer { provider_group: group, ..(EtwLayer { provider_id: guid, ..layer }) }),
        (EtwLayer {
            emit_common_schema_events: true,
            ..(EtwLayer { provider_group: group, ..layer })
        }) == (EtwLayer {
            provider_group: group,
            ..(EtwLayer { emit_common_schema_events: true, ..layer })
        }),
{
}

} // verus!
