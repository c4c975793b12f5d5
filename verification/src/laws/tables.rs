//! How names are ordered, and which slots a new span has.

use crate::laws::law_name_order_holds_each_slot_once;
use crate::laws::law_name_order_is_unique;
use crate::layer::EtwLayer;
use crate::names::bytes_le;
use crate::names::name_at_most;
use crate::names::name_bytes;
use crate::slots::declared_slots;
use crate::slots::has_key;
use crate::slots::name_order;
use crate::span::SlotLabels;
use crate::span::SpanAttributes;
use crate::span::SpanData;
use vstd::prelude::*;
use vstd::utf8::encode_utf8;

verus! {

/// Two byte strings that agree up to `at` are ordered by what follows.
proof fn lemma_bytes_le_from(x: Seq<u8>, y: Seq<u8>, at: int)
    requires
        0 <= at <= x.len(),
        at <= y.len(),
        forall|i: int| 0 <= i < at ==> x[i] == y[i],
    ensures
        bytes_le(x, y) == bytes_le(x.skip(at), y.skip(at)),
    decreases at,
{
    if at == 0 {
        assert(x.skip(0) =~= x);
        assert(y.skip(0) =~= y);
    } else {
        lemma_bytes_le_from(x.drop_first(), y.drop_first(), at - 1);
        assert(x.drop_first().skip(at - 1) =~= x.skip(at));
        assert(y.drop_first().skip(at - 1) =~= y.skip(at));
    }
}

/// Where the UTF-8 bytes of two names first differ, the smaller byte comes first,
/// and a name comes before what it begins. A name comes no later than itself.
pub proof fn law_names_in_order(a: &str, b: &str, le: bool, at: int)
    requires
        call_ensures(name_at_most, (a, b), le),
        0 <= at <= encode_utf8(a@).len(),
        at <= encode_utf8(b@).len(),
        forall|i: int| 0 <= i < at ==> encode_utf8(a@)[i] == encode_utf8(b@)[i],
    ensures
        at < encode_utf8(a@).len() && at < encode_utf8(b@).len() && encode_utf8(a@)[at]
            < encode_utf8(b@)[at] ==> le,
        at < encode_utf8(a@).len() && at < encode_utf8(b@).len() && encode_utf8(a@)[at]
            > encode_utf8(b@)[at] ==> !le,
        at == encode_utf8(a@).len() ==> le,
        at == encode_utf8(b@).len() && at < encode_utf8(a@).len() ==> !le,
{
    lemma_bytes_le_from(encode_utf8(a@), encode_utf8(b@), at);
}

/// The order by name has one entry for each name, and each entry is the number of
/// a name.
pub proof fn law_name_order_entries(names: Vec<&'static str>, slots: Vec<u8>, p: int)
    requires
        call_ensures(name_order, (&names,), slots),
    ensures
        slots@.len() == names@.len(),
        0 <= p < names@.len() ==> slots@[p] < names@.len(),
{
}

/// Along the order by name the names never go down: where the UTF-8 bytes of two
/// of them first differ, the byte of the earlier one is the smaller, and the later
/// one is not merely the beginning of the earlier one.
pub proof fn law_name_order_never_goes_down(
    names: Vec<&'static str>,
    slots: Vec<u8>,
    p: int,
    q: int,
    at: int,
)
    requires
        call_ensures(name_order, (&names,), slots),
        0 <= p < q < slots@.len(),
        0 <= at <= encode_utf8(names@[slots@[p] as int]@).len(),
        at <= encode_utf8(names@[slots@[q] as int]@).len(),
        forall|i: int|
            0 <= i < at ==> encode_utf8(names@[slots@[p] as int]@)[i] == encode_utf8(
                names@[slots@[q] as int]@,
            )[i],
    ensures
        at < encode_utf8(names@[slots@[p] as int]@).len() && at < encode_utf8(
            names@[slots@[q] as int]@,
        ).len() ==> encode_utf8(names@[slots@[p] as int]@)[at] <= encode_utf8(
            names@[slots@[q] as int]@,
        )[at],
        at == encode_utf8(names@[slots@[q] as int]@).len() ==> at == encode_utf8(
            names@[slots@[p] as int]@,
        ).len(),
{
    let x = encode_utf8(names@[slots@[p] as int]@);
    let y = encode_utf8(names@[slots@[q] as int]@);
    assert(bytes_le(x, y)) by {
        assert(x == name_bytes(names@[slots@[p] as int]));
        assert(y == name_bytes(names@[slots@[q] as int]));
    }
    lemma_bytes_le_from(x, y, at);
}

/// Filters that pick the same elements keep the same.
proof fn lemma_filter_congruence(
    s: Seq<u8>,
    f: spec_fn(u8) -> bool,
    g: spec_fn(u8) -> bool,
)
    requires
        forall|i: int| 0 <= i < s.len() ==> f(#[trigger] s[i]) == g(s[i]),
    ensures
        s.filter(f) == s.filter(g),
    decreases s.len(),
{
    reveal(Seq::filter);
    if s.len() > 0 {
        assert forall|i: int| 0 <= i < s.drop_last().len() implies f(#[trigger] s.drop_last()[i])
            == g(s.drop_last()[i]) by {
            assert(s.drop_last()[i] == s[i]);
        }
        lemma_filter_congruence(s.drop_last(), f, g);
        assert(f(s[s.len() - 1]) == g(s[s.len() - 1]));
    }
}

/// For every name, the slots with that name are in the order by name what they are
/// among the slots 0, 1, 2 and so on, counted in one byte: as many, and in the same
/// order.
pub proof fn law_name_order_keeps_slots_of_each_name(
    names: Vec<&'static str>,
    slots: Vec<u8>,
    name: Seq<char>,
)
    requires
        call_ensures(name_order, (&names,), slots),
    ensures
        slots@.filter(|slot: u8| names@[slot as int]@ == name) == Seq::new(
            names@.len(),
            |i: int| (i % 256) as u8,
        ).filter(|slot: u8| names@[slot as int]@ == name),
{
    let named = |slot: u8| names@[slot as int]@ == name;
    let pred = has_key(names@, encode_utf8(name));
    let declared = Seq::new(names@.len(), |i: int| (i % 256) as u8);
    assert(declared =~= declared_slots(names@.len()));
    assert forall|slot: u8| #[trigger] named(slot) == pred(slot) by {
        vstd::utf8::encode_utf8_decode_utf8(name);
        vstd::utf8::encode_utf8_decode_utf8(names@[slot as int]@);
    }
    lemma_filter_congruence(slots@, named, pred);
    lemma_filter_congruence(declared, named, pred);
    assert(slots@.filter(pred) == declared.filter(pred));
}

/// What a filter keeps is in the order in which it was.
proof fn lemma_filter_keeps_order(s: Seq<u8>, pred: spec_fn(u8) -> bool, p: int, q: int) -> (at: (
    int,
    int,
))
    requires
        0 <= p < q < s.len(),
        pred(s[p]),
        pred(s[q]),
    ensures
        0 <= at.0 < at.1 < s.filter(pred).len(),
        s.filter(pred)[at.0] == s[p],
        s.filter(pred)[at.1] == s[q],
    decreases s.len(),
{
    reveal(Seq::filter);
    if q < s.len() - 1 {
        lemma_filter_keeps_order(s.drop_last(), pred, p, q)
    } else {
        let rest = s.drop_last();
        rest.lemma_filter_contains(pred, p);
        assert(rest[p] == s[p]);
        let i = choose|i: int| 0 <= i < rest.filter(pred).len() && rest.filter(pred)[i] == rest[p];
        (i, rest.filter(pred).len() as int)
    }
}

/// What a filter keeps of rising numbers rises.
proof fn lemma_filter_keeps_rising(s: Seq<u8>, pred: spec_fn(u8) -> bool)
    requires
        forall|i: int, j: int| 0 <= i < j < s.len() ==> s[i] < s[j],
    ensures
        forall|i: int, j: int|
            0 <= i < j < s.filter(pred).len() ==> s.filter(pred)[i] < s.filter(pred)[j],
    decreases s.len(),
{
    reveal(Seq::filter);
    if s.len() > 0 {
        let rest = s.drop_last();
        lemma_filter_keeps_rising(rest, pred);
        assert forall|i: int| 0 <= i < rest.filter(pred).len() implies rest.filter(pred)[i]
            < s.last() by {
            let x = rest.filter(pred)[i];
            assert(rest.filter(pred).contains(x));
            rest.lemma_filter_contains_rev(pred, x);
            let k = choose|k: int| 0 <= k < rest.len() && rest[k] == x;
            assert(s[k] == x);
        }
    }
}

/// Up to 256 names, of two slots with the same name the one that was declared
/// earlier comes earlier.
pub proof fn law_name_order_is_stable(
    names: Vec<&'static str>,
    slots: Vec<u8>,
    p: int,
    q: int,
)
    requires
        call_ensures(name_order, (&names,), slots),
        names@.len() <= 256,
        0 <= p < q < slots@.len(),
        names@[slots@[p] as int]@ == names@[slots@[q] as int]@,
    ensures
        slots@[p] < slots@[q],
{
    let pred = has_key(names@, name_bytes(names@[slots@[p] as int]));
    let declared = declared_slots(names@.len());
    let at = lemma_filter_keeps_order(slots@, pred, p, q);
    lemma_filter_keeps_rising(declared, pred);
    assert(slots@.filter(pred) == declared.filter(pred));
    assert(declared.filter(pred)[at.0] < declared.filter(pred)[at.1]);
}

/// Up to 256 names, every slot is found at exactly one place of the order by name.
pub proof fn law_name_order_finds_each_slot_once(
    names: Vec<&'static str>,
    slots: Vec<u8>,
    slot: u8,
)
    requires
        call_ensures(name_order, (&names,), slots),
        names@.len() <= 256,
        slot < names@.len(),
    ensures
        exists|p: int| 0 <= p < slots@.len() && slots@[p] == slot,
        forall|p: int, q: int|
            0 <= p < q < slots@.len() ==> !(slots@[p] == slot && slots@[q] == slot),
{
    law_name_order_holds_each_slot_once(slots@, names@);
    assert(slots@.contains(slot));
}

/// Slots without names are empty, carry the empty name, and are indexed in the
/// order of their numbers; they belong to no activity.
pub proof fn law_unnamed_slots<V>(n: usize, data: SpanData<V>, i: int, j: int)
    requires
        call_ensures(SpanData::<V>::unnamed, (n,), data),
        n <= 33,
    ensures
        data.fields@.len() == n,
        data.values@.len() == n,
        data.indexes@.len() == n,
        0 <= i < n ==> data.fields@[i]@.len() == 0,
        0 <= i < n ==> data.values@[i] is None,
        0 <= i < n ==> data.indexes@[i] == i,
        0 <= j < 16 ==> data.activity_id@[j] == 0,
        0 <= j < 16 ==> data.related_activity_id@[j] == 0,
{
    reveal_strlit("");
}

/// Slots with names are empty, carry the names in the order of their declaration,
/// and are indexed in the order by name; they belong to no activity.
pub proof fn law_named_slots<V>(
    names: Vec<&'static str>,
    data: SpanData<V>,
    slots: Vec<u8>,
    i: int,
    j: int,
)
    requires
        call_ensures(SpanData::<V>::named, (names,), data),
        call_ensures(name_order, (&names,), slots),
    ensures
        data.fields@.len() == names@.len(),
        data.values@.len() == names@.len(),
        0 <= i < names@.len() ==> data.fields@[i]@ == names@[i]@,
        0 <= i < names@.len() ==> data.values@[i] is None,
        data.indexes@ == slots@,
        0 <= j < 16 ==> data.activity_id@[j] == 0,
        0 <= j < 16 ==> data.related_activity_id@[j] == 0,
{
    law_name_order_is_unique(data.indexes@, slots@, names@);
}

/// A new span without names has one empty slot for each of its fields, indexed in
/// the order of their declaration, whatever its number and its attributes.
pub proof fn law_new_span_with_unnamed_slots<V>(
    layer: EtwLayer,
    id: u64,
    attributes: SpanAttributes,
    names: Vec<&'static str>,
    data: SpanData<V>,
    i: int,
)
    requires
        call_ensures(
            EtwLayer::on_new_span::<V>,
            (&layer, SlotLabels::Unnamed, id, attributes, Some(names)),
            Some(data),
        ),
        names@.len() <= 33,
    ensures
        data.fields@.len() == names@.len(),
        data.values@.len() == names@.len(),
        data.indexes@.len() == names@.len(),
        0 <= i < names@.len() ==> data.fields@[i]@.len() == 0,
        0 <= i < names@.len() ==> data.values@[i] is None,
        0 <= i < names@.len() ==> data.indexes@[i] == i,
{
    reveal_strlit("");
}

/// A new span with names has one empty slot for each of its fields, under the name
/// of the field, indexed in the order by name, whatever its number and its
/// attributes.
pub proof fn law_new_span_with_named_slots<V>(
    layer: EtwLayer,
    id: u64,
    attributes: SpanAttributes,
    names: Vec<&'static str>,
    data: SpanData<V>,
    slots: Vec<u8>,
    i: int,
)
    requires
        call_ensures(
            EtwLayer::on_new_span::<V>,
            (&layer, SlotLabels::Named, id, attributes, Some(names)),
            Some(data),
        ),
        call_ensures(name_order, (&names,), slots),
    ensures
        data.fields@.len() == names@.len(),
        data.values@.len() == names@.len(),
        0 <= i < names@.len() ==> data.fields@[i]@ == names@[i]@,
        0 <= i < names@.len() ==> data.values@[i] is None,
        data.indexes@ == slots@,
{
    law_name_order_is_unique(data.indexes@, slots@, names@);
}

/// Names can be compared and ordered whatever they are, and data can be made for
/// any names and for up to 33 slots without.
pub proof fn law_table_calls_are_open<V>(
    a: &str,
    b: &str,
    names: Vec<&'static str>,
    n: usize,
)
    ensures
        call_requires(name_at_most, (a, b)),
        call_requires(name_order, (&names,)),
        call_requires(SpanData::<V>::named, (names,)),
        n <= 33 ==> call_requires(SpanData::<V>::unnamed, (n,)),
{
}

} // verus!
