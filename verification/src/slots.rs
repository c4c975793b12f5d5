//! The index table of a span: the order in which its slots are found by name.

use crate::names::lemma_bytes_le_reflexive;
use crate::names::lemma_bytes_le_total;
use crate::names::lemma_bytes_le_transitive;
use crate::names::name_at_most;
use crate::names::name_bytes;
use crate::names::name_le;
use vstd::prelude::*;

verus! {

/// The first `n` slots in the order of their declaration. A slot is numbered in
/// one byte, so the numbers start over after 255.
pub open spec fn declared_slots(n: nat) -> Seq<u8> {
    Seq::new(n, |i: int| (i % 256) as u8)
}

/// Whether each entry of `slots` is the number of a name in `names`.
pub open spec fn slots_in_range(slots: Seq<u8>, names: Seq<&'static str>) -> bool {
    forall|p: int| 0 <= p < slots.len() ==> (#[trigger] slots[p]) < names.len()
}

/// Whether the names of the slots never go down along `slots`.
pub open spec fn sorted_by_name(slots: Seq<u8>, names: Seq<&'static str>) -> bool {
    forall|p: int, q: int|
        0 <= p <= q < slots.len() ==> name_le(
            names[(#[trigger] slots[p]) as int],
            names[(#[trigger] slots[q]) as int],
        )
}

/// Picks the slots whose name has the bytes `key`.
pub open spec fn has_key(names: Seq<&'static str>, key: Seq<u8>) -> spec_fn(u8) -> bool {
    |slot: u8| name_bytes(names[slot as int]) == key
}

/// Whether `a` and `b` hold, for every name, the same slots of that name in the
/// same order.
pub open spec fn same_slots_per_name(
    a: Seq<u8>,
    b: Seq<u8>,
    names: Seq<&'static str>,
) -> bool {
    forall|key: Seq<u8>|
        #[trigger] a.filter(has_key(names, key)) == b.filter(has_key(names, key))
}

/// Whether `slots` is the stable sort by name of the slots of `names`: sorted,
/// and with the slots of each name in the order of their declaration.
pub open spec fn is_name_order(slots: Seq<u8>, names: Seq<&'static str>) -> bool {
    &&& slots.len() == names.len()
    &&& slots_in_range(slots, names)
    &&& sorted_by_name(slots, names)
    &&& same_slots_per_name(slots, declared_slots(names.len()), names)
}

/// A slot put in after the last slot of its name, and before none of its name,
/// is the last of its name.
proof fn lemma_insert_keeps_order_per_name(
    slots: Seq<u8>,
    at: int,
    slot: u8,
    names: Seq<&'static str>,
)
    requires
        0 <= at <= slots.len(),
        forall|p: int|
            at <= p < slots.len() ==> name_bytes(names[(#[trigger] slots[p]) as int])
                != name_bytes(names[slot as int]),
    ensures
        same_slots_per_name(slots.insert(at, slot), slots.push(slot), names),
{
    let head = slots.take(at);
    let tail = slots.skip(at);
    assert forall|key: Seq<u8>|
        #[trigger] slots.insert(at, slot).filter(has_key(names, key)) == slots.push(slot).filter(
            has_key(names, key),
        ) by {
        let pred = has_key(names, key);
        let one = seq![slot];
        assert(slots.insert(at, slot) =~= (head + one) + tail);
        assert(slots.push(slot) =~= (head + tail) + one);
        Seq::filter_distributes_over_add(head + one, tail, pred);
        Seq::filter_distributes_over_add(head, one, pred);
        Seq::filter_distributes_over_add(head + tail, one, pred);
        Seq::filter_distributes_over_add(head, tail, pred);
        if pred(slot) {
            assert(tail.all(|x: u8| !pred(x))) by {
                assert forall|p: int| 0 <= p < tail.len() implies !pred(#[trigger] tail[p]) by {
                    assert(tail[p] == slots[at + p]);
                }
            }
            tail.lemma_all_neg_filter_empty(pred);
            assert(tail.filter(pred) =~= Seq::<u8>::empty());
        } else {
            assert(one.all(|x: u8| !pred(x)));
            one.lemma_all_neg_filter_empty(pred);
            assert(one.filter(pred) =~= Seq::<u8>::empty());
        }
        assert(((head.filter(pred) + one.filter(pred)) + tail.filter(pred)) =~= ((head.filter(pred)
            + tail.filter(pred)) + one.filter(pred)));
    }
}

/// A slot put between the slots that come no later and those that come later
/// leaves the slots sorted.
proof fn lemma_insert_sorted(slots: Seq<u8>, at: int, slot: u8, names: Seq<&'static str>)
    requires
        0 <= at <= slots.len(),
        sorted_by_name(slots, names),
        at > 0 ==> name_le(names[slots[at - 1] as int], names[slot as int]),
        forall|p: int|
            at <= p < slots.len() ==> !name_le(
                names[(#[trigger] slots[p]) as int],
                names[slot as int],
            ),
    ensures
        sorted_by_name(slots.insert(at, slot), names),
{
    let after = slots.insert(at, slot);
    let key = name_bytes(names[slot as int]);
    assert forall|p: int, q: int| 0 <= p <= q < after.len() implies name_le(
        names[(#[trigger] after[p]) as int],
        names[(#[trigger] after[q]) as int],
    ) by {
        let p0 = if p < at { p } else { p - 1 };
        let q0 = if q < at { q } else { q - 1 };
        if p == at && q == at {
            lemma_bytes_le_reflexive(key);
        } else if p == at {
            assert(after[q] == slots[q0]);
            lemma_bytes_le_total(key, name_bytes(names[slots[q0] as int]));
        } else if q == at {
            assert(after[p] == slots[p0]);
            assert(name_le(names[slots[p0] as int], names[slots[at - 1] as int]));
            lemma_bytes_le_transitive(
                name_bytes(names[slots[p0] as int]),
                name_bytes(names[slots[at - 1] as int]),
                key,
            );
        } else {
            assert(after[p] == slots[p0]);
            assert(after[q] == slots[q0]);
        }
    }
}

/// Where the slots so far are, name by name, the declared ones in order, they
/// still are once the next declared slot is put in before those that come later.
proof fn lemma_insert_declared(slots: Seq<u8>, at: int, slot: u8, names: Seq<&'static str>)
    requires
        0 <= at <= slots.len(),
        slot == slots.len() % 256,
        same_slots_per_name(slots, declared_slots(slots.len()), names),
        forall|p: int|
            at <= p < slots.len() ==> !name_le(
                names[(#[trigger] slots[p]) as int],
                names[slot as int],
            ),
    ensures
        same_slots_per_name(slots.insert(at, slot), declared_slots(slots.len() + 1), names),
{
    let declared = declared_slots(slots.len());
    assert(declared_slots(slots.len() + 1) =~= declared.push(slot));
    lemma_bytes_le_reflexive(name_bytes(names[slot as int]));
    lemma_insert_keeps_order_per_name(slots, at, slot, names);
    assert forall|key: Seq<u8>|
        #[trigger] slots.insert(at, slot).filter(has_key(names, key)) == declared.push(slot).filter(
            has_key(names, key),
        ) by {
        let pred = has_key(names, key);
        assert(slots.filter(pred) == declared.filter(pred));
        assert(slots.push(slot).filter(pred) == declared.push(slot).filter(pred)) by {
            reveal(Seq::filter);
            assert(slots.push(slot).drop_last() =~= slots);
            assert(declared.push(slot).drop_last() =~= declared);
        }
    }
}

/// The slots of `names` in the order of their names, slots of the same name in
/// the order of their declaration.
pub fn name_order(names: &Vec<&'static str>) -> (slots: Vec<u8>)
    ensures
        is_name_order(slots@, names@),
{
    let mut slots: Vec<u8> = Vec::new();
    assert(slots@ =~= declared_slots(0));
    let mut i: usize = 0;
    while i < names.len()
        invariant
            i <= names@.len(),
            slots@.len() == i,
            slots_in_range(slots@, names@),
            sorted_by_name(slots@, names@),
            same_slots_per_name(slots@, declared_slots(i as nat), names@),
        decreases names@.len() - i,
    {
        let slot: u8 = #[verifier::truncate] (i as u8);
        assert(slot == (i % 256) as u8) by (bit_vector)
            requires slot == i as u8;
        let mut at: usize = slots.len();
        while at > 0 && !name_at_most(names[slots[at - 1] as usize], names[slot as usize])
            invariant
                i < names@.len(),
                slot == i % 256,
                at <= slots@.len(),
                slots_in_range(slots@, names@),
                forall|p: int|
                    at <= p < slots@.len() ==> !name_le(
                        names@[(#[trigger] slots@[p]) as int],
                        names@[slot as int],
                    ),
            decreases at,
        {
            at = at - 1;
        }
        let ghost before = slots@;
        slots.insert(at, slot);
        proof {
            lemma_insert_sorted(before, at as int, slot, names@);
            lemma_insert_declared(before, at as int, slot, names@);
        }
        i = i + 1;
    }
    slots
}

} // verus!
