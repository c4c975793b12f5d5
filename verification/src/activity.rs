//! Activity identifiers: how a span's number becomes the 16 bytes that tie
//! records together.

use vstd::bytes::spec_u64_to_le_bytes;
use vstd::bytes::u64_to_le_bytes;
use vstd::prelude::*;

verus! {

/// The activity of the span numbered `span`: a first byte of 1 that marks it as
/// set, seven bytes of 0, and the span's number in little-endian order.
pub open spec fn set_activity(span: u64) -> Seq<u8> {
    seq![1u8, 0, 0, 0, 0, 0, 0, 0] + spec_u64_to_le_bytes(span)
}

/// The activity that is not set: sixteen bytes of 0.
pub open spec fn unset_activity() -> Seq<u8> {
    Seq::new(16, |i: int| 0u8)
}

/// The activity of the span numbered `span`, where the number 0 stands for no
/// span and leaves the activity unset.
pub open spec fn activity_of(span: u64) -> Seq<u8> {
    if span == 0 {
        unset_activity()
    } else {
        set_activity(span)
    }
}

/// Writes the activity of a span that is known to exist.
pub fn mark_activity(span: u64) -> (id: [u8; 16])
    ensures
        id@ == set_activity(span),
{
    let half: Vec<u8> = u64_to_le_bytes(span);
    let id: [u8; 16] = [
        1, 0, 0, 0, 0, 0, 0, 0,
        half[0], half[1], half[2], half[3], half[4], half[5], half[6], half[7],
    ];
    assert(id@ =~= set_activity(span));
    id
}

/// Writes the activity of a span that may be missing.
pub fn activity_id(span: u64) -> (id: [u8; 16])
    ensures
        id@ == activity_of(span),
{
    if span != 0 {
        mark_activity(span)
    } else {
        let id: [u8; 16] = [0; 16];
        assert(id@ =~= unset_activity());
        id
    }
}

} // verus!
