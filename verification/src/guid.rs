//! Provider identifiers.

use vstd::prelude::*;

verus! {

/// The most characters a provider name may have for its identifier to be
/// hashed: the hash counts its 64-byte blocks in 32 bits, frames the name with
/// 25 bytes of its own, and a character contributes at most 12 bytes (three
/// upper-case characters of four bytes each).
pub const MAX_PROVIDER_NAME_CHARS: u64 = 22_906_492_237;

/// A 128-bit identifier, as its 16 bytes in big-endian (RFC) order.
#[derive(Clone, Copy, Debug, PartialEq, Eq, Hash)]
pub struct Guid {
    pub bytes: [u8; 16],
}

impl View for Guid {
    type V = Seq<u8>;

    open spec fn view(&self) -> Seq<u8> {
        self.bytes@
    }
}

/// The bytes of the identifier that tracelogging derives from a provider name.
pub uninterp spec fn guid_bytes_of_name(name: Seq<char>) -> Seq<u8>;

/// The 16 bytes of the identifier with every bit clear.
pub open spec fn zero_guid_bytes() -> Seq<u8> {
    Seq::new(16, |i: int| 0u8)
}

/// Calls `tracelogging::Guid::from_name`. The identifier is a hash of the name
/// and of nothing else, so its big-endian bytes are named as a function of the
/// name. The hash itself is left unsaid.
#[verifier::external_body]
fn name_hash_bytes(name: &str) -> (bytes: [u8; 16])
    requires
        name@.len() <= MAX_PROVIDER_NAME_CHARS,
    ensures
        bytes@ == guid_bytes_of_name(name@),
{
    tracelogging::Guid::from_name(name).to_bytes_be()
}

/// Calls `tracelogging::Guid::zero`, which returns the identifier whose fields
/// are all zero, so each of its bytes is zero.
#[verifier::external_body]
fn null_bytes() -> (bytes: [u8; 16])
    ensures
        bytes@ == zero_guid_bytes(),
{
    tracelogging::Guid::zero().to_bytes_be()
}

impl Guid {
    /// The identifier that ETW tools derive from a provider name.
    pub fn from_name(name: &str) -> (guid: Guid)
        requires
            name@.len() <= MAX_PROVIDER_NAME_CHARS,
        ensures
            guid@ == guid_bytes_of_name(name@),
    {
        Guid { bytes: name_hash_bytes(name) }
    }

    /// The identifier with every bit clear.
    pub fn zero() -> (guid: Guid)
        ensures
            guid@ == zero_guid_bytes(),
    {
        Guid { bytes: null_bytes() }
    }

    /// Whether two identifiers have the same bytes.
    pub fn same(&self, other: &Guid) -> (same: bool)
        ensures
            same == (self@ == other@),
    {
        let mut i: usize = 0;
        while i < 16
            invariant
                i <= 16,
                forall|j: int| 0 <= j < i ==> self.bytes@[j] == other.bytes@[j],
            decreases 16 - i,
        {
            if self.bytes[i] != other.bytes[i] {
                return false;
            }
            i = i + 1;
        }
        assert(self@ =~= other@);
        true
    }
}

} // verus!
