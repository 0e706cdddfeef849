//! The set of operations a queue family supports.

use vstd::prelude::*;
use crate::ash_api;

verus! {

/// Raw mask of the graphics capability.
pub const GRAPHICS_BITS: u32 = 0x1;

/// Raw mask of the compute capability.
pub const COMPUTE_BITS: u32 = 0x2;

/// Raw mask of the transfer capability.
pub const TRANSFER_BITS: u32 = 0x4;

/// How the flags of a queue family are held against a capability.
#[derive(Clone, Copy, Debug, PartialEq, Eq, Structural)]
pub enum MatchPolicy {
    /// The flags must be the capability and nothing else: a family that
    /// offers more than is asked does not match.
    Exact,
    /// The flags must hold the capability and may hold more.
    Subset,
}

/// A set of queue capabilities, held as the bit mask the API reports.
///
/// The mask is kept whole: bits beyond graphics, compute and transfer are
/// part of the value and take part in every comparison.
#[derive(Clone, Copy, Debug, PartialEq, Eq, Structural)]
pub struct QueueFlags {
    pub bits: u32,
}

impl QueueFlags {
    /// The set that holds the graphics capability alone.
    pub open spec fn graphics_only() -> QueueFlags {
        QueueFlags { bits: GRAPHICS_BITS }
    }

    /// Whether every capability of `other` is also in `self`.
    pub open spec fn includes(self, other: QueueFlags) -> bool {
        self.bits & other.bits == other.bits
    }

    /// Whether flags `self` match the capability `required` under `policy`.
    pub open spec fn meets(self, required: QueueFlags, policy: MatchPolicy) -> bool {
        match policy {
            MatchPolicy::Exact => self.bits == required.bits,
            MatchPolicy::Subset => self.includes(required),
        }
    }

    /// The set with exactly the given mask.
    pub fn from_raw(bits: u32) -> (flags: QueueFlags)
        ensures
            flags.bits == bits,
    {
        QueueFlags { bits }
    }

    /// The mask of the set.
    pub fn as_raw(self) -> (bits: u32)
        ensures
            bits == self.bits,
    {
        self.bits
    }

    /// The empty set.
    pub fn empty() -> (flags: QueueFlags)
        ensures
            flags.bits == 0,
    {
        QueueFlags { bits: 0 }
    }

    /// The set that holds the graphics capability alone.
    pub fn graphics() -> (flags: QueueFlags)
        ensures
            flags == QueueFlags::graphics_only(),
    {
        QueueFlags { bits: ash_api::queue_graphics_bit() }
    }

    /// The set that holds the compute capability alone.
    pub fn compute() -> (flags: QueueFlags)
        ensures
            flags.bits == COMPUTE_BITS,
    {
        QueueFlags { bits: ash_api::queue_compute_bit() }
    }

    /// The set that holds the transfer capability alone.
    pub fn transfer() -> (flags: QueueFlags)
        ensures
            flags.bits == TRANSFER_BITS,
    {
        QueueFlags { bits: ash_api::queue_transfer_bit() }
    }

    /// The capabilities of either set.
    pub fn union(self, other: QueueFlags) -> (flags: QueueFlags)
        ensures
            flags.bits == self.bits | other.bits,
            flags.includes(self),
            flags.includes(other),
    {
        let a: u32 = self.bits;
        let b: u32 = other.bits;
        assert((a | b) & a == a) by (bit_vector);
        assert((a | b) & b == b) by (bit_vector);
        QueueFlags { bits: a | b }
    }

    /// Whether every capability of `other` is also in `self`.
    pub fn contains(self, other: QueueFlags) -> (yes: bool)
        ensures
            yes == self.includes(other),
    {
        self.bits & other.bits == other.bits
    }

    /// Whether the flags match the capability `required` under `policy`.
    pub fn matches(self, required: QueueFlags, policy: MatchPolicy) -> (yes: bool)
        ensures
            yes == self.meets(required, policy),
    {
        match policy {
            MatchPolicy::Exact => self.bits == required.bits,
            MatchPolicy::Subset => self.contains(required),
        }
    }
}

/// A set includes itself.
pub proof fn lemma_includes_reflexive(flags: QueueFlags)
    ensures
        flags.includes(flags),
{
    let a: u32 = flags.bits;
    assert(a & a == a) by (bit_vector);
}

/// Whatever the policy, flags that match a capability hold it. The exact
/// policy is the stricter one: what matches under it matches under the
/// other.
pub proof fn lemma_match_holds_capability(
    flags: QueueFlags,
    required: QueueFlags,
    policy: MatchPolicy,
)
    requires
        flags.meets(required, policy),
    ensures
        flags.includes(required),
        flags.meets(required, MatchPolicy::Subset),
{
    lemma_includes_reflexive(required);
}

} // verus!
