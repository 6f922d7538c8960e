//! Capability bitsets over a 32-bit word: which facets of a port record
//! changed (`RescanType`) and what a port supports (`AudioPortFlags`), with
//! the derived deactivation policy.

use vstd::prelude::*;

verus! {

/// Bit meaning "the port names changed"; a cosmetic change.
pub const RESCAN_NAMES: u32 = 0x1;

/// Bit meaning "the port flags changed".
pub const RESCAN_FLAGS: u32 = 0x2;

/// Bit meaning "the channel count changed".
pub const RESCAN_CHANNEL_COUNT: u32 = 0x4;

/// Bit meaning "the port type changed".
pub const RESCAN_PORT_TYPE: u32 = 0x8;

/// Bit meaning "the in-place pair changed".
pub const RESCAN_IN_PLACE_PAIR: u32 = 0x10;

/// Bit meaning "ports were added or removed".
pub const RESCAN_LIST: u32 = 0x20;

/// All rescan bits this version knows.
pub const RESCAN_ALL: u32 = 0x3F;

/// A set of "what changed" facets, as disjoint bits of a 32-bit word.
/// Bits outside [`RESCAN_ALL`] are unknown to this version; decoding discards
/// them rather than rejecting the word.
#[derive(Copy, Clone, PartialEq, Eq, Structural, Debug)]
pub struct RescanType {
    pub bits: u32,
}

/// Whether a set holds only bits known to this version.
pub open spec fn spec_rescan_known(bits: u32) -> bool {
    bits & RESCAN_ALL == bits
}

impl RescanType {
    /// The empty set: nothing changed.
    pub fn empty() -> (r: Self)
        ensures
            r.bits == 0,
            spec_rescan_known(r.bits),
    {
        proof {
            assert(0u32 & 0x3F == 0) by (bit_vector);
        }
        RescanType { bits: 0 }
    }

    /// The set holding only the "names changed" facet.
    pub fn names() -> (r: Self)
        ensures
            r.bits == RESCAN_NAMES,
            spec_rescan_known(r.bits),
    {
        proof {
            assert(0x1u32 & 0x3F == 0x1) by (bit_vector);
        }
        RescanType { bits: RESCAN_NAMES }
    }

    /// The set holding only the "flags changed" facet.
    pub fn flags() -> (r: Self)
        ensures
            r.bits == RESCAN_FLAGS,
            spec_rescan_known(r.bits),
    {
        proof {
            assert(0x2u32 & 0x3F == 0x2) by (bit_vector);
        }
        RescanType { bits: RESCAN_FLAGS }
    }

    /// The set holding only the "channel count changed" facet.
    pub fn channel_count() -> (r: Self)
        ensures
            r.bits == RESCAN_CHANNEL_COUNT,
            spec_rescan_known(r.bits),
    {
        proof {
            assert(0x4u32 & 0x3F == 0x4) by (bit_vector);
        }
        RescanType { bits: RESCAN_CHANNEL_COUNT }
    }

    /// The set holding only the "port type changed" facet.
    pub fn port_type() -> (r: Self)
        ensures
            r.bits == RESCAN_PORT_TYPE,
            spec_rescan_known(r.bits),
    {
        proof {
            assert(0x8u32 & 0x3F == 0x8) by (bit_vector);
        }
        RescanType { bits: RESCAN_PORT_TYPE }
    }

    /// The set holding only the "in-place pair changed" facet.
    pub fn in_place_pair() -> (r: Self)
        ensures
            r.bits == RESCAN_IN_PLACE_PAIR,
            spec_rescan_known(r.bits),
    {
        proof {
            assert(0x10u32 & 0x3F == 0x10) by (bit_vector);
        }
        RescanType { bits: RESCAN_IN_PLACE_PAIR }
    }

    /// The set holding only the "port list changed" facet.
    pub fn list() -> (r: Self)
        ensures
            r.bits == RESCAN_LIST,
            spec_rescan_known(r.bits),
    {
        proof {
            assert(0x20u32 & 0x3F == 0x20) by (bit_vector);
        }
        RescanType { bits: RESCAN_LIST }
    }

    /// Set union.
    pub fn union(self, other: Self) -> (r: Self)
        ensures
            r.bits == self.bits | other.bits,
            spec_rescan_known(self.bits) && spec_rescan_known(other.bits) ==> spec_rescan_known(
                r.bits,
            ),
    {
        proof {
            let a = self.bits;
            let b = other.bits;
            assert(a & 0x3F == a && b & 0x3F == b ==> (a | b) & 0x3F == (a | b)) by (bit_vector);
        }
        RescanType { bits: self.bits | other.bits }
    }

    /// Whether the two sets share at least one bit.
    pub fn intersects(self, other: Self) -> (r: bool)
        ensures
            r == ((self.bits & other.bits) != 0),
    {
        (self.bits & other.bits) != 0
    }

    /// Whether every bit of `other` is in `self`.
    pub fn contains(self, other: Self) -> (r: bool)
        ensures
            r == ((self.bits & other.bits) == other.bits),
    {
        (self.bits & other.bits) == other.bits
    }

    /// The underlying bits, for the wire.
    pub fn bits(self) -> (r: u32)
        ensures
            r == self.bits,
    {
        self.bits
    }

    /// Decodes a raw word, discarding bits unknown to this version.
    pub fn from_bits_truncate(bits: u32) -> (r: Self)
        ensures
            r.bits == bits & RESCAN_ALL,
            spec_rescan_known(r.bits),
    {
        proof {
            assert((bits & 0x3F) & 0x3F == bits & 0x3F) by (bit_vector);
        }
        RescanType { bits: bits & RESCAN_ALL }
    }

    /// Whether any facet in this set requires the capability provider to be
    /// deactivated before the change may be observed. A name change is
    /// cosmetic and can be surfaced live; every other known facet affects the
    /// counterpart's cached topology.
    pub fn requires_deactivate(&self) -> (r: bool)
        ensures
            r == spec_requires_deactivate(*self),
            spec_rescan_known(self.bits) ==> r == (self.bits != 0 && self.bits != RESCAN_NAMES),
    {
        proof {
            lemma_requires_deactivate_iff(*self);
        }
        let restart_required = RESCAN_FLAGS | RESCAN_CHANNEL_COUNT | RESCAN_PORT_TYPE
            | RESCAN_IN_PLACE_PAIR | RESCAN_LIST;
        (self.bits & restart_required) != 0
    }
}

/// Whether a change set may only be observed after deactivation: true exactly
/// when it intersects a known facet other than "names changed".
pub open spec fn spec_requires_deactivate(set: RescanType) -> bool {
    set.bits & (RESCAN_FLAGS | RESCAN_CHANNEL_COUNT | RESCAN_PORT_TYPE | RESCAN_IN_PLACE_PAIR
        | RESCAN_LIST) != 0
}

/// The deactivation policy over every set of known facets: deactivation is
/// required exactly when the set holds any facet besides "names changed" —
/// so neither for the empty set nor for "names changed" alone.
pub proof fn lemma_requires_deactivate_iff(set: RescanType)
    ensures
        spec_rescan_known(set.bits) ==> (spec_requires_deactivate(set) <==> (set.bits != 0
            && set.bits != RESCAN_NAMES)),
{
    let b = set.bits;
    assert(b & 0x3F == b ==> ((b & (0x2u32 | 0x4 | 0x8 | 0x10 | 0x20) != 0) <==> (b != 0 && b
        != 0x1))) by (bit_vector);
}

/// Bit meaning "this port is the main input or output".
pub const PORT_IS_MAIN: u32 = 0x1;

/// Bit meaning "this port can be used with 64-bit samples".
pub const PORT_SUPPORTS_64BITS: u32 = 0x2;

/// Bit meaning "64-bit samples are preferred on this port".
pub const PORT_PREFERS_64BITS: u32 = 0x4;

/// Bit meaning "this port must use the same sample size as every other port
/// carrying this bit".
pub const PORT_REQUIRES_COMMON_SAMPLE_SIZE: u32 = 0x8;

/// All port capability bits this version knows.
pub const PORT_FLAGS_ALL: u32 = 0xF;

/// A set of capabilities of one audio port, as disjoint bits of a 32-bit
/// word. Bits outside [`PORT_FLAGS_ALL`] are unknown to this version;
/// decoding discards them rather than rejecting the word.
#[derive(Copy, Clone, PartialEq, Eq, Structural, Debug)]
pub struct AudioPortFlags {
    pub bits: u32,
}

/// Whether a set holds only bits known to this version.
pub open spec fn spec_port_flags_known(bits: u32) -> bool {
    bits & PORT_FLAGS_ALL == bits
}

impl AudioPortFlags {
    /// The empty set.
    pub fn empty() -> (r: Self)
        ensures
            r.bits == 0,
            spec_port_flags_known(r.bits),
    {
        proof {
            assert(0u32 & 0xF == 0) by (bit_vector);
        }
        AudioPortFlags { bits: 0 }
    }

    /// The set holding only the "main port" capability.
    pub fn is_main() -> (r: Self)
        ensures
            r.bits == PORT_IS_MAIN,
            spec_port_flags_known(r.bits),
    {
        proof {
            assert(0x1u32 & 0xF == 0x1) by (bit_vector);
        }
        AudioPortFlags { bits: PORT_IS_MAIN }
    }

    /// The set holding only the "supports 64-bit samples" capability.
    pub fn supports_64bits() -> (r: Self)
        ensures
            r.bits == PORT_SUPPORTS_64BITS,
            spec_port_flags_known(r.bits),
    {
        proof {
            assert(0x2u32 & 0xF == 0x2) by (bit_vector);
        }
        AudioPortFlags { bits: PORT_SUPPORTS_64BITS }
    }

    /// The set holding only the "prefers 64-bit samples" capability.
    pub fn prefers_64bits() -> (r: Self)
        ensures
            r.bits == PORT_PREFERS_64BITS,
            spec_port_flags_known(r.bits),
    {
        proof {
            assert(0x4u32 & 0xF == 0x4) by (bit_vector);
        }
        AudioPortFlags { bits: PORT_PREFERS_64BITS }
    }

    /// The set holding only the "requires a common sample size" capability.
    pub fn requires_common_sample_size() -> (r: Self)
        ensures
            r.bits == PORT_REQUIRES_COMMON_SAMPLE_SIZE,
            spec_port_flags_known(r.bits),
    {
        proof {
            assert(0x8u32 & 0xF == 0x8) by (bit_vector);
        }
        AudioPortFlags { bits: PORT_REQUIRES_COMMON_SAMPLE_SIZE }
    }

    /// Set union.
    pub fn union(self, other: Self) -> (r: Self)
        ensures
            r.bits == self.bits | other.bits,
            spec_port_flags_known(self.bits) && spec_port_flags_known(other.bits)
                ==> spec_port_flags_known(r.bits),
    {
        proof {
            let a = self.bits;
            let b = other.bits;
            assert(a & 0xF == a && b & 0xF == b ==> (a | b) & 0xF == (a | b)) by (bit_vector);
        }
        AudioPortFlags { bits: self.bits | other.bits }
    }

    /// Whether the two sets share at least one bit.
    pub fn intersects(self, other: Self) -> (r: bool)
        ensures
            r == ((self.bits & other.bits) != 0),
    {
        (self.bits & other.bits) != 0
    }

    /// Whether every bit of `other` is in `self`.
    pub fn contains(self, other: Self) -> (r: bool)
        ensures
            r == ((self.bits & other.bits) == other.bits),
    {
        (self.bits & other.bits) == other.bits
    }

    /// The underlying bits, for the wire.
    pub fn bits(self) -> (r: u32)
        ensures
            r == self.bits,
    {
        self.bits
    }

    /// Decodes a raw word, discarding bits unknown to this version.
    pub fn from_bits_truncate(bits: u32) -> (r: Self)
        ensures
            r.bits == bits & PORT_FLAGS_ALL,
            spec_port_flags_known(r.bits),
    {
        proof {
            assert((bits & 0xF) & 0xF == bits & 0xF) by (bit_vector);
        }
        AudioPortFlags { bits: bits & PORT_FLAGS_ALL }
    }
}

} // verus!
