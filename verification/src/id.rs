//! Stable port identifiers with a reserved sentinel meaning "absent".

use vstd::prelude::*;

verus! {

/// The reserved identifier value meaning "no identifier / invalid".
pub const STABLE_ID_SENTINEL: u32 = 0xFFFF_FFFF;

/// A stable identifier for a port. Never holds the sentinel value: absence is
/// expressed as `Option::<ClapId>::None`, and the raw sentinel only exists on
/// the wire.
#[derive(Copy, Clone, PartialEq, Eq, Structural, Debug)]
pub struct ClapId {
    value: u32,
}

impl View for ClapId {
    type V = u32;

    closed spec fn view(&self) -> u32 {
        self.value
    }
}

impl ClapId {
    #[verifier::type_invariant]
    spec fn inv(self) -> bool {
        self.value != STABLE_ID_SENTINEL
    }

    /// Builds an identifier from a raw value known not to be the sentinel.
    pub fn new(raw: u32) -> (r: Self)
        requires
            raw != STABLE_ID_SENTINEL,
        ensures
            r@ == raw,
    {
        ClapId { value: raw }
    }

    /// Decodes a raw wire value: the sentinel means "absent", every other
    /// value is itself.
    pub fn from_raw(raw: u32) -> (r: Option<Self>)
        ensures
            spec_option_id_view(r) == spec_id_from_raw(raw),
    {
        if raw == STABLE_ID_SENTINEL {
            None
        } else {
            Some(ClapId { value: raw })
        }
    }

    /// The raw value of this identifier; never the sentinel.
    pub fn get(&self) -> (r: u32)
        ensures
            r == self@,
            r != STABLE_ID_SENTINEL,
    {
        proof {
            use_type_invariant(self);
        }
        self.value
    }

    /// Encodes an optional identifier for the wire: absence becomes the
    /// sentinel.
    pub fn optional_to_raw(id: Option<ClapId>) -> (r: u32)
        ensures
            r == spec_optional_id_to_raw(spec_option_id_view(id)),
    {
        match id {
            Some(id) => id.get(),
            None => STABLE_ID_SENTINEL,
        }
    }
}

/// What decoding a raw identifier yields, as a plain integer: `None` exactly
/// on the sentinel, every other value unchanged.
pub open spec fn spec_id_from_raw(raw: u32) -> Option<u32> {
    if raw == STABLE_ID_SENTINEL {
        None
    } else {
        Some(raw)
    }
}

/// What encoding an optional identifier writes on the wire.
pub open spec fn spec_optional_id_to_raw(id: Option<u32>) -> u32 {
    match id {
        Some(v) => v,
        None => STABLE_ID_SENTINEL,
    }
}

/// The raw values of an optional identifier, as plain integers.
pub open spec fn spec_option_id_view(id: Option<ClapId>) -> Option<u32> {
    match id {
        Some(v) => Some(v@),
        None => None,
    }
}

/// Sentinel round trip: a raw value decodes to "absent" exactly when it is the
/// sentinel, and every other raw value is preserved unchanged; re-encoding
/// what was decoded yields the original raw value back.
pub proof fn lemma_id_sentinel_round_trip(raw: u32)
    ensures
        raw == STABLE_ID_SENTINEL <==> spec_id_from_raw(raw) is None,
        spec_id_from_raw(raw) matches Some(v) ==> v == raw,
        spec_optional_id_to_raw(spec_id_from_raw(raw)) == raw,
{
}

} // verus!
