//! The exchanged metadata record: its fixed-layout wire form, its safe view,
//! and the codec between the two.

use vstd::prelude::*;

use crate::flags::spec_port_flags_known;
use crate::flags::AudioPortFlags;
use crate::flags::PORT_FLAGS_ALL;
use crate::id::spec_id_from_raw;
use crate::id::spec_option_id_view;
use crate::id::spec_optional_id_to_raw;
use crate::id::ClapId;
use crate::id::STABLE_ID_SENTINEL;
use crate::port_type::spec_nul_free;
use crate::port_type::spec_option_bytes_view;
use crate::port_type::spec_option_type_view;
use crate::port_type::spec_port_type_from_raw;
use crate::port_type::AudioPortType;

verus! {

/// The fixed capacity of the record's name field, in bytes.
pub const NAME_CAPACITY: usize = 256;

/// The wire form of one port record, field for field as it crosses the
/// boundary: a raw identifier (possibly the sentinel), a name buffer of
/// exactly [`NAME_CAPACITY`] bytes, raw capability bits, a channel count, the
/// type discriminator as an absent-or-present string content (absent models a
/// null pointer), and a raw paired identifier (possibly the sentinel).
#[derive(Clone, PartialEq, Eq, Debug)]
pub struct RawAudioPortInfo {
    pub id: u32,
    pub name: Vec<u8>,
    pub flags: u32,
    pub channel_count: u32,
    pub port_type: Option<Vec<u8>>,
    pub in_place_pair: u32,
}

/// The wire form as plain mathematical values.
#[verifier::ext_equal]
pub ghost struct RawAudioPortInfoView {
    pub id: u32,
    pub name: Seq<u8>,
    pub flags: u32,
    pub channel_count: u32,
    pub port_type: Option<Seq<u8>>,
    pub in_place_pair: u32,
}

impl View for RawAudioPortInfo {
    type V = RawAudioPortInfoView;

    open spec fn view(&self) -> RawAudioPortInfoView {
        RawAudioPortInfoView {
            id: self.id,
            name: self.name@,
            flags: self.flags,
            channel_count: self.channel_count,
            port_type: spec_option_bytes_view(self.port_type),
            in_place_pair: self.in_place_pair,
        }
    }
}

/// What every wire record satisfies by construction of the boundary: the name
/// buffer has exactly its fixed capacity, and a present type discriminator is
/// the NUL-free content of a C-compatible string.
pub open spec fn spec_raw_wf(r: RawAudioPortInfoView) -> bool {
    &&& r.name.len() == NAME_CAPACITY
    &&& r.port_type matches Some(s) ==> spec_nul_free(s)
}

impl RawAudioPortInfo {
    /// Well-formedness of the wire record; see [`spec_raw_wf`].
    pub open spec fn wf(&self) -> bool {
        spec_raw_wf(self@)
    }
}

/// The safe view of one port record.
#[derive(Clone, PartialEq, Eq, Debug)]
pub struct AudioPortInfo {
    /// Stable identifier for the port; never the sentinel. Identifiers must
    /// be unique within one direction, but an input and an output port may
    /// share one.
    pub id: ClapId,
    /// Display name, as bytes of any length; encoding truncates or pads it to
    /// the fixed capacity.
    pub name: Vec<u8>,
    /// Number of channels this port exposes.
    pub channel_count: u32,
    /// Capabilities of this port.
    pub flags: AudioPortFlags,
    /// Optional classification of the port's layout.
    pub port_type: Option<AudioPortType>,
    /// The paired port's identifier, where this port supports in-place
    /// processing; absent otherwise.
    pub in_place_pair: Option<ClapId>,
}

/// The safe view as plain mathematical values.
#[verifier::ext_equal]
pub ghost struct AudioPortInfoView {
    pub id: u32,
    pub name: Seq<u8>,
    pub channel_count: u32,
    pub flags: u32,
    pub port_type: Option<Seq<u8>>,
    pub in_place_pair: Option<u32>,
}

impl View for AudioPortInfo {
    type V = AudioPortInfoView;

    open spec fn view(&self) -> AudioPortInfoView {
        AudioPortInfoView {
            id: self.id@,
            name: self.name@,
            channel_count: self.channel_count,
            flags: self.flags.bits,
            port_type: spec_option_type_view(self.port_type),
            in_place_pair: spec_option_id_view(self.in_place_pair),
        }
    }
}

/// Well-formedness of a safe record at the view level: only known capability
/// bits, a present discriminator non-empty and NUL-free, and a present paired
/// identifier not the sentinel.
pub open spec fn spec_info_wf(d: AudioPortInfoView) -> bool {
    &&& spec_port_flags_known(d.flags)
    &&& d.port_type matches Some(t) ==> t.len() > 0 && spec_nul_free(t)
    &&& d.in_place_pair matches Some(i) ==> i != STABLE_ID_SENTINEL
}

impl AudioPortInfo {
    /// Well-formedness of the safe record; see [`spec_info_wf`].
    pub open spec fn wf(&self) -> bool {
        spec_info_wf(self@)
    }
}

/// What one name encodes to: exactly [`NAME_CAPACITY`] bytes, the source
/// truncated where it is longer and zero-padded where it is shorter.
pub open spec fn spec_name_encode(name: Seq<u8>) -> Seq<u8> {
    Seq::new(
        NAME_CAPACITY as nat,
        |i: int|
            if i < name.len() {
                name[i]
            } else {
                0u8
            },
    )
}

/// What one safe record encodes to on the wire: the identifier verbatim, the
/// name truncated or zero-padded to capacity, the capability bits verbatim,
/// the discriminator's content or absence (a null pointer), and the paired
/// identifier or the sentinel.
pub open spec fn spec_encode(d: AudioPortInfoView) -> RawAudioPortInfoView {
    RawAudioPortInfoView {
        id: d.id,
        name: spec_name_encode(d.name),
        flags: d.flags,
        channel_count: d.channel_count,
        port_type: d.port_type,
        in_place_pair: spec_optional_id_to_raw(d.in_place_pair),
    }
}

/// What one wire record decodes to: "absent" exactly when its identifier is
/// the sentinel; otherwise the name buffer verbatim up to capacity, the
/// capability bits with unknown ones discarded, the discriminator with null
/// and empty both meaning "absent", and the paired identifier under the same
/// sentinel rule as the identifier itself.
pub open spec fn spec_decode(r: RawAudioPortInfoView) -> Option<AudioPortInfoView> {
    if r.id == STABLE_ID_SENTINEL {
        None
    } else {
        Some(
            AudioPortInfoView {
                id: r.id,
                name: r.name,
                channel_count: r.channel_count,
                flags: r.flags & PORT_FLAGS_ALL,
                port_type: spec_port_type_from_raw(r.port_type),
                in_place_pair: spec_id_from_raw(r.in_place_pair),
            },
        )
    }
}

fn clone_bytes(v: &Vec<u8>) -> (r: Vec<u8>)
    ensures
        r@ == v@,
{
    let mut out: Vec<u8> = Vec::new();
    let mut i: usize = 0;
    while i < v.len()
        invariant
            i <= v@.len(),
            out@ =~= v@.take(i as int),
        decreases v@.len() - i,
    {
        out.push(v[i]);
        i += 1;
    }
    proof {
        assert(out@ =~= v@);
    }
    out
}

fn encode_name(name: &Vec<u8>) -> (r: Vec<u8>)
    ensures
        r@ == spec_name_encode(name@),
{
    let mut out: Vec<u8> = Vec::new();
    let mut i: usize = 0;
    while i < NAME_CAPACITY
        invariant
            i <= NAME_CAPACITY,
            out@.len() == i,
            forall|j: int| 0 <= j < i ==> out@[j] == spec_name_encode(name@)[j],
        decreases NAME_CAPACITY - i,
    {
        if i < name.len() {
            out.push(name[i]);
        } else {
            out.push(0);
        }
        i += 1;
    }
    proof {
        assert(out@ =~= spec_name_encode(name@));
    }
    out
}

impl AudioPortInfo {
    /// Decodes a wire record: "absent" when the identifier is the sentinel,
    /// otherwise every field as [`spec_decode`] states it.
    pub fn from_raw(raw: &RawAudioPortInfo) -> (r: Option<Self>)
        requires
            raw.wf(),
        ensures
            r is Some <==> spec_decode(raw@) is Some,
            r matches Some(info) ==> Some(info@) == spec_decode(raw@),
            r matches Some(info) ==> info.wf(),
    {
        match ClapId::from_raw(raw.id) {
            None => None,
            Some(id) => {
                let port_type_raw = match &raw.port_type {
                    None => None,
                    Some(s) => Some(clone_bytes(s)),
                };
                let info = AudioPortInfo {
                    id,
                    name: clone_bytes(&raw.name),
                    channel_count: raw.channel_count,
                    flags: AudioPortFlags::from_bits_truncate(raw.flags),
                    port_type: AudioPortType::from_raw(port_type_raw),
                    in_place_pair: ClapId::from_raw(raw.in_place_pair),
                };
                proof {
                    let f = raw.flags;
                    assert((f & 0xFu32) & 0xF == f & 0xF) by (bit_vector);
                    assert(Some(info@) =~= spec_decode(raw@));
                }
                Some(info)
            },
        }
    }

    /// Encodes this record to its wire form, every field as [`spec_encode`]
    /// states it. The destination is fully defined: the name buffer is
    /// truncated or zero-padded to exactly its capacity.
    pub fn to_raw(&self) -> (r: RawAudioPortInfo)
        requires
            self.wf(),
        ensures
            r@ == spec_encode(self@),
            r.wf(),
            self@.id != STABLE_ID_SENTINEL,
    {
        let port_type = match &self.port_type {
            None => None,
            Some(t) => Some(clone_bytes(t.as_raw())),
        };
        let r = RawAudioPortInfo {
            id: self.id.get(),
            name: encode_name(&self.name),
            flags: self.flags.bits(),
            channel_count: self.channel_count,
            port_type,
            in_place_pair: ClapId::optional_to_raw(self.in_place_pair),
        };
        proof {
            assert(r@ =~= spec_encode(self@));
        }
        r
    }
}

/// Name truncation and padding: an encoded name has exactly the fixed
/// capacity; a longer source is cut to its first capacity bytes, a shorter
/// one is preserved and followed only by zero bytes.
pub proof fn lemma_name_truncation(name: Seq<u8>)
    ensures
        spec_name_encode(name).len() == NAME_CAPACITY,
        name.len() >= NAME_CAPACITY ==> spec_name_encode(name) == name.take(NAME_CAPACITY as int),
        name.len() < NAME_CAPACITY ==> {
            &&& forall|i: int| 0 <= i < name.len() ==> spec_name_encode(name)[i] == name[i]
            &&& forall|i: int|
                name.len() <= i < NAME_CAPACITY ==> spec_name_encode(name)[i] == 0u8
        },
{
    if name.len() >= NAME_CAPACITY {
        assert(spec_name_encode(name) =~= name.take(NAME_CAPACITY as int));
    }
}

/// Type discriminator round trip: a present, non-empty discriminator written
/// to the wire decodes back to the same content; an absent one is written as
/// a null pointer and decodes back to "absent".
pub proof fn lemma_port_type_round_trip(t: Option<Seq<u8>>)
    requires
        t matches Some(s) ==> s.len() > 0,
    ensures
        spec_port_type_from_raw(t) == t,
{
}

/// Codec round trip: decoding an encoded well-formed record always yields a
/// present record whose identifier, channel count, capability bits, type
/// discriminator and paired identifier are unchanged, and whose name is the
/// source name truncated or zero-padded to the fixed capacity.
pub proof fn lemma_encode_decode(d: AudioPortInfoView)
    requires
        spec_info_wf(d),
        d.id != STABLE_ID_SENTINEL,
    ensures
        spec_decode(spec_encode(d)) == Some(
            AudioPortInfoView { name: spec_name_encode(d.name), ..d },
        ),
{
    lemma_port_type_round_trip(d.port_type);
    assert(spec_decode(spec_encode(d)) =~= Some(
        AudioPortInfoView { name: spec_name_encode(d.name), ..d },
    ));
}

} // verus!
