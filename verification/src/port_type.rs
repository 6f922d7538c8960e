//! The optional type discriminator of an audio port: a non-empty string of
//! NUL-free bytes, compared by content. Constants exist for the two common
//! layouts; arbitrary extension-defined discriminators are permitted.

use vstd::prelude::*;

verus! {

/// Whether a byte sequence holds no NUL byte, as the content of a
/// C-compatible string always does.
pub open spec fn spec_nul_free(s: Seq<u8>) -> bool {
    forall|i: int| 0 <= i < s.len() ==> s[i] != 0
}

/// The content bytes of the "mono" discriminator.
pub open spec fn spec_mono() -> Seq<u8> {
    seq![0x6du8, 0x6fu8, 0x6eu8, 0x6fu8]
}

/// The content bytes of the "stereo" discriminator.
pub open spec fn spec_stereo() -> Seq<u8> {
    seq![0x73u8, 0x74u8, 0x65u8, 0x72u8, 0x65u8, 0x6fu8]
}

/// A port type discriminator: the content bytes of the string it is requested
/// under, without any terminator. Well-formed values are non-empty and
/// NUL-free; absence of a discriminator is `Option::<AudioPortType>::None`,
/// never an empty value.
#[derive(Clone, PartialEq, Eq, Debug)]
pub struct AudioPortType(pub Vec<u8>);

impl View for AudioPortType {
    type V = Seq<u8>;

    open spec fn view(&self) -> Seq<u8> {
        self.0@
    }
}

impl AudioPortType {
    /// Non-empty, NUL-free content: what every discriminator read from or
    /// written to the wire satisfies.
    pub open spec fn wf(&self) -> bool {
        self@.len() > 0 && spec_nul_free(self@)
    }

    /// The "mono" discriminator: one audio channel.
    pub fn mono() -> (r: Self)
        ensures
            r@ == spec_mono(),
            r.wf(),
    {
        let mut v: Vec<u8> = Vec::new();
        v.push(0x6d);
        v.push(0x6f);
        v.push(0x6e);
        v.push(0x6f);
        proof {
            assert(v@ =~= spec_mono());
        }
        AudioPortType(v)
    }

    /// The "stereo" discriminator: two audio channels.
    pub fn stereo() -> (r: Self)
        ensures
            r@ == spec_stereo(),
            r.wf(),
    {
        let mut v: Vec<u8> = Vec::new();
        v.push(0x73);
        v.push(0x74);
        v.push(0x65);
        v.push(0x72);
        v.push(0x65);
        v.push(0x6f);
        proof {
            assert(v@ =~= spec_stereo());
        }
        AudioPortType(v)
    }

    /// The standard discriminator for the given channel count, where one
    /// exists: "mono" for one channel, "stereo" for two.
    pub fn from_channel_count(channel_count: u32) -> (r: Option<Self>)
        ensures
            channel_count == 1 ==> (r matches Some(t) && t@ == spec_mono()),
            channel_count == 2 ==> (r matches Some(t) && t@ == spec_stereo()),
            channel_count != 1 && channel_count != 2 ==> r is None,
            r matches Some(t) ==> t.wf(),
    {
        match channel_count {
            1 => Some(Self::mono()),
            2 => Some(Self::stereo()),
            _ => None,
        }
    }

    /// Decodes the raw discriminator field: an absent string (a null pointer
    /// on the wire) and an empty string both decode to "absent"; any other
    /// content decodes to a present discriminator holding it verbatim.
    pub fn from_raw(raw: Option<Vec<u8>>) -> (r: Option<Self>)
        requires
            raw matches Some(s) ==> spec_nul_free(s@),
        ensures
            spec_option_type_view(r) == spec_port_type_from_raw(spec_option_bytes_view(raw)),
            r matches Some(t) ==> t.wf(),
    {
        match raw {
            None => None,
            Some(s) => {
                if s.len() == 0 {
                    None
                } else {
                    Some(AudioPortType(s))
                }
            },
        }
    }

    /// The content bytes this discriminator is written as on the wire.
    pub fn as_raw(&self) -> (r: &Vec<u8>)
        ensures
            r@ == self@,
    {
        &self.0
    }
}

/// What decoding a raw discriminator field yields: null and empty are both
/// "absent", anything else is itself.
pub open spec fn spec_port_type_from_raw(raw: Option<Seq<u8>>) -> Option<Seq<u8>> {
    match raw {
        None => None,
        Some(s) => if s.len() == 0 {
            None
        } else {
            Some(s)
        },
    }
}

/// The content of an optional discriminator, as a plain byte sequence.
pub open spec fn spec_option_type_view(t: Option<AudioPortType>) -> Option<Seq<u8>> {
    match t {
        Some(t) => Some(t@),
        None => None,
    }
}

/// The content of an optional byte buffer, as a plain byte sequence.
pub open spec fn spec_option_bytes_view(b: Option<Vec<u8>>) -> Option<Seq<u8>> {
    match b {
        Some(b) => Some(b@),
        None => None,
    }
}

} // verus!
