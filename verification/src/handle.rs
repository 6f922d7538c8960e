//! Side-tagged opaque extension handles. A handle is an address plus a
//! compile-time side tag; it owns nothing and is only ever produced by the
//! negotiation path together with the matching tag, so a handle obtained for
//! one side can never be reinterpreted as the other side's function table
//! without explicitly bypassing this API.

use vstd::prelude::*;

verus! {

/// Tag of a function table the plugin exposes to the host.
#[derive(Copy, Clone, PartialEq, Eq, Structural)]
pub struct PluginExtensionSide;

/// Tag of a function table the host exposes to the plugin.
#[derive(Copy, Clone, PartialEq, Eq, Structural)]
pub struct HostExtensionSide;

/// An opaque handle to one party's extension function table: the table's
/// address and a zero-sized side tag. Carrying the address as a plain value
/// keeps the single unsafe operation — casting it to a concrete table — in
/// the unverified boundary layer, where it must only be performed on a
/// handle the negotiation path produced for that very table.
#[verifier::reject_recursive_types(S)]
#[derive(Copy, Clone)]
pub struct RawExtensionHandle<S> {
    addr: usize,
    side: S,
}

impl<S: Copy> RawExtensionHandle<S> {
    /// The table address this handle carries.
    pub closed spec fn spec_addr(self) -> usize {
        self.addr
    }

    /// Wraps the address of a negotiated function table, tagging it with the
    /// side whose tag value is passed. The caller asserts, as a precondition
    /// it alone can uphold, that the address was returned by the
    /// counterpart's "get extension" call for an identifier of the extension
    /// whose side is `S`.
    pub fn new(addr: usize, side: S) -> (r: Self)
        ensures
            r.spec_addr() == addr,
    {
        RawExtensionHandle { addr, side }
    }

    /// The table address, for the boundary layer that performs the cast.
    pub fn address(&self) -> (r: usize)
        ensures
            r == self.spec_addr(),
    {
        self.addr
    }
}

/// The identifier the audio ports extension is requested under, as content
/// bytes: "clap.audio-ports".
pub open spec fn spec_audio_ports_identifier() -> Seq<u8> {
    seq![
        0x63u8, 0x6cu8, 0x61u8, 0x70u8, 0x2eu8, 0x61u8, 0x75u8, 0x64u8, 0x69u8, 0x6fu8, 0x2du8,
        0x70u8, 0x6fu8, 0x72u8, 0x74u8, 0x73u8,
    ]
}

fn audio_ports_identifier() -> (r: Vec<u8>)
    ensures
        r@ == spec_audio_ports_identifier(),
{
    let mut v: Vec<u8> = Vec::new();
    v.push(0x63);
    v.push(0x6c);
    v.push(0x61);
    v.push(0x70);
    v.push(0x2e);
    v.push(0x61);
    v.push(0x75);
    v.push(0x64);
    v.push(0x69);
    v.push(0x6f);
    v.push(0x2d);
    v.push(0x70);
    v.push(0x6f);
    v.push(0x72);
    v.push(0x74);
    v.push(0x73);
    proof {
        assert(v@ =~= spec_audio_ports_identifier());
    }
    v
}

/// The plugin's audio ports extension, as negotiated by the host: a typed
/// wrapper around the plugin-side handle.
#[derive(Copy, Clone)]
pub struct PluginAudioPorts {
    handle: RawExtensionHandle<PluginExtensionSide>,
}

impl PluginAudioPorts {
    /// The handle this wrapper was negotiated with.
    pub closed spec fn spec_handle(self) -> RawExtensionHandle<PluginExtensionSide> {
        self.handle
    }

    /// Wraps a negotiated plugin-side handle. Only a handle the negotiation
    /// path produced for this extension's identifier may be passed here;
    /// the side tag makes a host-side handle unacceptable by type.
    pub fn from_raw(raw: RawExtensionHandle<PluginExtensionSide>) -> (r: Self)
        ensures
            r.spec_handle() == raw,
    {
        PluginAudioPorts { handle: raw }
    }

    /// The handle this wrapper was negotiated with, for the boundary layer
    /// that performs the cast to the concrete table.
    pub fn handle(&self) -> (r: RawExtensionHandle<PluginExtensionSide>)
        ensures
            r == self.spec_handle(),
    {
        self.handle
    }

    /// The ordered identifiers this extension may be requested under, tried
    /// first to last during negotiation; for audio ports there is exactly
    /// one.
    pub fn identifiers() -> (r: Vec<Vec<u8>>)
        ensures
            r@.len() == 1,
            r@[0]@ == spec_audio_ports_identifier(),
    {
        let mut v: Vec<Vec<u8>> = Vec::new();
        v.push(audio_ports_identifier());
        v
    }
}

/// The host's audio ports extension, as negotiated by the plugin: a typed
/// wrapper around the host-side handle.
#[derive(Copy, Clone)]
pub struct HostAudioPorts {
    handle: RawExtensionHandle<HostExtensionSide>,
}

impl HostAudioPorts {
    /// The handle this wrapper was negotiated with.
    pub closed spec fn spec_handle(self) -> RawExtensionHandle<HostExtensionSide> {
        self.handle
    }

    /// Wraps a negotiated host-side handle. Only a handle the negotiation
    /// path produced for this extension's identifier may be passed here;
    /// the side tag makes a plugin-side handle unacceptable by type.
    pub fn from_raw(raw: RawExtensionHandle<HostExtensionSide>) -> (r: Self)
        ensures
            r.spec_handle() == raw,
    {
        HostAudioPorts { handle: raw }
    }

    /// The handle this wrapper was negotiated with, for the boundary layer
    /// that performs the cast to the concrete table.
    pub fn handle(&self) -> (r: RawExtensionHandle<HostExtensionSide>)
        ensures
            r == self.spec_handle(),
    {
        self.handle
    }

    /// The ordered identifiers this extension may be requested under, tried
    /// first to last during negotiation; for audio ports there is exactly
    /// one.
    pub fn identifiers() -> (r: Vec<Vec<u8>>)
        ensures
            r@.len() == 1,
            r@[0]@ == spec_audio_ports_identifier(),
    {
        let mut v: Vec<Vec<u8>> = Vec::new();
        v.push(audio_ports_identifier());
        v
    }
}

} // verus!
