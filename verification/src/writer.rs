//! The write-once buffer writer and the plugin-side boundary glue: the
//! counterpart asks for one record through a writer, and the glue reports
//! "not populated" without ever exposing an unwritten buffer.

use vstd::prelude::*;

use crate::id::STABLE_ID_SENTINEL;
use crate::record::spec_encode;
use crate::record::spec_info_wf;
use crate::record::AudioPortInfo;
use crate::record::AudioPortInfoView;
use crate::record::RawAudioPortInfo;
use crate::record::RawAudioPortInfoView;

verus! {

/// Wraps the destination of one record and guarantees that what crosses the
/// boundary is only ever a record fully materialized by [`set`]: the writer
/// starts logically empty, and the single mutating operation encodes a whole
/// record at once. Calling [`set`] again overwrites the record wholesale;
/// the last write wins.
///
/// [`set`]: AudioPortInfoWriter::set
pub struct AudioPortInfoWriter {
    buf: Option<RawAudioPortInfo>,
}

impl AudioPortInfoWriter {
    /// Whatever any implementation does with a writer, a present buffer is
    /// always the full encoding of some well-formed record.
    #[verifier::type_invariant]
    spec fn inv(self) -> bool {
        self.buf matches Some(b) ==> b.wf() && exists|d: AudioPortInfoView|
            #[trigger] spec_encode(d) == b@ && spec_info_wf(d) && d.id != STABLE_ID_SENTINEL
    }

    /// The record written so far, if any.
    pub closed spec fn written(self) -> Option<RawAudioPortInfoView> {
        match self.buf {
            Some(b) => Some(b@),
            None => None,
        }
    }

    /// Whether a write occurred.
    pub open spec fn spec_is_set(self) -> bool {
        self.written() is Some
    }

    /// A fresh writer around a destination nothing has been written to.
    pub fn new() -> (r: Self)
        ensures
            r.written() is None,
            !r.spec_is_set(),
    {
        AudioPortInfoWriter { buf: None }
    }

    /// Whether [`set`](AudioPortInfoWriter::set) was called; the boundary
    /// glue turns "false" into the ABI's failure return without reading the
    /// destination.
    pub fn is_set(&self) -> (r: bool)
        ensures
            r == self.spec_is_set(),
    {
        self.buf.is_some()
    }

    /// Performs the full field-by-field encode of `data` into the
    /// destination and marks the writer as set. A second call overwrites the
    /// whole record again; the last write wins.
    pub fn set(&mut self, data: &AudioPortInfo)
        requires
            data.wf(),
        ensures
            final(self).written() == Some(spec_encode(data@)),
            final(self).spec_is_set(),
    {
        let raw = data.to_raw();
        proof {
            assert(spec_encode(data@) == raw@);
        }
        self.buf = Some(raw);
    }

    /// Hands the destination out: the materialized record where a write
    /// occurred, and "absent" — never unwritten memory — where none did.
    pub fn into_written(self) -> (r: Option<RawAudioPortInfo>)
        ensures
            r is Some <==> self.spec_is_set(),
            r matches Some(b) ==> self.written() == Some(b@),
            r matches Some(b) ==> b.wf() && exists|d: AudioPortInfoView|
                #[trigger] spec_encode(d) == b@ && spec_info_wf(d) && d.id != STABLE_ID_SENTINEL,
    {
        proof {
            use_type_invariant(&self);
        }
        self.buf
    }
}

/// What a plugin implements to describe its audio ports. The boundary glue
/// calls it on the counterpart's behalf; absence of a port at an index is
/// reported by leaving the writer unset, never by a fault.
pub trait PluginAudioPortsImpl {
    /// Returns the number of audio ports in the given direction: input ports
    /// where `is_input` holds, output ports otherwise.
    fn count(&mut self, is_input: bool) -> u32;

    /// Describes the port at `index` in the given direction through the
    /// writer, or declines by not writing. Must tolerate any `index`,
    /// including one at or past the count.
    fn get(&mut self, index: u32, is_input: bool, writer: &mut AudioPortInfoWriter);
}

/// The plugin-side boundary glue for one "get" call: asks the implementation
/// to describe the port at `index` through a fresh writer, and hands back the
/// record only where the implementation wrote one. Whatever the
/// implementation did, the result is "absent" — the ABI's `false`, with the
/// destination left untouched — or the full encoding of some well-formed
/// record; unwritten memory never crosses the boundary.
pub fn get_port_info<P: PluginAudioPortsImpl>(plugin: &mut P, index: u32, is_input: bool) -> (r:
    Option<RawAudioPortInfo>)
    ensures
        r matches Some(b) ==> b.wf() && exists|d: AudioPortInfoView|
            #[trigger] spec_encode(d) == b@ && spec_info_wf(d) && d.id != STABLE_ID_SENTINEL,
{
    let mut writer = AudioPortInfoWriter::new();
    plugin.get(index, is_input, &mut writer);
    writer.into_written()
}

} // verus!
