//! Safety layer for the CLAP "audio ports" extension: the metadata record and
//! its codec, a write-once buffer writer, the rescan capability bitsets with
//! their deactivation policy, side-tagged extension handles, and null-checked
//! helpers for the counterpart's optional function table.

pub mod flags;
pub mod handle;
pub mod host;
pub mod id;
pub mod port_type;
pub mod record;
pub mod writer;

pub use flags::AudioPortFlags;
pub use flags::RescanType;
pub use handle::HostAudioPorts;
pub use handle::PluginAudioPorts;
pub use handle::RawExtensionHandle;
pub use id::ClapId;
pub use port_type::AudioPortType;
pub use record::AudioPortInfo;
pub use record::RawAudioPortInfo;
pub use writer::AudioPortInfoWriter;
pub use writer::PluginAudioPortsImpl;
