use clap_audio_ports::record::NAME_CAPACITY;
use clap_audio_ports::writer::get_port_info;
use clap_audio_ports::AudioPortFlags;
use clap_audio_ports::AudioPortInfo;
use clap_audio_ports::AudioPortInfoWriter;
use clap_audio_ports::AudioPortType;
use clap_audio_ports::ClapId;
use clap_audio_ports::PluginAudioPortsImpl;

fn stereo_info(id: u32, name: &[u8]) -> AudioPortInfo {
    AudioPortInfo {
        id: ClapId::new(id),
        name: name.to_vec(),
        channel_count: 2,
        flags: AudioPortFlags::is_main(),
        port_type: Some(AudioPortType::stereo()),
        in_place_pair: None,
    }
}

#[test]
fn fresh_writer_is_not_set() {
    let w = AudioPortInfoWriter::new();
    assert!(!w.is_set());
    assert!(w.into_written().is_none());
}

#[test]
fn set_marks_written_and_stores_id() {
    let mut w = AudioPortInfoWriter::new();
    w.set(&stereo_info(5, b"Stereo Out"));
    assert!(w.is_set());
    let raw = w.into_written().expect("a set writer hands its record out");
    assert_eq!(raw.id, 5);
    assert_eq!(raw.name.len(), NAME_CAPACITY);
    assert_eq!(&raw.name[..10], b"Stereo Out");
}

#[test]
fn second_set_overwrites_wholesale() {
    let mut w = AudioPortInfoWriter::new();
    w.set(&stereo_info(5, b"First"));
    w.set(&stereo_info(8, b"Second"));
    assert!(w.is_set());
    let raw = w.into_written().unwrap();
    assert_eq!(raw.id, 8);
    assert_eq!(&raw.name[..6], b"Second");
    assert_eq!(raw.name[6], 0);
}

struct SilentPlugin;

impl PluginAudioPortsImpl for SilentPlugin {
    fn count(&mut self, _is_input: bool) -> u32 {
        0
    }

    fn get(&mut self, _index: u32, _is_input: bool, _writer: &mut AudioPortInfoWriter) {}
}

#[test]
fn declining_implementation_yields_absent() {
    let mut plugin = SilentPlugin;
    assert!(get_port_info(&mut plugin, 0, true).is_none());
    assert!(get_port_info(&mut plugin, 3, false).is_none());
}

struct OnePortPlugin;

impl PluginAudioPortsImpl for OnePortPlugin {
    fn count(&mut self, _is_input: bool) -> u32 {
        1
    }

    fn get(&mut self, index: u32, is_input: bool, writer: &mut AudioPortInfoWriter) {
        if index == 0 {
            let name: &[u8] = if is_input { b"Stereo In" } else { b"Stereo Out" };
            writer.set(&stereo_info(0, name));
        }
    }
}

#[test]
fn writing_implementation_yields_the_record() {
    let mut plugin = OnePortPlugin;
    assert_eq!(plugin.count(true), 1);
    let raw = get_port_info(&mut plugin, 0, true).expect("port 0 exists");
    assert_eq!(raw.id, 0);
    assert_eq!(&raw.name[..9], b"Stereo In");
    assert_eq!(raw.port_type, Some(b"stereo".to_vec()));
}

#[test]
fn out_of_range_index_yields_absent_not_a_fault() {
    let mut plugin = OnePortPlugin;
    assert!(get_port_info(&mut plugin, 1, true).is_none());
    assert!(get_port_info(&mut plugin, u32::MAX, false).is_none());
}

#[test]
fn glue_record_decodes_cleanly() {
    let mut plugin = OnePortPlugin;
    let raw = get_port_info(&mut plugin, 0, false).unwrap();
    let info = AudioPortInfo::from_raw(&raw).unwrap();
    assert_eq!(info.id.get(), 0);
    assert_eq!(info.channel_count, 2);
    assert_eq!(info.flags, AudioPortFlags::is_main());
    assert_eq!(info.port_type.unwrap(), AudioPortType::stereo());
    assert!(info.in_place_pair.is_none());
}
