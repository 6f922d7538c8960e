use clap_audio_ports::flags::PORT_FLAGS_ALL;
use clap_audio_ports::flags::RESCAN_ALL;
use clap_audio_ports::id::STABLE_ID_SENTINEL;
use clap_audio_ports::record::NAME_CAPACITY;
use clap_audio_ports::AudioPortFlags;
use clap_audio_ports::RescanType;

use clap_sys::ext::audio_ports::CLAP_AUDIO_PORTS_RESCAN_CHANNEL_COUNT;
use clap_sys::ext::audio_ports::CLAP_AUDIO_PORTS_RESCAN_FLAGS;
use clap_sys::ext::audio_ports::CLAP_AUDIO_PORTS_RESCAN_IN_PLACE_PAIR;
use clap_sys::ext::audio_ports::CLAP_AUDIO_PORTS_RESCAN_LIST;
use clap_sys::ext::audio_ports::CLAP_AUDIO_PORTS_RESCAN_NAMES;
use clap_sys::ext::audio_ports::CLAP_AUDIO_PORTS_RESCAN_PORT_TYPE;
use clap_sys::ext::audio_ports::CLAP_AUDIO_PORT_IS_MAIN;
use clap_sys::ext::audio_ports::CLAP_AUDIO_PORT_PREFERS_64BITS;
use clap_sys::ext::audio_ports::CLAP_AUDIO_PORT_REQUIRES_COMMON_SAMPLE_SIZE;
use clap_sys::ext::audio_ports::CLAP_AUDIO_PORT_SUPPORTS_64BITS;
use clap_sys::id::CLAP_INVALID_ID;
use clap_sys::string_sizes::CLAP_NAME_SIZE;

#[test]
fn rescan_bits_match_the_wire_protocol() {
    assert_eq!(RescanType::names().bits(), CLAP_AUDIO_PORTS_RESCAN_NAMES);
    assert_eq!(RescanType::flags().bits(), CLAP_AUDIO_PORTS_RESCAN_FLAGS);
    assert_eq!(RescanType::channel_count().bits(), CLAP_AUDIO_PORTS_RESCAN_CHANNEL_COUNT);
    assert_eq!(RescanType::port_type().bits(), CLAP_AUDIO_PORTS_RESCAN_PORT_TYPE);
    assert_eq!(RescanType::in_place_pair().bits(), CLAP_AUDIO_PORTS_RESCAN_IN_PLACE_PAIR);
    assert_eq!(RescanType::list().bits(), CLAP_AUDIO_PORTS_RESCAN_LIST);
    assert_eq!(
        RESCAN_ALL,
        CLAP_AUDIO_PORTS_RESCAN_NAMES
            | CLAP_AUDIO_PORTS_RESCAN_FLAGS
            | CLAP_AUDIO_PORTS_RESCAN_CHANNEL_COUNT
            | CLAP_AUDIO_PORTS_RESCAN_PORT_TYPE
            | CLAP_AUDIO_PORTS_RESCAN_IN_PLACE_PAIR
            | CLAP_AUDIO_PORTS_RESCAN_LIST
    );
}

#[test]
fn port_flag_bits_match_the_wire_protocol() {
    assert_eq!(AudioPortFlags::is_main().bits(), CLAP_AUDIO_PORT_IS_MAIN);
    assert_eq!(AudioPortFlags::supports_64bits().bits(), CLAP_AUDIO_PORT_SUPPORTS_64BITS);
    assert_eq!(AudioPortFlags::prefers_64bits().bits(), CLAP_AUDIO_PORT_PREFERS_64BITS);
    assert_eq!(
        AudioPortFlags::requires_common_sample_size().bits(),
        CLAP_AUDIO_PORT_REQUIRES_COMMON_SAMPLE_SIZE
    );
    assert_eq!(
        PORT_FLAGS_ALL,
        CLAP_AUDIO_PORT_IS_MAIN
            | CLAP_AUDIO_PORT_SUPPORTS_64BITS
            | CLAP_AUDIO_PORT_PREFERS_64BITS
            | CLAP_AUDIO_PORT_REQUIRES_COMMON_SAMPLE_SIZE
    );
}

#[test]
fn layout_constants_match_the_wire_protocol() {
    assert_eq!(NAME_CAPACITY, CLAP_NAME_SIZE);
    assert_eq!(STABLE_ID_SENTINEL, CLAP_INVALID_ID);
}

#[test]
fn rescan_table_of_the_policy() {
    assert!(!RescanType::empty().requires_deactivate());
    assert!(!RescanType::names().requires_deactivate());
    assert!(RescanType::names().union(RescanType::flags()).requires_deactivate());
    assert!(RescanType::list().requires_deactivate());
    assert!(RescanType::flags().requires_deactivate());
    assert!(RescanType::channel_count().requires_deactivate());
    assert!(RescanType::port_type().requires_deactivate());
    assert!(RescanType::in_place_pair().requires_deactivate());
}

#[test]
fn rescan_policy_exhaustive_over_known_bits() {
    let singles = [
        RescanType::names(),
        RescanType::flags(),
        RescanType::channel_count(),
        RescanType::port_type(),
        RescanType::in_place_pair(),
        RescanType::list(),
    ];
    for mask in 0u32..64 {
        let mut set = RescanType::empty();
        for (i, single) in singles.iter().enumerate() {
            if mask & (1 << i) != 0 {
                set = set.union(*single);
            }
        }
        let expected = mask & !CLAP_AUDIO_PORTS_RESCAN_NAMES != 0;
        assert_eq!(set.requires_deactivate(), expected, "mask {mask:#x}");
    }
}

#[test]
fn unknown_bits_do_not_force_deactivation() {
    let set = RescanType::from_bits_truncate(0xFFFF_FFC0);
    assert_eq!(set.bits(), 0);
    assert!(!set.requires_deactivate());
}

#[test]
fn set_operations() {
    let a = RescanType::names().union(RescanType::list());
    assert!(a.intersects(RescanType::list()));
    assert!(!a.intersects(RescanType::flags()));
    assert!(a.contains(RescanType::names()));
    assert!(!a.contains(RescanType::names().union(RescanType::flags())));

    let f = AudioPortFlags::is_main().union(AudioPortFlags::prefers_64bits());
    assert!(f.intersects(AudioPortFlags::is_main()));
    assert!(!f.intersects(AudioPortFlags::supports_64bits()));
    assert!(f.contains(AudioPortFlags::prefers_64bits()));
    assert_eq!(AudioPortFlags::from_bits_truncate(0x1F).bits(), 0xF);
    assert_eq!(AudioPortFlags::empty().bits(), 0);
}
