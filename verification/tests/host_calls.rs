use std::cell::Cell;
use std::rc::Rc;

use clap_audio_ports::handle::HostExtensionSide;
use clap_audio_ports::HostAudioPorts;
use clap_audio_ports::RawExtensionHandle;
use clap_audio_ports::RescanType;

fn host() -> HostAudioPorts {
    HostAudioPorts::from_raw(RawExtensionHandle::new(0x1000, HostExtensionSide))
}

#[test]
fn absent_query_answers_false_for_every_flag() {
    let host = host();
    let singles = [
        RescanType::empty(),
        RescanType::names(),
        RescanType::flags(),
        RescanType::channel_count(),
        RescanType::port_type(),
        RescanType::in_place_pair(),
        RescanType::list(),
        RescanType::names().union(RescanType::list()),
        RescanType::from_bits_truncate(0xFFFF_FFFF),
    ];
    for flag in singles {
        assert!(!host.is_rescan_flag_supported(None::<fn(u32) -> bool>, flag));
    }
}

#[test]
fn absent_rescan_is_a_no_op_and_does_not_fault() {
    let host = host();
    host.rescan(None::<fn(u32)>, RescanType::list());
    host.rescan(None::<fn(u32)>, RescanType::empty());
}

#[test]
fn present_query_is_called_with_the_raw_bits_and_forwarded() {
    let host = host();
    let seen = Rc::new(Cell::new(0u32));
    let seen_in = Rc::clone(&seen);
    let query = move |bits: u32| {
        seen_in.set(bits);
        bits == 0x2
    };
    let flag = RescanType::flags();
    assert!(host.is_rescan_flag_supported(Some(query), flag));
    assert_eq!(seen.get(), 0x2);

    let seen2 = Rc::new(Cell::new(0u32));
    let seen2_in = Rc::clone(&seen2);
    let query2 = move |bits: u32| {
        seen2_in.set(bits);
        false
    };
    assert!(!host.is_rescan_flag_supported(Some(query2), RescanType::names()));
    assert_eq!(seen2.get(), 0x1);
}

#[test]
fn present_rescan_is_invoked_once_with_the_raw_bits() {
    let host = host();
    let calls = Rc::new(Cell::new(0u32));
    let seen = Rc::new(Cell::new(0u32));
    let calls_in = Rc::clone(&calls);
    let seen_in = Rc::clone(&seen);
    let notify = move |bits: u32| {
        calls_in.set(calls_in.get() + 1);
        seen_in.set(bits);
    };
    host.rescan(Some(notify), RescanType::names().union(RescanType::flags()));
    assert_eq!(calls.get(), 1);
    assert_eq!(seen.get(), 0x3);
}
