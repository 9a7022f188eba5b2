use leech_hal::interface::{InterfaceSlot, MemoryInterface, SpiMemoryInterface};
use leech_hal::link::{LinkEvent, MockLink};

fn fresh_interface(words: usize) -> SpiMemoryInterface {
    let mut iface = SpiMemoryInterface::new(MockLink::new(vec![0u32; words]));
    iface.upload_bitstream(&Vec::new());
    iface
}

fn transmitted_bytes(events: &[LinkEvent]) -> Vec<u8> {
    let mut bytes = Vec::new();
    for e in events {
        if let LinkEvent::Transmit(b) = e {
            bytes.push(*b);
        }
    }
    bytes
}

#[test]
fn write32_then_read32_round_trips() {
    let mut iface = fresh_interface(16);
    iface.write32(0x0C, 0x1234_5678);
    assert_eq!(iface.read32(0x0C), 0x1234_5678);
    // A second write overwrites the word.
    iface.write32(0x0C, 0xCAFE_F00D);
    assert_eq!(iface.read32(0x0C), 0xCAFE_F00D);
    // Other words are untouched.
    assert_eq!(iface.read32(0x00), 0);
}

#[test]
fn read_transaction_event_trace_is_exact() {
    let mut iface = fresh_interface(16);
    let before = iface.link.events.len();
    iface.read32(0x0C);
    let got = &iface.link.events[before..];
    let mut expected = vec![
        LinkEvent::CriticalEnter,
        LinkEvent::SelectLow,
        LinkEvent::Wait(1),
    ];
    for b in [0x03u8, 0x03, 0x00, 0x00, 0xcc, 0xcc, 0xcc, 0xcc] {
        expected.push(LinkEvent::Transmit(b));
    }
    expected.extend([
        LinkEvent::Wait(1),
        LinkEvent::SelectHigh,
        LinkEvent::Wait(1),
        LinkEvent::CriticalExit,
    ]);
    assert_eq!(got, &expected[..]);
}

#[test]
fn write_transaction_event_trace_is_exact() {
    let mut iface = fresh_interface(16);
    let before = iface.link.events.len();
    iface.write32(0x04, 0xA1B2_C3D4);
    let got = &iface.link.events[before..];
    let mut expected = vec![
        LinkEvent::CriticalEnter,
        LinkEvent::SelectLow,
        LinkEvent::Wait(1),
    ];
    for b in [0x02u8, 0x01, 0x00, 0xD4, 0xC3, 0xB2, 0xA1] {
        expected.push(LinkEvent::Transmit(b));
    }
    expected.extend([
        LinkEvent::Wait(1),
        LinkEvent::SelectHigh,
        LinkEvent::Wait(1),
        LinkEvent::CriticalExit,
    ]);
    assert_eq!(got, &expected[..]);
}

#[test]
fn config_load_event_trace_is_exact() {
    let mut iface = SpiMemoryInterface::new(MockLink::new(vec![0u32; 4]));
    let image = vec![0xAAu8, 0xBB];
    iface.upload_bitstream(&image);
    let mut expected = vec![
        LinkEvent::ResetLow,
        LinkEvent::SelectLow,
        LinkEvent::Wait(10),
        LinkEvent::ResetHigh,
        LinkEvent::Wait(1500),
        LinkEvent::SelectHigh,
        LinkEvent::Transmit(0x00),
        LinkEvent::SelectLow,
        LinkEvent::Transmit(0xAA),
        LinkEvent::Transmit(0xBB),
    ];
    for _ in 0..6 {
        expected.push(LinkEvent::Transmit(0x00));
    }
    expected.push(LinkEvent::SelectHigh);
    assert_eq!(iface.link.events, expected);
    // Chip select is released only by the very last event.
    assert_eq!(*iface.link.events.last().unwrap(), LinkEvent::SelectHigh);
    assert!(!iface.link.select_low);
    assert!(!iface.link.reset_low);
}

#[test]
fn config_load_transmits_dummy_image_then_pad() {
    let mut iface = SpiMemoryInterface::new(MockLink::new(vec![0u32; 4]));
    iface.upload_bitstream(&vec![0xAAu8, 0xBB]);
    assert_eq!(
        transmitted_bytes(&iface.link.events),
        vec![0x00, 0xAA, 0xBB, 0x00, 0x00, 0x00, 0x00, 0x00, 0x00],
    );
}

#[test]
fn install_replaces_prior_binding() {
    let mut slot: InterfaceSlot<SpiMemoryInterface> = InterfaceSlot::empty();
    assert!(slot.iface.is_none());
    fresh_interface(4).install(&mut slot);
    assert!(slot.iface.is_some());
    let mut second = fresh_interface(8);
    second.write32(0x00, 7);
    second.install(&mut slot);
    // The replacement is silent and complete: the new device model answers.
    let m = slot.iface.as_mut().unwrap();
    assert_eq!(m.read32(0x00), 7);
    assert_eq!(m.link.device.mem.len(), 8);
}

#[test]
fn us_ticks_scales_the_core_clock() {
    assert_eq!(leech_hal::interface::us_ticks(84_000_000), 84);
    assert_eq!(leech_hal::interface::us_ticks(999_999), 0);
}
