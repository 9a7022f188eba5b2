use leech_hal::instances::{Ps2Singleton, ReleaseError, PS2_BASE};
use leech_hal::interface::{InterfaceSlot, SpiMemoryInterface};
use leech_hal::link::MockLink;
use leech_hal::peripherals::Instance;
use leech_hal::ps2::PS2;

#[test]
fn take_twice_fails_without_release() {
    let mut s = Ps2Singleton::new();
    let first = s.take();
    assert!(first.is_some());
    assert_eq!(first.as_ref().unwrap().addr, PS2_BASE);
    assert!(s.take().is_none());
}

#[test]
fn release_in_between_makes_take_succeed_again() {
    let mut s = Ps2Singleton::new();
    let inst = s.take().unwrap();
    assert!(s.take().is_none());
    assert_eq!(s.release(inst), Ok(()));
    assert!(s.take().is_some());
}

#[test]
fn release_of_wrong_instance_is_rejected_and_keeps_the_flag() {
    let mut s = Ps2Singleton::new();
    let inst = s.take().unwrap();
    let stranger = Instance { addr: 0x900 };
    assert_eq!(s.release(stranger), Err(ReleaseError::WrongInstance));
    // The flag was not cleared: the peripheral is still taken.
    assert!(s.take().is_none());
    assert_eq!(s.release(inst), Ok(()));
}

#[test]
fn release_of_untaken_instance_is_rejected() {
    let mut s = Ps2Singleton::new();
    let inst = Instance { addr: PS2_BASE };
    assert_eq!(s.release(inst), Err(ReleaseError::NotTaken));
}

#[test]
fn steal_marks_the_instance_taken() {
    let mut s = Ps2Singleton::new();
    let inst = s.steal();
    assert_eq!(inst.addr, PS2_BASE);
    assert!(s.take().is_none());
    assert_eq!(s.release(inst), Ok(()));
}

#[test]
fn conjure_and_register_read_leave_the_foreground_flag_alone() {
    let mut s = Ps2Singleton::new();
    let foreground = s.take().unwrap();

    // An interrupt handler conjures its own handle and reads a register.
    let mut iface = SpiMemoryInterface::new(MockLink::new(vec![0u32; 516]));
    iface.upload_bitstream(&Vec::new());
    let mut slot: InterfaceSlot<SpiMemoryInterface> = InterfaceSlot::empty();
    iface.install(&mut slot);
    let handler_inst = s.conjure();
    let mut handler = PS2::new(handler_inst);
    let mut buf = vec![0u8; 4];
    let n = handler.read(&mut slot, &mut buf);
    assert_eq!(n, 0);

    // The foreground's taken-flag state is exactly as it was.
    assert!(s.take().is_none());
    assert_eq!(s.release(foreground), Ok(()));
}
