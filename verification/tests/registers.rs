use leech_hal::fields::Field;
use leech_hal::instances::Ps2Singleton;
use leech_hal::interface::{InterfaceSlot, SpiMemoryInterface};
use leech_hal::link::MockLink;
use leech_hal::peripherals::{ev_data_field, register_block};
use leech_hal::ps2::PS2;
use leech_hal::registers::{read_field, read_reg, write_field, write_reg};

// Enough words to reach the PS2 block at 0x800 (word 0x200) and its four
// registers.
fn installed_slot() -> InterfaceSlot<SpiMemoryInterface> {
    let mut iface = SpiMemoryInterface::new(MockLink::new(vec![0u32; 516]));
    iface.upload_bitstream(&Vec::new());
    let mut slot = InterfaceSlot::empty();
    iface.install(&mut slot);
    slot
}

#[test]
fn block_layout_and_reset_values() {
    let block = register_block();
    assert_eq!(block.RX.offset, 0);
    assert_eq!(block.EV_STATUS.offset, 4);
    assert_eq!(block.EV_PENDING.offset, 8);
    assert_eq!(block.EV_ENABLE.offset, 12);
    let reset = leech_hal::peripherals::reset_values();
    assert_eq!(
        (reset.RX, reset.EV_STATUS, reset.EV_PENDING, reset.EV_ENABLE),
        (0, 0, 0, 0),
    );
}

#[test]
fn write_field_then_read_field_round_trips_and_keeps_other_bits() {
    let mut slot = installed_slot();
    let mut s = Ps2Singleton::new();
    let inst = s.take().unwrap();
    let rx = register_block().RX;
    let field = Field { offset: 8, width: 1 };

    write_reg(&mut slot, &inst, rx, 0x1234_5678);
    write_field(&mut slot, &inst, rx, field, 1);
    assert_eq!(read_field(&mut slot, &inst, rx, field), 1);
    // Every bit outside the field keeps the value the read-modify-write saw.
    let expected = (0x1234_5678u32 & !(1 << 8)) | (1 << 8);
    assert_eq!(read_reg(&mut slot, &inst, rx), expected);

    // Clearing the field restores the original cell.
    write_field(&mut slot, &inst, rx, field, 0);
    assert_eq!(read_reg(&mut slot, &inst, rx), 0x1234_5678 & !(1 << 8));
}

#[test]
fn field_write_masks_excess_bits() {
    let mut slot = installed_slot();
    let mut s = Ps2Singleton::new();
    let inst = s.take().unwrap();
    let rx = register_block().RX;
    let data = Field { offset: 0, width: 8 };

    // Only the low eight bits of the written value land in the field.
    write_field(&mut slot, &inst, rx, data, 0x1FF);
    assert_eq!(read_field(&mut slot, &inst, rx, data), 0xFF);
    assert_eq!(read_reg(&mut slot, &inst, rx), 0xFF);
}

#[test]
fn listen_and_unlisten_drive_the_enable_register() {
    let mut slot = installed_slot();
    let mut s = Ps2Singleton::new();
    let mut ps2 = PS2::new(s.take().unwrap());
    let block = register_block();

    ps2.listen(&mut slot);
    assert_eq!(read_reg(&mut slot, &ps2.ps2, block.EV_ENABLE), 1);
    assert_eq!(read_field(&mut slot, &ps2.ps2, block.EV_ENABLE, ev_data_field()), 1);
    ps2.unlisten(&mut slot);
    assert_eq!(read_reg(&mut slot, &ps2.ps2, block.EV_ENABLE), 0);
}

#[test]
fn read_copies_valid_bytes_until_the_buffer_is_full() {
    let mut slot = installed_slot();
    let mut s = Ps2Singleton::new();
    let mut ps2 = PS2::new(s.take().unwrap());
    let rx = register_block().RX;

    // valid bit set, data byte 0xAB: against the pure device model every
    // poll sees the same cell, so the buffer fills with the data byte.
    write_reg(&mut slot, &ps2.ps2, rx, 0x1AB);
    let mut buf = vec![0u8; 4];
    assert_eq!(ps2.read(&mut slot, &mut buf), 4);
    assert_eq!(buf, vec![0xAB; 4]);
}

#[test]
fn read_stops_at_an_invalid_cell() {
    let mut slot = installed_slot();
    let mut s = Ps2Singleton::new();
    let mut ps2 = PS2::new(s.take().unwrap());
    let rx = register_block().RX;

    // valid bit clear: nothing is copied and the buffer is untouched.
    write_reg(&mut slot, &ps2.ps2, rx, 0x0AB);
    let mut buf = vec![0x11u8; 4];
    assert_eq!(ps2.read(&mut slot, &mut buf), 0);
    assert_eq!(buf, vec![0x11; 4]);
}
