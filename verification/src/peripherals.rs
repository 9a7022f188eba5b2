//! Layout of the PS2 peripheral's register block.
//!
//! The block holds four consecutive 32-bit registers; their byte offsets
//! from the instance's base address and their named bitfields must match the
//! target device's build exactly, or accesses silently hit the wrong field.

use crate::fields::Field;
use vstd::prelude::*;

verus! {

/// Byte offset of the receive register inside the block.
pub const RX_OFFSET: u32 = 0;

/// Byte offset of the event-status register.
pub const EV_STATUS_OFFSET: u32 = 4;

/// Byte offset of the event-pending register.
pub const EV_PENDING_OFFSET: u32 = 8;

/// Byte offset of the event-enable register.
pub const EV_ENABLE_OFFSET: u32 = 12;

/// One register of a block: a 32-bit read-write cell at a fixed byte offset
/// from the instance's base address.
#[derive(Clone, Copy, PartialEq, Eq, Structural)]
pub struct Register {
    pub offset: u32,
}

/// The PS2 block's registers, by name.
#[allow(non_snake_case)]
pub struct RegisterBlock {
    /// Receive register: `data` in bits 0..8, `valid` in bit 8.
    pub RX: Register,
    /// Current raw level of the data event trigger; writes have no effect.
    pub EV_STATUS: Register,
    /// Set when a data event occurs; write a one to clear it.
    pub EV_PENDING: Register,
    /// Write a one to enable the data event, a zero to disable it.
    pub EV_ENABLE: Register,
}

/// Reset value of each register of the block.
#[allow(non_snake_case)]
pub struct ResetValues {
    pub RX: u32,
    pub EV_STATUS: u32,
    pub EV_PENDING: u32,
    pub EV_ENABLE: u32,
}

/// An ownership handle over one fixed-address register block.
#[derive(PartialEq, Eq, Structural)]
pub struct Instance {
    pub addr: u32,
}

/// The PS2 register block: four consecutive 32-bit registers.
pub fn register_block() -> (b: RegisterBlock)
    ensures
        b.RX.offset == RX_OFFSET,
        b.EV_STATUS.offset == EV_STATUS_OFFSET,
        b.EV_PENDING.offset == EV_PENDING_OFFSET,
        b.EV_ENABLE.offset == EV_ENABLE_OFFSET,
{
    RegisterBlock {
        RX: Register { offset: RX_OFFSET },
        EV_STATUS: Register { offset: EV_STATUS_OFFSET },
        EV_PENDING: Register { offset: EV_PENDING_OFFSET },
        EV_ENABLE: Register { offset: EV_ENABLE_OFFSET },
    }
}

/// Every register of the block resets to zero.
pub fn reset_values() -> (r: ResetValues)
    ensures
        r.RX == 0 && r.EV_STATUS == 0 && r.EV_PENDING == 0 && r.EV_ENABLE == 0,
{
    ResetValues { RX: 0, EV_STATUS: 0, EV_PENDING: 0, EV_ENABLE: 0 }
}

/// The received-data field of the receive register: bits 0..8.
pub fn rx_data_field() -> (f: Field)
    ensures
        f == (Field { offset: 0, width: 8 }),
{
    Field { offset: 0, width: 8 }
}

/// The data-valid field of the receive register: bit 8.
pub fn rx_valid_field() -> (f: Field)
    ensures
        f == (Field { offset: 8, width: 1 }),
{
    Field { offset: 8, width: 1 }
}

/// The data field of the event registers: bit 0.
pub fn ev_data_field() -> (f: Field)
    ensures
        f == (Field { offset: 0, width: 1 }),
{
    Field { offset: 0, width: 1 }
}

} // verus!
