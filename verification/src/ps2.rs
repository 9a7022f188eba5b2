//! Consumer of the register model: an event-sourced receive register in the
//! PS2 style.
//!
//! The receive register carries an 8-bit `data` field and a 1-bit `valid`
//! flag. `read` polls it, copying each valid byte into the caller's buffer
//! and stopping at the first invalid read or a full buffer; `listen` and
//! `unlisten` drive the event-enable register for interrupt-driven use.

use crate::fields::{extract_field, lemma_extract_field_bound, spec_extract_field};
use crate::interface::{InterfaceSlot, MemoryInterface};
use crate::peripherals::{
    register_block, rx_data_field, rx_valid_field, Instance, Register, EV_ENABLE_OFFSET, RX_OFFSET,
};
use crate::registers::{access_ok, read_reg, slot_mem, slot_ready, spec_reg_word, write_reg};
use vstd::prelude::*;

verus! {

/// The PS2 driver: owns an instance of the peripheral's register block.
pub struct PS2 {
    pub ps2: Instance,
}

/// The word the receive register occupies on the remote bus.
pub open spec fn rx_word(p: PS2) -> u32 {
    spec_reg_word(p.ps2, Register { offset: RX_OFFSET })
}

/// The word the event-enable register occupies on the remote bus.
pub open spec fn ev_enable_word(p: PS2) -> u32 {
    spec_reg_word(p.ps2, Register { offset: EV_ENABLE_OFFSET })
}

/// The `data` field of a receive-register cell.
pub open spec fn spec_rx_data(cell: u32) -> u32 {
    spec_extract_field(cell, crate::fields::Field { offset: 0, width: 8 })
}

/// The `valid` field of a receive-register cell.
pub open spec fn spec_rx_valid(cell: u32) -> u32 {
    spec_extract_field(cell, crate::fields::Field { offset: 8, width: 1 })
}

impl PS2 {
    /// Wraps an owned instance of the peripheral.
    pub fn new(ps2: Instance) -> (p: PS2)
        ensures
            p.ps2 == ps2,
    {
        PS2 { ps2 }
    }

    /// Enables the data event: writes one to the event-enable register.
    pub fn listen<M: MemoryInterface>(&mut self, slot: &mut InterfaceSlot<M>)
        requires
            access_ok(*old(slot), old(self).ps2, (Register { offset: EV_ENABLE_OFFSET })),
        ensures
            *final(self) == *old(self),
            slot_ready(*final(slot)),
            slot_mem(*final(slot)) == slot_mem(*old(slot)).update(
                ev_enable_word(*old(self)) as int,
                1u32,
            ),
    {
        let block = register_block();
        write_reg(slot, &self.ps2, block.EV_ENABLE, 1);
    }

    /// Disables the data event: writes zero to the event-enable register.
    pub fn unlisten<M: MemoryInterface>(&mut self, slot: &mut InterfaceSlot<M>)
        requires
            access_ok(*old(slot), old(self).ps2, (Register { offset: EV_ENABLE_OFFSET })),
        ensures
            *final(self) == *old(self),
            slot_ready(*final(slot)),
            slot_mem(*final(slot)) == slot_mem(*old(slot)).update(
                ev_enable_word(*old(self)) as int,
                0u32,
            ),
    {
        let block = register_block();
        write_reg(slot, &self.ps2, block.EV_ENABLE, 0);
    }

    /// Polls the receive register, copying each valid byte into `buf`,
    /// stopping at the first invalid read or a full buffer; returns how
    /// many bytes were stored. Against the pure device model the cell
    /// never changes between polls, so either the valid flag is clear and
    /// nothing is stored, or the buffer fills with the data byte.
    pub fn read<M: MemoryInterface>(
        &mut self,
        slot: &mut InterfaceSlot<M>,
        buf: &mut Vec<u8>,
    ) -> (count: usize)
        requires
            access_ok(*old(slot), old(self).ps2, (Register { offset: RX_OFFSET })),
        ensures
            *final(self) == *old(self),
            slot_ready(*final(slot)),
            slot_mem(*final(slot)) == slot_mem(*old(slot)),
            final(buf)@.len() == old(buf)@.len(),
            ({
                let cell = slot_mem(*old(slot))[rx_word(*old(self)) as int];
                if spec_rx_valid(cell) != 0 {
                    count == old(buf)@.len() && final(buf)@ == Seq::new(
                        old(buf)@.len(),
                        |i: int| spec_rx_data(cell) as u8,
                    )
                } else {
                    count == 0 && final(buf)@ == old(buf)@
                }
            }),
    {
        let block = register_block();
        let data_field = rx_data_field();
        let valid_field = rx_valid_field();
        let ghost cell0 = slot_mem(*old(slot))[rx_word(*old(self)) as int];
        let n = buf.len();
        let mut count: usize = 0;
        let mut stop: bool = false;
        while !stop && count < n
            invariant
                block.RX == (Register { offset: RX_OFFSET }),
                data_field == (crate::fields::Field { offset: 0, width: 8 }),
                valid_field == (crate::fields::Field { offset: 8, width: 1 }),
                count <= n,
                n == buf@.len(),
                buf@.len() == old(buf)@.len(),
                *self == *old(self),
                slot_ready(*slot),
                slot_mem(*slot) == slot_mem(*old(slot)),
                access_ok(*slot, self.ps2, (Register { offset: RX_OFFSET })),
                cell0 == slot_mem(*old(slot))[rx_word(*old(self)) as int],
                stop ==> spec_rx_valid(cell0) == 0 && count == 0,
                count > 0 ==> spec_rx_valid(cell0) != 0,
                forall|j: int| 0 <= j < count ==> buf@[j] == spec_rx_data(cell0) as u8,
                forall|j: int| count <= j < buf@.len() ==> buf@[j] == old(buf)@[j],
            decreases n - count + (if stop { 0int } else { 1int }),
        {
            let cell = read_reg(slot, &self.ps2, block.RX);
            let valid = extract_field(cell, valid_field);
            if valid != 0 {
                let data = extract_field(cell, data_field);
                proof {
                    lemma_extract_field_bound(cell, data_field);
                    assert(crate::fields::mask_bits(8) == 255) by (bit_vector);
                }
                buf.set(count, data as u8);
                count = count + 1;
            } else {
                stop = true;
            }
        }
        proof {
            if spec_rx_valid(cell0) != 0 {
                assert(count == n);
                assert(buf@ =~= Seq::new(old(buf)@.len(), |i: int| spec_rx_data(cell0) as u8));
            } else {
                assert(count == 0);
                assert(buf@ =~= old(buf)@);
            }
        }
        count
    }
}

} // verus!
