//! The register model: typed whole-register and bitfield accesses, routed
//! through the installed memory interface.
//!
//! Every access consults the interface slot; an interface must be installed
//! and ready, which the contracts demand instead of leaving it undefined.
//! Field writes are read-modify-write over the whole 32-bit cell; no finer
//! atomicity exists than the one 32-bit transaction.

use crate::fields::{
    extract_field, field_wf, insert_field, mask_bits, spec_extract_field, spec_insert_field, Field,
};
use crate::frame::word_index;
use crate::interface::{InterfaceSlot, MemoryInterface};
use crate::peripherals::{Instance, Register};
use vstd::prelude::*;

verus! {

/// The slot holds an installed, transaction-ready interface.
pub open spec fn slot_ready<M: MemoryInterface>(s: InterfaceSlot<M>) -> bool {
    s.iface is Some && s.iface->0.ready()
}

/// The remote words reachable through the slot's installed interface.
pub open spec fn slot_mem<M: MemoryInterface>(s: InterfaceSlot<M>) -> Seq<u32> {
    s.iface->0.mem()
}

/// The byte address of `reg` inside `inst`'s block, before truncation.
pub open spec fn spec_reg_addr(inst: Instance, reg: Register) -> int {
    inst.addr + reg.offset
}

/// The word index of `reg` inside `inst`'s block as it goes on the wire.
pub open spec fn spec_reg_word(inst: Instance, reg: Register) -> u32 {
    word_index((inst.addr + reg.offset) as u32)
}

/// The conditions every register access needs: an installed, ready
/// interface, a register address that fits, and a word index on the bus.
pub open spec fn access_ok<M: MemoryInterface>(
    s: InterfaceSlot<M>,
    inst: Instance,
    reg: Register,
) -> bool {
    &&& slot_ready(s)
    &&& spec_reg_addr(inst, reg) <= u32::MAX
    &&& spec_reg_word(inst, reg) < slot_mem(s).len()
}

/// Reads the whole 32-bit cell of `reg` in `inst`'s block.
pub fn read_reg<M: MemoryInterface>(
    slot: &mut InterfaceSlot<M>,
    inst: &Instance,
    reg: Register,
) -> (r: u32)
    requires
        access_ok(*old(slot), *inst, reg),
    ensures
        slot_ready(*final(slot)),
        slot_mem(*final(slot)) == slot_mem(*old(slot)),
        r == slot_mem(*old(slot))[spec_reg_word(*inst, reg) as int],
{
    let address: u32 = inst.addr + reg.offset;
    match &mut slot.iface {
        Some(m) => m.read32(address),
        None => {
            proof {
                assert(false);
            }
            0
        },
    }
}

/// Writes the whole 32-bit cell of `reg` in `inst`'s block.
pub fn write_reg<M: MemoryInterface>(
    slot: &mut InterfaceSlot<M>,
    inst: &Instance,
    reg: Register,
    value: u32,
)
    requires
        access_ok(*old(slot), *inst, reg),
    ensures
        slot_ready(*final(slot)),
        slot_mem(*final(slot)) == slot_mem(*old(slot)).update(
            spec_reg_word(*inst, reg) as int,
            value,
        ),
{
    let address: u32 = inst.addr + reg.offset;
    match &mut slot.iface {
        Some(m) => m.write32(address, value),
        None => {
            proof {
                assert(false);
            }
        },
    }
}

/// Reads field `field` of `reg` in `inst`'s block: one whole-register read,
/// then mask and shift.
pub fn read_field<M: MemoryInterface>(
    slot: &mut InterfaceSlot<M>,
    inst: &Instance,
    reg: Register,
    field: Field,
) -> (r: u32)
    requires
        access_ok(*old(slot), *inst, reg),
        field_wf(field),
    ensures
        slot_ready(*final(slot)),
        slot_mem(*final(slot)) == slot_mem(*old(slot)),
        r == spec_extract_field(slot_mem(*old(slot))[spec_reg_word(*inst, reg) as int], field),
{
    let cell = read_reg(slot, inst, reg);
    extract_field(cell, field)
}

/// Writes field `field` of `reg` in `inst`'s block: one whole-register
/// read, the field replaced by `value`'s low bits, one whole-register
/// write. All bits outside the field keep the value the read saw.
pub fn write_field<M: MemoryInterface>(
    slot: &mut InterfaceSlot<M>,
    inst: &Instance,
    reg: Register,
    field: Field,
    value: u32,
)
    requires
        access_ok(*old(slot), *inst, reg),
        field_wf(field),
    ensures
        slot_ready(*final(slot)),
        slot_mem(*final(slot)) == slot_mem(*old(slot)).update(
            spec_reg_word(*inst, reg) as int,
            spec_insert_field(slot_mem(*old(slot))[spec_reg_word(*inst, reg) as int], field, value),
        ),
{
    let cell = read_reg(slot, inst, reg);
    let merged = insert_field(cell, field, value);
    write_reg(slot, inst, reg, merged);
}

/// Writing a field and reading it back through the read-modify-write model
/// returns the written value masked to the field's width, and every bit of
/// the register's last-read cell outside the field is unchanged.
pub proof fn lemma_write_field_then_read_field(
    mem: Seq<u32>,
    inst: Instance,
    reg: Register,
    field: Field,
    value: u32,
)
    requires
        field_wf(field),
        spec_reg_word(inst, reg) < mem.len(),
    ensures
        ({
            let w = spec_reg_word(inst, reg) as int;
            let cell = mem[w];
            let after = mem.update(w, spec_insert_field(cell, field, value));
            &&& spec_extract_field(after[w], field) == value & mask_bits(field.width)
            &&& forall|i: u32|
                i < 32 && (i < field.offset || field.offset + field.width <= i) ==> (after[w] >> i)
                    & 1 == (cell >> i) & 1
        }),
{
    let w = spec_reg_word(inst, reg) as int;
    let cell = mem[w];
    crate::fields::lemma_insert_extract_field(cell, field, value);
    assert forall|i: u32|
        i < 32 && (i < field.offset || field.offset + field.width <= i) implies (mem.update(
        w,
        spec_insert_field(cell, field, value),
    )[w] >> i) & 1 == (cell >> i) & 1 by {
        crate::fields::lemma_insert_field_preserves_other_bits(cell, field, value, i);
    }
}

} // verus!
