//! Model of the physical serial link and of the device behind it.
//!
//! `MockLink` records every observable action on the link — chip-select and
//! reset edges, spin delays, interrupt masking and each transmitted byte — as
//! a sequence of `LinkEvent`s, and answers full-duplex transfers from a
//! `DeviceModel` that behaves as the target's memory-mapped bus: a write
//! frame stores a word, a read frame answers with the stored word's
//! little-endian bytes. Every contract in the crate that speaks of wire
//! traffic speaks of this event sequence.

use crate::frame::{
    le_byte, le_byte_at, spec_read_frame, spec_write_frame, u32_from_le, word_index, decode_le,
    READ_OPCODE, WRITE_OPCODE,
};
use vstd::prelude::*;

verus! {

/// One observable action on the physical serial link.
#[derive(Clone, Copy, PartialEq, Eq, Structural, Debug)]
pub enum LinkEvent {
    /// Interrupts masked: a transaction's critical section begins.
    CriticalEnter,
    /// Interrupts unmasked: the critical section ends.
    CriticalExit,
    /// Chip select driven low (asserted).
    SelectLow,
    /// Chip select driven high (deasserted).
    SelectHigh,
    /// Device reset line driven low (device held in reset).
    ResetLow,
    /// Device reset line driven high (reset released).
    ResetHigh,
    /// A busy-wait of the given number of microseconds.
    Wait(u32),
    /// One byte clocked out on the serial data line.
    Transmit(u8),
}

/// The transmit events for a byte sequence, one per byte, in order.
pub open spec fn transmit_events(bytes: Seq<u8>) -> Seq<LinkEvent> {
    Seq::new(bytes.len(), |i: int| LinkEvent::Transmit(bytes[i]))
}

/// The bytes clocked out over a run of link events, in order.
pub open spec fn transmitted(events: Seq<LinkEvent>) -> Seq<u8>
    decreases events.len(),
{
    if events.len() == 0 {
        Seq::empty()
    } else {
        transmitted(events.drop_last()) + (match events.last() {
            LinkEvent::Transmit(b) => seq![b],
            _ => Seq::empty(),
        })
    }
}

/// The transmitted bytes of a concatenation are the concatenation of the
/// transmitted bytes.
pub proof fn lemma_transmitted_append(a: Seq<LinkEvent>, b: Seq<LinkEvent>)
    ensures
        transmitted(a + b) == transmitted(a) + transmitted(b),
    decreases b.len(),
{
    if b.len() == 0 {
        assert(a + b =~= a);
        assert(transmitted(a) + transmitted(b) =~= transmitted(a));
    } else {
        lemma_transmitted_append(a, b.drop_last());
        assert((a + b).drop_last() =~= a + b.drop_last());
        assert((a + b).last() == b.last());
        assert(transmitted(a) + transmitted(b) =~= (transmitted(a) + transmitted(b.drop_last())) + (
        match b.last() {
            LinkEvent::Transmit(byte) => seq![byte],
            _ => Seq::empty(),
        }));
    }
}

/// A run of events with no transmit among them clocks out nothing.
pub proof fn lemma_transmitted_quiet(events: Seq<LinkEvent>)
    requires
        forall|i: int| 0 <= i < events.len() ==> !(events[i] is Transmit),
    ensures
        transmitted(events) == Seq::<u8>::empty(),
    decreases events.len(),
{
    if events.len() > 0 {
        lemma_transmitted_quiet(events.drop_last());
        assert(!(events.last() is Transmit));
        assert(transmitted(events) =~= Seq::<u8>::empty());
    }
}

/// A run of nothing but transmit events clocks out exactly its bytes.
pub proof fn lemma_transmitted_of_transmits(bytes: Seq<u8>)
    ensures
        transmitted(transmit_events(bytes)) == bytes,
    decreases bytes.len(),
{
    if bytes.len() == 0 {
        assert(transmitted(transmit_events(bytes)) =~= bytes);
    } else {
        lemma_transmitted_of_transmits(bytes.drop_last());
        assert(transmit_events(bytes).drop_last() =~= transmit_events(bytes.drop_last()));
        assert(transmit_events(bytes).last() == LinkEvent::Transmit(bytes.last()));
        assert(transmitted(transmit_events(bytes)) =~= bytes);
    }
}

/// The target device's view of one full-duplex transfer: an eight-byte frame
/// opened by the read opcode with a zero dummy byte after the address.
pub open spec fn spec_is_read_frame(f: Seq<u8>) -> bool {
    f.len() == 8 && f[0] == READ_OPCODE && f[3] == 0x00u8
}

/// A seven-byte frame opened by the write opcode.
pub open spec fn spec_is_write_frame(f: Seq<u8>) -> bool {
    f.len() == 7 && f[0] == WRITE_OPCODE
}

/// The word index a frame addresses: its second and third byte,
/// little-endian.
pub open spec fn spec_frame_index(f: Seq<u8>) -> u32 {
    (f[1] as u32) | ((f[2] as u32) << 8)
}

/// The device memory after one transfer: a write frame inside the memory
/// stores its little-endian value at the addressed word; everything else
/// leaves the memory unchanged.
pub open spec fn spec_device_next(mem: Seq<u32>, f: Seq<u8>) -> Seq<u32> {
    if spec_is_write_frame(f) && spec_frame_index(f) < mem.len() {
        mem.update(spec_frame_index(f) as int, u32_from_le(f[3], f[4], f[5], f[6]))
    } else {
        mem
    }
}

/// The bytes the device clocks back during one transfer: for a read frame
/// inside the memory, four placeholder zeros while the frame goes out, then
/// the addressed word's little-endian bytes; zeros otherwise.
pub open spec fn spec_device_response(mem: Seq<u32>, f: Seq<u8>) -> Seq<u8> {
    if spec_is_read_frame(f) && spec_frame_index(f) < mem.len() {
        seq![0u8, 0u8, 0u8, 0u8]
            + seq![
            le_byte(mem[spec_frame_index(f) as int], 0),
            le_byte(mem[spec_frame_index(f) as int], 1),
            le_byte(mem[spec_frame_index(f) as int], 2),
            le_byte(mem[spec_frame_index(f) as int], 3),
        ]
    } else {
        Seq::new(f.len(), |i: int| 0u8)
    }
}

/// A write frame for an in-range address followed by a read frame for the
/// same address answers with the written value's little-endian bytes: the
/// round trip through the exact wire framing.
pub proof fn lemma_frame_round_trip(mem: Seq<u32>, address: u32, value: u32)
    requires
        word_index(address) < mem.len(),
    ensures
        ({
            let after = spec_device_next(mem, spec_write_frame(address, value));
            let resp = spec_device_response(after, spec_read_frame(address));
            resp.len() == 8 && u32_from_le(resp[4], resp[5], resp[6], resp[7]) == value
        }),
{
    crate::frame::lemma_addr_bytes_recompose(address);
    let wf = spec_write_frame(address, value);
    assert(spec_frame_index(wf) == word_index(address));
    let after = spec_device_next(mem, wf);
    crate::frame::lemma_le_round_trip(value);
    assert(after[word_index(address) as int] == value);
}

/// The device half of the link model: the memory-mapped bus behind the
/// serial interface, addressed in 32-bit words.
pub struct DeviceModel {
    pub mem: Vec<u32>,
}

impl DeviceModel {
    /// A device whose bus exposes the given words.
    pub fn new(mem: Vec<u32>) -> (d: DeviceModel)
        ensures
            d.mem == mem,
    {
        DeviceModel { mem }
    }

    /// Handles one full-duplex transfer: consumes the clocked-out frame,
    /// stores the word of a write frame, and returns the bytes clocked back.
    pub fn respond(&mut self, f: &Vec<u8>) -> (resp: Vec<u8>)
        ensures
            final(self).mem@ == spec_device_next(old(self).mem@, f@),
            resp@ == spec_device_response(old(self).mem@, f@),
    {
        if f.len() == 8 && f[0] == READ_OPCODE && f[3] == 0x00u8 {
            let b1: u8 = f[1];
            let b2: u8 = f[2];
            let idx: u32 = (b1 as u32) | ((b2 as u32) << 8);
            assert(idx < 0x10000) by (bit_vector)
                requires
                    idx == (b1 as u32) | ((b2 as u32) << 8),
            ;
            if (idx as usize) < self.mem.len() {
                let word = self.mem[idx as usize];
                let mut resp: Vec<u8> = Vec::new();
                resp.push(0);
                resp.push(0);
                resp.push(0);
                resp.push(0);
                resp.push(le_byte_at(word, 0));
                resp.push(le_byte_at(word, 1));
                resp.push(le_byte_at(word, 2));
                resp.push(le_byte_at(word, 3));
                proof {
                    assert(resp@ =~= spec_device_response(self.mem@, f@));
                }
                return resp;
            }
            return zero_bytes(8);
        }
        if f.len() == 7 && f[0] == WRITE_OPCODE {
            let idx: u32 = (f[1] as u32) | ((f[2] as u32) << 8);
            if (idx as usize) < self.mem.len() {
                let value = decode_le(f[3], f[4], f[5], f[6]);
                self.mem.set(idx as usize, value);
            }
            return zero_bytes(7);
        }
        zero_bytes(f.len())
    }
}

/// A vector of `n` zero bytes.
pub fn zero_bytes(n: usize) -> (z: Vec<u8>)
    ensures
        z@ == Seq::new(n as nat, |i: int| 0u8),
{
    let mut z: Vec<u8> = Vec::new();
    let mut i: usize = 0;
    while i < n
        invariant
            i <= n,
            z@ == Seq::new(i as nat, |j: int| 0u8),
        decreases n - i,
    {
        z.push(0);
        i = i + 1;
        proof {
            assert(z@ =~= Seq::new(i as nat, |j: int| 0u8));
        }
    }
    z
}

/// The link model: the chip-select and reset lines, the event log, and the
/// device behind the serial data lines.
pub struct MockLink {
    pub device: DeviceModel,
    pub events: Vec<LinkEvent>,
    pub select_low: bool,
    pub reset_low: bool,
}

impl MockLink {
    /// A quiet link to a device exposing the given words: no events yet,
    /// chip select and reset both released (high).
    pub fn new(mem: Vec<u32>) -> (l: MockLink)
        ensures
            l.device.mem == mem,
            l.events@ == Seq::<LinkEvent>::empty(),
            !l.select_low,
            !l.reset_low,
    {
        MockLink { device: DeviceModel::new(mem), events: Vec::new(), select_low: false, reset_low: false }
    }

    /// Drives chip select low (asserted).
    pub fn select_assert(&mut self)
        ensures
            final(self).events@ == old(self).events@.push(LinkEvent::SelectLow),
            final(self).select_low,
            final(self).reset_low == old(self).reset_low,
            final(self).device == old(self).device,
    {
        self.events.push(LinkEvent::SelectLow);
        self.select_low = true;
    }

    /// Drives chip select high (deasserted).
    pub fn select_release(&mut self)
        ensures
            final(self).events@ == old(self).events@.push(LinkEvent::SelectHigh),
            !final(self).select_low,
            final(self).reset_low == old(self).reset_low,
            final(self).device == old(self).device,
    {
        self.events.push(LinkEvent::SelectHigh);
        self.select_low = false;
    }

    /// Drives the reset line low (device held in reset).
    pub fn reset_assert(&mut self)
        ensures
            final(self).events@ == old(self).events@.push(LinkEvent::ResetLow),
            final(self).reset_low,
            final(self).select_low == old(self).select_low,
            final(self).device == old(self).device,
    {
        self.events.push(LinkEvent::ResetLow);
        self.reset_low = true;
    }

    /// Drives the reset line high (reset released).
    pub fn reset_release(&mut self)
        ensures
            final(self).events@ == old(self).events@.push(LinkEvent::ResetHigh),
            !final(self).reset_low,
            final(self).select_low == old(self).select_low,
            final(self).device == old(self).device,
    {
        self.events.push(LinkEvent::ResetHigh);
        self.reset_low = false;
    }

    /// Busy-waits for `us` microseconds.
    pub fn delay_us(&mut self, us: u32)
        ensures
            final(self).events@ == old(self).events@.push(LinkEvent::Wait(us)),
            final(self).select_low == old(self).select_low,
            final(self).reset_low == old(self).reset_low,
            final(self).device == old(self).device,
    {
        self.events.push(LinkEvent::Wait(us));
    }

    /// Masks interrupts: opens the critical section around a transaction.
    pub fn critical_enter(&mut self)
        ensures
            final(self).events@ == old(self).events@.push(LinkEvent::CriticalEnter),
            final(self).select_low == old(self).select_low,
            final(self).reset_low == old(self).reset_low,
            final(self).device == old(self).device,
    {
        self.events.push(LinkEvent::CriticalEnter);
    }

    /// Unmasks interrupts: closes the critical section.
    pub fn critical_exit(&mut self)
        ensures
            final(self).events@ == old(self).events@.push(LinkEvent::CriticalExit),
            final(self).select_low == old(self).select_low,
            final(self).reset_low == old(self).reset_low,
            final(self).device == old(self).device,
    {
        self.events.push(LinkEvent::CriticalExit);
    }

    /// Clocks out a run of bytes with nothing clocked back (the device is
    /// shifting configuration data, not answering the bus).
    pub fn write_bytes(&mut self, bytes: &Vec<u8>)
        ensures
            final(self).events@ == old(self).events@ + transmit_events(bytes@),
            final(self).select_low == old(self).select_low,
            final(self).reset_low == old(self).reset_low,
            final(self).device == old(self).device,
    {
        let n = bytes.len();
        let mut i: usize = 0;
        while i < n
            invariant
                i <= n,
                n == bytes@.len(),
                self.events@ == old(self).events@ + transmit_events(bytes@.take(i as int)),
                self.select_low == old(self).select_low,
                self.reset_low == old(self).reset_low,
                self.device == old(self).device,
            decreases n - i,
        {
            self.events.push(LinkEvent::Transmit(bytes[i]));
            i = i + 1;
            proof {
                assert(transmit_events(bytes@.take(i as int)) =~= transmit_events(
                    bytes@.take(i - 1),
                ).push(LinkEvent::Transmit(bytes@[i - 1])));
                assert(self.events@ =~= old(self).events@ + transmit_events(bytes@.take(i as int)));
            }
        }
        proof {
            assert(bytes@.take(n as int) =~= bytes@);
        }
    }

    /// One full-duplex transfer: the frame's bytes are clocked out and the
    /// device's answer is clocked back in.
    pub fn transfer(&mut self, f: &Vec<u8>) -> (resp: Vec<u8>)
        ensures
            final(self).events@ == old(self).events@ + transmit_events(f@),
            final(self).device.mem@ == spec_device_next(old(self).device.mem@, f@),
            resp@ == spec_device_response(old(self).device.mem@, f@),
            final(self).select_low == old(self).select_low,
            final(self).reset_low == old(self).reset_low,
    {
        self.write_bytes(f);
        self.device.respond(f)
    }
}

} // verus!
