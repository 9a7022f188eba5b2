//! The remote memory interface and the configuration loader.
//!
//! `SpiMemoryInterface` owns the serial link and turns `read32`/`write32`
//! calls into exclusive serial transactions, each wrapped in a critical
//! section; `upload_bitstream` is the one-shot configuration-load sequence
//! that must run before the first transaction. `InterfaceSlot` is the
//! explicit rendering of the process-wide binding the register model
//! consults: at most one interface installed, installation overwrites
//! without teardown.

use crate::frame::{
    read_frame, spec_read_frame, spec_write_frame, word_index, write_frame, decode_le,
};
use crate::link::{transmit_events, transmitted, zero_bytes, LinkEvent, MockLink};
use vstd::prelude::*;

verus! {

/// Microseconds the reset line is held low; the device documents a minimum
/// of 200 nanoseconds.
pub const RESET_HOLD_US: u32 = 10;

/// Documented minimum reset-low hold, in nanoseconds.
pub const RESET_HOLD_MIN_NS: u32 = 200;

/// Microseconds waited after releasing reset; the device documents a
/// minimum of 1200 microseconds.
pub const POST_RESET_SETTLE_US: u32 = 1500;

/// Documented minimum post-reset stabilization, in microseconds.
pub const POST_RESET_SETTLE_MIN_US: u32 = 1200;

/// Microseconds of settle delay around each transaction's transfer.
pub const TRANSACTION_SETTLE_US: u32 = 1;

/// Zero bytes appended after the configuration image to flush the target's
/// shift registers.
pub const CONFIG_PAD_BYTES: usize = 6;

/// Anything that can carry whole-word reads and writes to the remote bus.
/// The register model only ever sees this trait; the configuration loader
/// installs a concrete implementation behind it.
pub trait MemoryInterface: Sized {
    /// The words of the remote bus this interface reaches, by word index.
    spec fn mem(&self) -> Seq<u32>;

    /// True once the interface may carry transactions; for this crate's
    /// implementation, once the configuration image has been loaded.
    spec fn ready(&self) -> bool;

    /// Reads the whole 32-bit word addressed by the word-aligned byte
    /// address `address`.
    fn read32(&mut self, address: u32) -> (r: u32)
        requires
            old(self).ready(),
            word_index(address) < old(self).mem().len(),
        ensures
            final(self).ready(),
            final(self).mem() == old(self).mem(),
            r == old(self).mem()[word_index(address) as int],
    ;

    /// Writes the whole 32-bit word addressed by the word-aligned byte
    /// address `address`.
    fn write32(&mut self, address: u32, value: u32)
        requires
            old(self).ready(),
            word_index(address) < old(self).mem().len(),
        ensures
            final(self).ready(),
            final(self).mem() == old(self).mem().update(word_index(address) as int, value),
    ;
}

/// The full wire trace of the configuration-load sequence for `image`:
/// reset held low with chip select asserted, reset released and left to
/// settle, a framing dummy byte while chip select is released, then the
/// image and the zero pad in one continuous write, chip select released
/// last.
pub open spec fn spec_config_events(image: Seq<u8>) -> Seq<LinkEvent> {
    seq![
        LinkEvent::ResetLow,
        LinkEvent::SelectLow,
        LinkEvent::Wait(RESET_HOLD_US),
        LinkEvent::ResetHigh,
        LinkEvent::Wait(POST_RESET_SETTLE_US),
        LinkEvent::SelectHigh,
        LinkEvent::Transmit(0u8),
        LinkEvent::SelectLow,
    ] + transmit_events(image) + transmit_events(Seq::new(CONFIG_PAD_BYTES as nat, |i: int| 0u8))
        + seq![LinkEvent::SelectHigh]
}

/// What the configuration sequence puts on the wire, read off its event
/// trace: reset is held low for the configured hold time and released for
/// the configured settle time, both meeting the device's documented minima;
/// the bytes clocked out are exactly one dummy zero, the image verbatim,
/// then the zero pad; and the last event of all releases chip select.
pub proof fn lemma_config_stream(image: Seq<u8>)
    ensures
        transmitted(spec_config_events(image)) == seq![0u8] + image + Seq::new(
            CONFIG_PAD_BYTES as nat,
            |i: int| 0u8,
        ),
        spec_config_events(image).last() == LinkEvent::SelectHigh,
        RESET_HOLD_US * 1000 >= RESET_HOLD_MIN_NS,
        POST_RESET_SETTLE_US >= POST_RESET_SETTLE_MIN_US,
{
    let head = seq![
        LinkEvent::ResetLow,
        LinkEvent::SelectLow,
        LinkEvent::Wait(RESET_HOLD_US),
        LinkEvent::ResetHigh,
        LinkEvent::Wait(POST_RESET_SETTLE_US),
        LinkEvent::SelectHigh,
        LinkEvent::Transmit(0u8),
        LinkEvent::SelectLow,
    ];
    let quiet_before = seq![
        LinkEvent::ResetLow,
        LinkEvent::SelectLow,
        LinkEvent::Wait(RESET_HOLD_US),
        LinkEvent::ResetHigh,
        LinkEvent::Wait(POST_RESET_SETTLE_US),
        LinkEvent::SelectHigh,
    ];
    let dummy = seq![LinkEvent::Transmit(0u8)];
    let reassert = seq![LinkEvent::SelectLow];
    let image_events = transmit_events(image);
    let pad = Seq::new(CONFIG_PAD_BYTES as nat, |i: int| 0u8);
    let pad_events = transmit_events(pad);
    let tail = seq![LinkEvent::SelectHigh];

    crate::link::lemma_transmitted_append(head + image_events + pad_events, tail);
    crate::link::lemma_transmitted_append(head + image_events, pad_events);
    crate::link::lemma_transmitted_append(head, image_events);
    crate::link::lemma_transmitted_of_transmits(image);
    crate::link::lemma_transmitted_of_transmits(pad);
    crate::link::lemma_transmitted_quiet(tail);

    assert(head =~= quiet_before + dummy + reassert);
    crate::link::lemma_transmitted_append(quiet_before + dummy, reassert);
    crate::link::lemma_transmitted_append(quiet_before, dummy);
    crate::link::lemma_transmitted_quiet(quiet_before);
    crate::link::lemma_transmitted_quiet(reassert);
    reveal_with_fuel(crate::link::transmitted, 3);
    assert(transmitted(dummy) =~= seq![0u8]);
    assert(transmitted(head) =~= seq![0u8]);
    assert(transmitted(spec_config_events(image)) =~= seq![0u8] + image + pad);
    assert(spec_config_events(image).last() == LinkEvent::SelectHigh);
}

/// The full wire trace of one read transaction: critical section, chip
/// select asserted, settle, the read frame, settle, chip select released,
/// settle, critical section closed.
pub open spec fn spec_read_transaction_events(address: u32) -> Seq<LinkEvent> {
    seq![
        LinkEvent::CriticalEnter,
        LinkEvent::SelectLow,
        LinkEvent::Wait(TRANSACTION_SETTLE_US),
    ] + transmit_events(spec_read_frame(address)) + seq![
        LinkEvent::Wait(TRANSACTION_SETTLE_US),
        LinkEvent::SelectHigh,
        LinkEvent::Wait(TRANSACTION_SETTLE_US),
        LinkEvent::CriticalExit,
    ]
}

/// The full wire trace of one write transaction, framed exactly as a read.
pub open spec fn spec_write_transaction_events(address: u32, value: u32) -> Seq<LinkEvent> {
    seq![
        LinkEvent::CriticalEnter,
        LinkEvent::SelectLow,
        LinkEvent::Wait(TRANSACTION_SETTLE_US),
    ] + transmit_events(spec_write_frame(address, value)) + seq![
        LinkEvent::Wait(TRANSACTION_SETTLE_US),
        LinkEvent::SelectHigh,
        LinkEvent::Wait(TRANSACTION_SETTLE_US),
        LinkEvent::CriticalExit,
    ]
}

/// The remote memory interface: owns the serial link exclusively and, after
/// `upload_bitstream`, carries word transactions to the device's bus.
pub struct SpiMemoryInterface {
    pub link: MockLink,
    pub configured: bool,
}

impl SpiMemoryInterface {
    /// Takes exclusive ownership of a quiet link; no configuration image
    /// has been loaded yet, so no transaction may be carried.
    pub fn new(link: MockLink) -> (s: SpiMemoryInterface)
        ensures
            s.link == link,
            !s.configured,
    {
        SpiMemoryInterface { link, configured: false }
    }

    /// The one-shot configuration-load sequence: emits exactly
    /// `spec_config_events(bitstream@)` on the wire, leaves both lines
    /// released and the device's bus untouched, and makes the interface
    /// ready for transactions.
    pub fn upload_bitstream(&mut self, bitstream: &Vec<u8>)
        requires
            !old(self).configured,
        ensures
            final(self).configured,
            final(self).link.events@ == old(self).link.events@ + spec_config_events(bitstream@),
            final(self).link.device.mem@ == old(self).link.device.mem@,
            !final(self).link.select_low,
            !final(self).link.reset_low,
    {
        self.link.reset_assert();
        self.link.select_assert();
        self.link.delay_us(RESET_HOLD_US);
        self.link.reset_release();
        self.link.delay_us(POST_RESET_SETTLE_US);
        self.link.select_release();
        let mut dummy: Vec<u8> = Vec::new();
        dummy.push(0);
        self.link.write_bytes(&dummy);
        self.link.select_assert();
        self.link.write_bytes(bitstream);
        let pad = zero_bytes(CONFIG_PAD_BYTES);
        self.link.write_bytes(&pad);
        self.link.select_release();
        self.configured = true;
        proof {
            assert(transmit_events(dummy@) =~= seq![LinkEvent::Transmit(0u8)]);
            assert(self.link.events@ =~= old(self).link.events@ + spec_config_events(bitstream@));
        }
    }
}

impl SpiMemoryInterface {
    /// Publishes this interface as the installed singleton, silently
    /// replacing whatever was installed before.
    pub fn install(self, slot: &mut InterfaceSlot<SpiMemoryInterface>)
        ensures
            final(slot).iface == Some(self),
    {
        slot.install(self);
    }
}

/// Core-clock cycles per microsecond, from the clock frequency in hertz:
/// the scale the busy-wait delays are derived with at bring-up.
pub fn us_ticks(sysclk_hz: u32) -> (t: u32)
    ensures
        t == sysclk_hz / 1_000_000,
{
    sysclk_hz / 1_000_000
}

/// A `write32` followed by a `read32` of the same word-aligned address
/// returns the written value: the round trip stated over the interface
/// contracts. `lemma_frame_round_trip` states the same fact down at the
/// level of the frames on the wire.
pub proof fn lemma_write32_then_read32(mem: Seq<u32>, address: u32, value: u32)
    requires
        word_index(address) < mem.len(),
    ensures
        mem.update(word_index(address) as int, value)[word_index(address) as int] == value,
{
}

impl MemoryInterface for SpiMemoryInterface {
    open spec fn mem(&self) -> Seq<u32> {
        self.link.device.mem@
    }

    open spec fn ready(&self) -> bool {
        self.configured
    }

    fn read32(&mut self, address: u32) -> (r: u32)
        ensures
            final(self).link.events@ == old(self).link.events@ + spec_read_transaction_events(
                address,
            ),
    {
        let f = read_frame(address);
        self.link.critical_enter();
        self.link.select_assert();
        self.link.delay_us(TRANSACTION_SETTLE_US);
        let resp = self.link.transfer(&f);
        self.link.delay_us(TRANSACTION_SETTLE_US);
        self.link.select_release();
        self.link.delay_us(TRANSACTION_SETTLE_US);
        self.link.critical_exit();
        proof {
            crate::frame::lemma_addr_bytes_recompose(address);
            crate::frame::lemma_le_round_trip(
                old(self).link.device.mem@[word_index(address) as int],
            );
            assert(self.link.events@ =~= old(self).link.events@ + spec_read_transaction_events(
                address,
            ));
        }
        decode_le(resp[4], resp[5], resp[6], resp[7])
    }

    fn write32(&mut self, address: u32, value: u32)
        ensures
            final(self).link.events@ == old(self).link.events@ + spec_write_transaction_events(
                address,
                value,
            ),
    {
        let f = write_frame(address, value);
        self.link.critical_enter();
        self.link.select_assert();
        self.link.delay_us(TRANSACTION_SETTLE_US);
        let _resp = self.link.transfer(&f);
        self.link.delay_us(TRANSACTION_SETTLE_US);
        self.link.select_release();
        self.link.delay_us(TRANSACTION_SETTLE_US);
        self.link.critical_exit();
        proof {
            crate::frame::lemma_addr_bytes_recompose(address);
            crate::frame::lemma_le_round_trip(value);
            assert(self.link.events@ =~= old(self).link.events@ + spec_write_transaction_events(
                address,
                value,
            ));
        }
    }
}

/// The explicit rendering of the process-wide singleton binding: the one
/// slot holding the currently installed memory interface, consulted by
/// every register access.
pub struct InterfaceSlot<M> {
    pub iface: Option<M>,
}

impl<M: MemoryInterface> InterfaceSlot<M> {
    /// A binding with nothing installed: no register access is allowed yet.
    pub fn empty() -> (s: InterfaceSlot<M>)
        ensures
            s.iface is None,
    {
        InterfaceSlot { iface: None }
    }

    /// Installs an interface, silently replacing whatever was installed
    /// before; nothing is freed or notified.
    pub fn install(&mut self, iface: M)
        ensures
            final(self).iface == Some(iface),
    {
        self.iface = Some(iface);
    }
}

} // verus!
