//! Bus-master library for an FPGA-hosted memory-mapped peripheral bus behind
//! a synchronous serial link.
//!
//! The crate models the full path from typed register accesses down to the
//! bytes on the wire: a register model with named bitfields and a singleton
//! take/release ownership discipline per peripheral, a remote memory
//! interface that turns `read32`/`write32` into exclusive serial
//! transactions, and the one-shot configuration-load sequence that must run
//! before the first transaction. The physical link is represented by an
//! event-recording model so that every contract states the exact wire
//! traffic.

pub mod fields;
pub mod frame;
pub mod instances;
pub mod interface;
pub mod link;
pub mod peripherals;
pub mod ps2;
pub mod registers;
