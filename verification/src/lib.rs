//! Register protocol, bring-up sequencing and fault supervision for a
//! three-phase gate-driver chip, written without any I/O of its own.
//!
//! The chip is driven over a 16-bit serial register link. Everything here is a
//! decision: which frame to build, which line to drive next, which fault a
//! status bit stands for. Performing the decision (moving a pin, clocking a
//! frame, sleeping) is left to the caller, who feeds the outcome back in.
//!
//! - [`codec`]: the frame layout.
//! - [`codes`] and [`fields`]: the fields of the configuration registers.
//! - [`faults`]: the conditions behind the bits of the status registers.
//! - [`link`]: the actions handed to the caller and the events taken back.
//! - [`drv8323rs`]: register operations as chip-select-scoped transactions.
//! - [`sequencer`]: the bring-up.
//! - [`monitor`]: the fault poll.
//! - [`messages`]: the slot through which fault names reach the console.

pub mod codec;
pub mod codes;
pub mod drv8323rs;
pub mod faults;
pub mod fields;
pub mod link;
pub mod messages;
pub mod monitor;
pub mod sequencer;
