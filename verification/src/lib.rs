//! A serial-port session manager.
//!
//! The library holds the rules of a session with one serial device and
//! leaves every contact with the device to the program around it:
//!
//! - [`framing`]: the framing parameters and the numeric codes that select
//!   them, with a default for every code that names nothing;
//! - [`builder`]: the `serialport` builder that a configuration describes;
//! - [`session`]: the manager of the single stored port handle;
//! - [`transmit`]: the steps of a write, which sends all bytes and flushes;
//! - [`reader`]: what the background reader makes of each read;
//! - [`error`]: the failures that the manager reports;
//! - [`release`]: whether a published release is newer than the program.
//!
//! The program performs what the library asks for (open this, send these
//! bytes, flush) and reports back what the device said; the library
//! answers with the next step, the new state, or the notification to send.

pub mod builder;
pub mod error;
pub mod framing;
pub mod reader;
pub mod release;
pub mod session;
pub mod transmit;
