//! Driver for the SX1280 2.4 GHz radio transceiver.
//!
//! The driver is split into four layers:
//! - [`hal`]: the capability contracts the surrounding board support must
//!   provide (a byte-oriented bus, digital lines, a delay source);
//! - [`spi`]: the bus transaction arbiter that owns the chip-select line;
//! - [`commands`] and [`registers`]: the binary command/register codec that
//!   turns structured values into exact wire byte sequences and back;
//! - [`device`]: the typed device handle whose mode tag statically restricts
//!   which protocol messages may be issued.
//!
//! [`sim`] provides an in-memory implementation of the capability contracts
//! that models the chip far enough to exercise the driver without hardware.

pub mod hal;
pub mod spi;
pub mod modes;
pub mod commands;
pub mod registers;
pub mod device;
pub mod sim;
