//! Mode markers for the typed device state machine.
//!
//! A device handle carries one of these zero-sized types as a compile-time
//! tag. Mode-agnostic messages are implemented for every [`SX1280Mode`];
//! messages that need a concrete operating mode are implemented only for
//! [`SX1280ModeValid`] tags (or for one specific tag), so issuing them on a
//! handle in the wrong mode does not type-check.

use vstd::prelude::*;
use crate::commands::set_packet_type::PacketType;

verus! {

/// A mode tag a device handle can carry.
pub trait SX1280Mode: Sized {
}

/// A concrete operating mode: one the chip can actually be switched to with
/// the packet-type-select command.
pub trait SX1280ModeValid: SX1280Mode {
    /// The packet-type code the mode is selected with.
    spec fn packet_type_spec() -> PacketType;

    fn packet_type() -> (r: PacketType)
        ensures
            r == Self::packet_type_spec(),
    ;
}

/// The initial mode: no packet type has been selected since reset.
pub struct ModeUninitialized;

impl SX1280Mode for ModeUninitialized {
}

/// LoRa modulation.
pub struct ModeLoRa;

impl SX1280Mode for ModeLoRa {
}

impl SX1280ModeValid for ModeLoRa {
    open spec fn packet_type_spec() -> PacketType {
        PacketType::LoRa
    }

    fn packet_type() -> PacketType {
        PacketType::LoRa
    }
}

/// GFSK modulation.
pub struct ModeGFSK;

impl SX1280Mode for ModeGFSK {
}

impl SX1280ModeValid for ModeGFSK {
    open spec fn packet_type_spec() -> PacketType {
        PacketType::GFSK
    }

    fn packet_type() -> PacketType {
        PacketType::GFSK
    }
}

/// FLRC modulation.
pub struct ModeFLRC;

impl SX1280Mode for ModeFLRC {
}

impl SX1280ModeValid for ModeFLRC {
    open spec fn packet_type_spec() -> PacketType {
        PacketType::FLRC
    }

    fn packet_type() -> PacketType {
        PacketType::FLRC
    }
}

/// BLE modulation.
pub struct ModeBLE;

impl SX1280Mode for ModeBLE {
}

impl SX1280ModeValid for ModeBLE {
    open spec fn packet_type_spec() -> PacketType {
        PacketType::BLE
    }

    fn packet_type() -> PacketType {
        PacketType::BLE
    }
}

/// LoRa ranging.
pub struct ModeLoRaRanging;

impl SX1280Mode for ModeLoRaRanging {
}

impl SX1280ModeValid for ModeLoRaRanging {
    open spec fn packet_type_spec() -> PacketType {
        PacketType::Ranging
    }

    fn packet_type() -> PacketType {
        PacketType::Ranging
    }
}

} // verus!
