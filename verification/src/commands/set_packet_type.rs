//! Packet-type selection: the command every mode switch goes through.

use vstd::prelude::*;
use crate::commands::{NullResponse, SX1280Command, SX1280CommandError};
use crate::modes::SX1280Mode;

verus! {

/// The modulation scheme a packet-type code selects.
#[derive(Clone, Copy, Debug, PartialEq, Eq, Structural)]
pub enum PacketType {
    GFSK,
    LoRa,
    Ranging,
    FLRC,
    BLE,
}

impl PacketType {
    pub open spec fn to_byte_spec(self) -> u8 {
        match self {
            PacketType::GFSK => 0x00,
            PacketType::LoRa => 0x01,
            PacketType::Ranging => 0x02,
            PacketType::FLRC => 0x03,
            PacketType::BLE => 0x04,
        }
    }

    pub fn to_byte(self) -> (r: u8)
        ensures
            r == self.to_byte_spec(),
    {
        match self {
            PacketType::GFSK => 0x00,
            PacketType::LoRa => 0x01,
            PacketType::Ranging => 0x02,
            PacketType::FLRC => 0x03,
            PacketType::BLE => 0x04,
        }
    }
}

/// Select the packet type (modulation scheme). Legal in any mode.
pub struct SetPacketTypeCommand(pub PacketType);

impl<MODE: SX1280Mode> SX1280Command<MODE> for SetPacketTypeCommand {
    type Response = NullResponse;

    open spec fn opcode_spec() -> u8 {
        0x8A
    }

    open spec fn encodable(&self) -> bool {
        true
    }

    open spec fn arg_bytes_spec(&self) -> Seq<u8> {
        seq![self.0.to_byte_spec()]
    }

    open spec fn response_len_spec() -> usize {
        0
    }

    open spec fn decode_spec(status: u8, resp: Seq<u8>) -> Result<NullResponse, SX1280CommandError> {
        Ok(NullResponse)
    }

    fn opcode() -> u8 {
        0x8A
    }

    fn response_len() -> usize {
        0
    }

    fn as_write_bytes(&self) -> (r: Result<Vec<u8>, SX1280CommandError>) {
        let mut v: Vec<u8> = Vec::new();
        v.push(self.0.to_byte());
        proof {
            assert(v@ =~= seq![self.0.to_byte_spec()]);
        }
        Ok(v)
    }

    fn decode(status: u8, resp: &Vec<u8>) -> (r: Result<NullResponse, SX1280CommandError>) {
        Ok(NullResponse)
    }
}

} // verus!
