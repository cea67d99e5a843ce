//! Long-preamble mode switch.

use vstd::prelude::*;
use crate::commands::{NullResponse, SX1280Command, SX1280CommandError};
use crate::modes::{ModeGFSK, ModeLoRa};

verus! {

/// Enable or disable long-preamble mode. Legal in GFSK and LoRa modes; the
/// flag goes out as one byte, `0x01` for enabled.
pub struct SetLongPreambleModeCommand(pub bool);

impl SX1280Command<ModeGFSK> for SetLongPreambleModeCommand {
    type Response = NullResponse;

    open spec fn opcode_spec() -> u8 {
        0x9B
    }

    open spec fn encodable(&self) -> bool {
        true
    }

    open spec fn arg_bytes_spec(&self) -> Seq<u8> {
        seq![
            if self.0 {
                1u8
            } else {
                0u8
            },
        ]
    }

    open spec fn response_len_spec() -> usize {
        0
    }

    open spec fn decode_spec(status: u8, resp: Seq<u8>) -> Result<
        NullResponse,
        SX1280CommandError,
    > {
        Ok(NullResponse)
    }

    fn opcode() -> u8 {
        0x9B
    }

    fn response_len() -> usize {
        0
    }

    fn as_write_bytes(&self) -> (r: Result<Vec<u8>, SX1280CommandError>) {
        let mut v: Vec<u8> = Vec::new();
        v.push(
            if self.0 {
                1
            } else {
                0
            },
        );
        proof {
            assert(v@ =~= <Self as SX1280Command<ModeGFSK>>::arg_bytes_spec(self));
        }
        Ok(v)
    }

    fn decode(status: u8, resp: &Vec<u8>) -> (r: Result<NullResponse, SX1280CommandError>) {
        Ok(NullResponse)
    }
}

impl SX1280Command<ModeLoRa> for SetLongPreambleModeCommand {
    type Response = NullResponse;

    open spec fn opcode_spec() -> u8 {
        0x9B
    }

    open spec fn encodable(&self) -> bool {
        true
    }

    open spec fn arg_bytes_spec(&self) -> Seq<u8> {
        seq![
            if self.0 {
                1u8
            } else {
                0u8
            },
        ]
    }

    open spec fn response_len_spec() -> usize {
        0
    }

    open spec fn decode_spec(status: u8, resp: Seq<u8>) -> Result<
        NullResponse,
        SX1280CommandError,
    > {
        Ok(NullResponse)
    }

    fn opcode() -> u8 {
        0x9B
    }

    fn response_len() -> usize {
        0
    }

    fn as_write_bytes(&self) -> (r: Result<Vec<u8>, SX1280CommandError>) {
        let mut v: Vec<u8> = Vec::new();
        v.push(
            if self.0 {
                1
            } else {
                0
            },
        );
        proof {
            assert(v@ =~= <Self as SX1280Command<ModeLoRa>>::arg_bytes_spec(self));
        }
        Ok(v)
    }

    fn decode(status: u8, resp: &Vec<u8>) -> (r: Result<NullResponse, SX1280CommandError>) {
        Ok(NullResponse)
    }
}

} // verus!
