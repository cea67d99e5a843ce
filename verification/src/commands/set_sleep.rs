//! Sleep mode entry.

use vstd::prelude::*;
use crate::commands::{NullResponse, SX1280Command, SX1280CommandError};
use crate::modes::SX1280Mode;

verus! {

/// Enter sleep mode, choosing what survives it. Legal in any mode. The
/// retention flags pack into the two low bits of the single argument byte.
pub struct SetSleepModeCommand {
    pub retain_ram: bool,
    pub retain_data_buffer: bool,
}

impl SetSleepModeCommand {
    /// The packed argument byte: RAM retention in bit 0, data-buffer
    /// retention in bit 1.
    pub open spec fn packed_spec(self) -> u8 {
        ((if self.retain_ram {
            1int
        } else {
            0int
        }) + (if self.retain_data_buffer {
            2int
        } else {
            0int
        })) as u8
    }
}

impl<MODE: SX1280Mode> SX1280Command<MODE> for SetSleepModeCommand {
    type Response = NullResponse;

    open spec fn opcode_spec() -> u8 {
        0x84
    }

    open spec fn encodable(&self) -> bool {
        true
    }

    open spec fn arg_bytes_spec(&self) -> Seq<u8> {
        seq![self.packed_spec()]
    }

    open spec fn response_len_spec() -> usize {
        0
    }

    open spec fn decode_spec(status: u8, resp: Seq<u8>) -> Result<
        NullResponse,
        SX1280CommandError,
    > {
        Ok(NullResponse)
    }

    fn opcode() -> u8 {
        0x84
    }

    fn response_len() -> usize {
        0
    }

    fn as_write_bytes(&self) -> (r: Result<Vec<u8>, SX1280CommandError>) {
        let ram: u8 = if self.retain_ram {
            1
        } else {
            0
        };
        let buf: u8 = if self.retain_data_buffer {
            2
        } else {
            0
        };
        let mut v: Vec<u8> = Vec::new();
        v.push(ram + buf);
        proof {
            assert(v@ =~= seq![self.packed_spec()]);
        }
        Ok(v)
    }

    fn decode(status: u8, resp: &Vec<u8>) -> (r: Result<NullResponse, SX1280CommandError>) {
        Ok(NullResponse)
    }
}

} // verus!
