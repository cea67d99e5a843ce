//! Interrupt flag clearing.

use vstd::prelude::*;
use crate::commands::{NullResponse, SX1280Command, SX1280CommandError, SX1280Interrupt};
use crate::modes::SX1280ModeValid;

verus! {

/// Clear the given interrupt flags. Legal once a concrete operating mode is
/// set; the mask goes out big-endian.
pub struct ClearIrqCommand(pub SX1280Interrupt);

impl<MODE: SX1280ModeValid> SX1280Command<MODE> for ClearIrqCommand {
    type Response = NullResponse;

    open spec fn opcode_spec() -> u8 {
        0x97
    }

    open spec fn encodable(&self) -> bool {
        true
    }

    open spec fn arg_bytes_spec(&self) -> Seq<u8> {
        self.0.be_bytes_spec()
    }

    open spec fn response_len_spec() -> usize {
        0
    }

    open spec fn decode_spec(status: u8, resp: Seq<u8>) -> Result<
        NullResponse,
        SX1280CommandError,
    > {
        Ok(NullResponse)
    }

    fn opcode() -> u8 {
        0x97
    }

    fn response_len() -> usize {
        0
    }

    fn as_write_bytes(&self) -> (r: Result<Vec<u8>, SX1280CommandError>) {
        let bits = self.0.bits();
        let mut v: Vec<u8> = Vec::new();
        v.push((bits / 256) as u8);
        v.push((bits % 256) as u8);
        proof {
            assert(v@ =~= self.0.be_bytes_spec());
        }
        Ok(v)
    }

    fn decode(status: u8, resp: &Vec<u8>) -> (r: Result<NullResponse, SX1280CommandError>) {
        Ok(NullResponse)
    }
}

} // verus!
