//! Interrupt status query.

use vstd::prelude::*;
use crate::commands::{SX1280Command, SX1280CommandError, SX1280Interrupt};
use crate::modes::SX1280Mode;

verus! {

/// Read the 16-bit interrupt flag set. Legal in any mode; the flags are
/// wire-decoded big-endian from the last two response bytes, and unknown
/// bits are preserved, never rejected.
pub struct GetIrqStatusCommand;

impl<MODE: SX1280Mode> SX1280Command<MODE> for GetIrqStatusCommand {
    type Response = SX1280Interrupt;

    open spec fn opcode_spec() -> u8 {
        0x15
    }

    open spec fn encodable(&self) -> bool {
        true
    }

    open spec fn arg_bytes_spec(&self) -> Seq<u8> {
        Seq::empty()
    }

    open spec fn response_len_spec() -> usize {
        3
    }

    open spec fn decode_spec(status: u8, resp: Seq<u8>) -> Result<
        SX1280Interrupt,
        SX1280CommandError,
    > {
        Ok(SX1280Interrupt::from_be_bytes_spec(resp[1], resp[2]))
    }

    fn opcode() -> u8 {
        0x15
    }

    fn response_len() -> usize {
        3
    }

    fn as_write_bytes(&self) -> (r: Result<Vec<u8>, SX1280CommandError>) {
        let v: Vec<u8> = Vec::new();
        proof {
            assert(v@ =~= Seq::<u8>::empty());
        }
        Ok(v)
    }

    fn decode(status: u8, resp: &Vec<u8>) -> (r: Result<SX1280Interrupt, SX1280CommandError>) {
        Ok(SX1280Interrupt::from_be_bytes(resp[1], resp[2]))
    }
}

} // verus!
