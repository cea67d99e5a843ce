//! Channel activity detection trigger.

use vstd::prelude::*;
use crate::commands::{NullResponse, SX1280Command, SX1280CommandError};
use crate::modes::ModeLoRa;

verus! {

/// Start a channel activity detection scan. LoRa only; no arguments.
pub struct SetCAD;

impl SX1280Command<ModeLoRa> for SetCAD {
    type Response = NullResponse;

    open spec fn opcode_spec() -> u8 {
        0xC5
    }

    open spec fn encodable(&self) -> bool {
        true
    }

    open spec fn arg_bytes_spec(&self) -> Seq<u8> {
        Seq::empty()
    }

    open spec fn response_len_spec() -> usize {
        0
    }

    open spec fn decode_spec(status: u8, resp: Seq<u8>) -> Result<
        NullResponse,
        SX1280CommandError,
    > {
        Ok(NullResponse)
    }

    fn opcode() -> u8 {
        0xC5
    }

    fn response_len() -> usize {
        0
    }

    fn as_write_bytes(&self) -> (r: Result<Vec<u8>, SX1280CommandError>) {
        let v: Vec<u8> = Vec::new();
        proof {
            assert(v@ =~= Seq::<u8>::empty());
        }
        Ok(v)
    }

    fn decode(status: u8, resp: &Vec<u8>) -> (r: Result<NullResponse, SX1280CommandError>) {
        Ok(NullResponse)
    }
}

} // verus!
