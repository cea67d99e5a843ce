//! Receive buffer status query.

use vstd::prelude::*;
use crate::commands::{SX1280Command, SX1280CommandError};
use crate::modes::SX1280Mode;

verus! {

/// Where the last received payload starts and how long it is.
#[derive(Clone, Copy, Debug, PartialEq, Eq, Structural)]
pub struct BufferStatus {
    pub rx_payload_len: u8,
    pub rx_buffer_start_pointer: u8,
}

/// Ask where in the data buffer the last packet landed. Legal in any mode;
/// the payload length comes back before the start pointer.
pub struct GetRxBufferStatusCommand;

impl<MODE: SX1280Mode> SX1280Command<MODE> for GetRxBufferStatusCommand {
    type Response = BufferStatus;

    open spec fn opcode_spec() -> u8 {
        0x17
    }

    open spec fn encodable(&self) -> bool {
        true
    }

    open spec fn arg_bytes_spec(&self) -> Seq<u8> {
        Seq::empty()
    }

    open spec fn response_len_spec() -> usize {
        3
    }

    open spec fn decode_spec(status: u8, resp: Seq<u8>) -> Result<
        BufferStatus,
        SX1280CommandError,
    > {
        Ok(BufferStatus { rx_payload_len: resp[1], rx_buffer_start_pointer: resp[2] })
    }

    fn opcode() -> u8 {
        0x17
    }

    fn response_len() -> usize {
        3
    }

    fn as_write_bytes(&self) -> (r: Result<Vec<u8>, SX1280CommandError>) {
        let v: Vec<u8> = Vec::new();
        proof {
            assert(v@ =~= Seq::<u8>::empty());
        }
        Ok(v)
    }

    fn decode(status: u8, resp: &Vec<u8>) -> (r: Result<BufferStatus, SX1280CommandError>) {
        Ok(BufferStatus { rx_payload_len: resp[1], rx_buffer_start_pointer: resp[2] })
    }
}

} // verus!
