//! Data buffer base address setup.

use vstd::prelude::*;
use crate::commands::{NullResponse, SX1280Command, SX1280CommandError};
use crate::modes::SX1280ModeValid;

verus! {

/// Set where in the 256-byte data buffer transmissions are read from and
/// receptions are written to. Legal once a concrete operating mode is set;
/// the transmit base goes out first.
pub struct SetBufferBaseAddressCommand {
    pub rx_base_address: u8,
    pub tx_base_address: u8,
}

impl<MODE: SX1280ModeValid> SX1280Command<MODE> for SetBufferBaseAddressCommand {
    type Response = NullResponse;

    open spec fn opcode_spec() -> u8 {
        0x8F
    }

    open spec fn encodable(&self) -> bool {
        true
    }

    open spec fn arg_bytes_spec(&self) -> Seq<u8> {
        seq![self.tx_base_address, self.rx_base_address]
    }

    open spec fn response_len_spec() -> usize {
        0
    }

    open spec fn decode_spec(status: u8, resp: Seq<u8>) -> Result<
        NullResponse,
        SX1280CommandError,
    > {
        Ok(NullResponse)
    }

    fn opcode() -> u8 {
        0x8F
    }

    fn response_len() -> usize {
        0
    }

    fn as_write_bytes(&self) -> (r: Result<Vec<u8>, SX1280CommandError>) {
        let mut v: Vec<u8> = Vec::new();
        v.push(self.tx_base_address);
        v.push(self.rx_base_address);
        proof {
            assert(v@ =~= seq![self.tx_base_address, self.rx_base_address]);
        }
        Ok(v)
    }

    fn decode(status: u8, resp: &Vec<u8>) -> (r: Result<NullResponse, SX1280CommandError>) {
        Ok(NullResponse)
    }
}

} // verus!
