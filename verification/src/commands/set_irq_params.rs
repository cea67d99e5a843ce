//! Interrupt routing setup.

use vstd::prelude::*;
use crate::commands::{NullResponse, SX1280Command, SX1280CommandError, SX1280Interrupt};
use crate::modes::SX1280ModeValid;

verus! {

/// Choose which interrupt flags are active and which of the three DIO lines
/// each is routed to. Legal once a concrete operating mode is set; the four
/// masks go out big-endian, the overall mask first.
pub struct SetIRQParametersCommand {
    pub irq_mask: SX1280Interrupt,
    pub dio_mask: [SX1280Interrupt; 3],
}

impl<MODE: SX1280ModeValid> SX1280Command<MODE> for SetIRQParametersCommand {
    type Response = NullResponse;

    open spec fn opcode_spec() -> u8 {
        0x8D
    }

    open spec fn encodable(&self) -> bool {
        true
    }

    open spec fn arg_bytes_spec(&self) -> Seq<u8> {
        self.irq_mask.be_bytes_spec() + self.dio_mask[0].be_bytes_spec()
            + self.dio_mask[1].be_bytes_spec() + self.dio_mask[2].be_bytes_spec()
    }

    open spec fn response_len_spec() -> usize {
        0
    }

    open spec fn decode_spec(status: u8, resp: Seq<u8>) -> Result<
        NullResponse,
        SX1280CommandError,
    > {
        Ok(NullResponse)
    }

    fn opcode() -> u8 {
        0x8D
    }

    fn response_len() -> usize {
        0
    }

    fn as_write_bytes(&self) -> (r: Result<Vec<u8>, SX1280CommandError>) {
        let irq = self.irq_mask.bits();
        let dio0 = self.dio_mask[0].bits();
        let dio1 = self.dio_mask[1].bits();
        let dio2 = self.dio_mask[2].bits();
        let mut v: Vec<u8> = Vec::new();
        v.push((irq / 256) as u8);
        v.push((irq % 256) as u8);
        v.push((dio0 / 256) as u8);
        v.push((dio0 % 256) as u8);
        v.push((dio1 / 256) as u8);
        v.push((dio1 % 256) as u8);
        v.push((dio2 / 256) as u8);
        v.push((dio2 % 256) as u8);
        proof {
            assert(v@ =~= self.irq_mask.be_bytes_spec() + self.dio_mask[0].be_bytes_spec()
                + self.dio_mask[1].be_bytes_spec() + self.dio_mask[2].be_bytes_spec());
        }
        Ok(v)
    }

    fn decode(status: u8, resp: &Vec<u8>) -> (r: Result<NullResponse, SX1280CommandError>) {
        Ok(NullResponse)
    }
}

} // verus!
