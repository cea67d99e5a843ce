//! Duty-cycled receive mode entry.

use vstd::prelude::*;
use crate::commands::{NullResponse, PeriodBase, SX1280Command, SX1280CommandError};
use crate::modes::SX1280ModeValid;

verus! {

/// Alternate between listening and sleeping. Legal once a concrete
/// operating mode is set; the wire layout is the period base byte, the
/// listen period big-endian, then the sleep period big-endian. An unknown
/// period base is rejected before anything reaches the bus.
pub struct SetRxDCModeCommand {
    pub rx_period: u16,
    pub sleep_period: u16,
    pub period_base: PeriodBase,
}

impl<MODE: SX1280ModeValid> SX1280Command<MODE> for SetRxDCModeCommand {
    type Response = NullResponse;

    open spec fn opcode_spec() -> u8 {
        0x94
    }

    open spec fn encodable(&self) -> bool {
        !(self.period_base is Unknown)
    }

    open spec fn arg_bytes_spec(&self) -> Seq<u8> {
        seq![
            self.period_base.to_byte_spec(),
            (self.rx_period / 256) as u8,
            (self.rx_period % 256) as u8,
            (self.sleep_period / 256) as u8,
            (self.sleep_period % 256) as u8,
        ]
    }

    open spec fn response_len_spec() -> usize {
        0
    }

    open spec fn decode_spec(status: u8, resp: Seq<u8>) -> Result<
        NullResponse,
        SX1280CommandError,
    > {
        Ok(NullResponse)
    }

    fn opcode() -> u8 {
        0x94
    }

    fn response_len() -> usize {
        0
    }

    fn as_write_bytes(&self) -> (r: Result<Vec<u8>, SX1280CommandError>) {
        match self.period_base {
            PeriodBase::Unknown(_) => {
                return Err(SX1280CommandError::InvalidArgument);
            },
            _ => {},
        }
        let mut v: Vec<u8> = Vec::new();
        v.push(self.period_base.to_byte());
        v.push((self.rx_period / 256) as u8);
        v.push((self.rx_period % 256) as u8);
        v.push((self.sleep_period / 256) as u8);
        v.push((self.sleep_period % 256) as u8);
        proof {
            assert(v@ =~= seq![
                self.period_base.to_byte_spec(),
                (self.rx_period / 256) as u8,
                (self.rx_period % 256) as u8,
                (self.sleep_period / 256) as u8,
                (self.sleep_period % 256) as u8,
            ]);
        }
        Ok(v)
    }

    fn decode(status: u8, resp: &Vec<u8>) -> (r: Result<NullResponse, SX1280CommandError>) {
        Ok(NullResponse)
    }
}

} // verus!
