//! Receive mode entry.

use vstd::prelude::*;
use crate::commands::{NullResponse, PeriodBase, SX1280Command, SX1280CommandError};
use crate::modes::SX1280ModeValid;

verus! {

/// How long the receiver listens.
#[derive(Clone, Copy, Debug, PartialEq, Eq, Structural)]
pub enum RxPeriod {
    /// Listen until one packet arrives.
    OneShot,
    /// Listen forever.
    Infinite,
    /// Give up after this many period-base steps.
    Timeout(u16),
}

impl RxPeriod {
    pub open spec fn to_bits_spec(self) -> u16 {
        match self {
            RxPeriod::OneShot => 0x0000,
            RxPeriod::Infinite => 0xFFFF,
            RxPeriod::Timeout(x) => x,
        }
    }

    pub fn to_bits(self) -> (r: u16)
        ensures
            r == self.to_bits_spec(),
    {
        match self {
            RxPeriod::OneShot => 0x0000,
            RxPeriod::Infinite => 0xFFFF,
            RxPeriod::Timeout(x) => x,
        }
    }
}

/// Start listening. Legal once a concrete operating mode is set; the wire
/// layout is the period base byte, then the period big-endian. An unknown
/// period base is rejected before anything reaches the bus.
pub struct SetRxModeCommand {
    pub period: RxPeriod,
    pub period_base: PeriodBase,
}

impl<MODE: SX1280ModeValid> SX1280Command<MODE> for SetRxModeCommand {
    type Response = NullResponse;

    open spec fn opcode_spec() -> u8 {
        0x82
    }

    open spec fn encodable(&self) -> bool {
        !(self.period_base is Unknown)
    }

    open spec fn arg_bytes_spec(&self) -> Seq<u8> {
        seq![
            self.period_base.to_byte_spec(),
            (self.period.to_bits_spec() / 256) as u8,
            (self.period.to_bits_spec() % 256) as u8,
        ]
    }

    open spec fn response_len_spec() -> usize {
        0
    }

    open spec fn decode_spec(status: u8, resp: Seq<u8>) -> Result<
        NullResponse,
        SX1280CommandError,
    > {
        Ok(NullResponse)
    }

    fn opcode() -> u8 {
        0x82
    }

    fn response_len() -> usize {
        0
    }

    fn as_write_bytes(&self) -> (r: Result<Vec<u8>, SX1280CommandError>) {
        match self.period_base {
            PeriodBase::Unknown(_) => {
                return Err(SX1280CommandError::InvalidArgument);
            },
            _ => {},
        }
        let bits = self.period.to_bits();
        let mut v: Vec<u8> = Vec::new();
        v.push(self.period_base.to_byte());
        v.push((bits / 256) as u8);
        v.push((bits % 256) as u8);
        proof {
            assert(v@ =~= seq![
                self.period_base.to_byte_spec(),
                (self.period.to_bits_spec() / 256) as u8,
                (self.period.to_bits_spec() % 256) as u8,
            ]);
        }
        Ok(v)
    }

    fn decode(status: u8, resp: &Vec<u8>) -> (r: Result<NullResponse, SX1280CommandError>) {
        Ok(NullResponse)
    }
}

} // verus!
