//! Standby mode entry.

use vstd::prelude::*;
use crate::commands::{NullResponse, SX1280Command, SX1280CommandError};
use crate::modes::SX1280Mode;

verus! {

/// Which oscillator keeps running in standby.
#[derive(Clone, Copy, Debug, PartialEq, Eq, Structural)]
pub enum StandbyMode {
    StandbyRC,
    StandbyXOSC,
    /// A code outside the known set, preserved as-is.
    Unknown(u8),
}

impl StandbyMode {
    pub open spec fn to_byte_spec(self) -> u8 {
        match self {
            StandbyMode::StandbyRC => 0x00,
            StandbyMode::StandbyXOSC => 0x01,
            StandbyMode::Unknown(b) => b,
        }
    }

    pub open spec fn from_byte_spec(b: u8) -> Self {
        if b == 0x00 {
            StandbyMode::StandbyRC
        } else if b == 0x01 {
            StandbyMode::StandbyXOSC
        } else {
            StandbyMode::Unknown(b)
        }
    }

    pub open spec fn is_canonical(self) -> bool {
        match self {
            StandbyMode::Unknown(b) => Self::from_byte_spec(b) is Unknown,
            _ => true,
        }
    }

    pub fn to_byte(self) -> (r: u8)
        ensures
            r == self.to_byte_spec(),
    {
        match self {
            StandbyMode::StandbyRC => 0x00,
            StandbyMode::StandbyXOSC => 0x01,
            StandbyMode::Unknown(b) => b,
        }
    }

    pub fn from_byte(b: u8) -> (r: Self)
        ensures
            r == Self::from_byte_spec(b),
    {
        if b == 0x00 {
            StandbyMode::StandbyRC
        } else if b == 0x01 {
            StandbyMode::StandbyXOSC
        } else {
            StandbyMode::Unknown(b)
        }
    }
}

/// Law: decoding any byte code and re-encoding it yields the original byte,
/// and a canonical value survives the round trip unchanged.
pub proof fn lemma_standby_mode_round_trip(b: u8, v: StandbyMode)
    requires
        v.is_canonical(),
    ensures
        StandbyMode::from_byte_spec(b).to_byte_spec() == b,
        StandbyMode::from_byte_spec(v.to_byte_spec()) == v,
{
}

/// Enter standby. Legal in any mode.
pub struct SetStandbyModeCommand {
    pub mode: StandbyMode,
}

impl<MODE: SX1280Mode> SX1280Command<MODE> for SetStandbyModeCommand {
    type Response = NullResponse;

    open spec fn opcode_spec() -> u8 {
        0x80
    }

    open spec fn encodable(&self) -> bool {
        true
    }

    open spec fn arg_bytes_spec(&self) -> Seq<u8> {
        seq![self.mode.to_byte_spec()]
    }

    open spec fn response_len_spec() -> usize {
        0
    }

    open spec fn decode_spec(status: u8, resp: Seq<u8>) -> Result<
        NullResponse,
        SX1280CommandError,
    > {
        Ok(NullResponse)
    }

    fn opcode() -> u8 {
        0x80
    }

    fn response_len() -> usize {
        0
    }

    fn as_write_bytes(&self) -> (r: Result<Vec<u8>, SX1280CommandError>) {
        let mut v: Vec<u8> = Vec::new();
        v.push(self.mode.to_byte());
        proof {
            assert(v@ =~= seq![self.mode.to_byte_spec()]);
        }
        Ok(v)
    }

    fn decode(status: u8, resp: &Vec<u8>) -> (r: Result<NullResponse, SX1280CommandError>) {
        Ok(NullResponse)
    }
}

} // verus!
