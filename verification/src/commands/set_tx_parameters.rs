//! Transmit power and power-amplifier ramp setup.

use vstd::prelude::*;
use crate::commands::{NullResponse, SX1280Command, SX1280CommandError};
use crate::modes::SX1280ModeValid;

verus! {

/// The lowest legal transmit power, in dBm.
pub const TX_POWER_MIN_DBM: i8 = -18;

/// The highest legal transmit power, in dBm.
pub const TX_POWER_MAX_DBM: i8 = 13;

/// Power-amplifier ramp-up duration.
#[derive(Clone, Copy, Debug, PartialEq, Eq, Structural)]
pub enum TxRampTime {
    Ramp2us,
    Ramp4us,
    Ramp6us,
    Ramp8us,
    Ramp10us,
    Ramp12us,
    Ramp16us,
    Ramp20us,
    /// A code outside the known set, preserved as-is.
    Unknown(u8),
}

impl TxRampTime {
    pub open spec fn to_byte_spec(self) -> u8 {
        match self {
            TxRampTime::Ramp2us => 0x00,
            TxRampTime::Ramp4us => 0x20,
            TxRampTime::Ramp6us => 0x40,
            TxRampTime::Ramp8us => 0x60,
            TxRampTime::Ramp10us => 0x80,
            TxRampTime::Ramp12us => 0xA0,
            TxRampTime::Ramp16us => 0xC0,
            TxRampTime::Ramp20us => 0xE0,
            TxRampTime::Unknown(b) => b,
        }
    }

    pub open spec fn from_byte_spec(b: u8) -> Self {
        if b == 0x00 {
            TxRampTime::Ramp2us
        } else if b == 0x20 {
            TxRampTime::Ramp4us
        } else if b == 0x40 {
            TxRampTime::Ramp6us
        } else if b == 0x60 {
            TxRampTime::Ramp8us
        } else if b == 0x80 {
            TxRampTime::Ramp10us
        } else if b == 0xA0 {
            TxRampTime::Ramp12us
        } else if b == 0xC0 {
            TxRampTime::Ramp16us
        } else if b == 0xE0 {
            TxRampTime::Ramp20us
        } else {
            TxRampTime::Unknown(b)
        }
    }

    pub open spec fn is_canonical(self) -> bool {
        match self {
            TxRampTime::Unknown(b) => Self::from_byte_spec(b) is Unknown,
            _ => true,
        }
    }

    pub fn to_byte(self) -> (r: u8)
        ensures
            r == self.to_byte_spec(),
    {
        match self {
            TxRampTime::Ramp2us => 0x00,
            TxRampTime::Ramp4us => 0x20,
            TxRampTime::Ramp6us => 0x40,
            TxRampTime::Ramp8us => 0x60,
            TxRampTime::Ramp10us => 0x80,
            TxRampTime::Ramp12us => 0xA0,
            TxRampTime::Ramp16us => 0xC0,
            TxRampTime::Ramp20us => 0xE0,
            TxRampTime::Unknown(b) => b,
        }
    }

    pub fn from_byte(b: u8) -> (r: Self)
        ensures
            r == Self::from_byte_spec(b),
    {
        if b == 0x00 {
            TxRampTime::Ramp2us
        } else if b == 0x20 {
            TxRampTime::Ramp4us
        } else if b == 0x40 {
            TxRampTime::Ramp6us
        } else if b == 0x60 {
            TxRampTime::Ramp8us
        } else if b == 0x80 {
            TxRampTime::Ramp10us
        } else if b == 0xA0 {
            TxRampTime::Ramp12us
        } else if b == 0xC0 {
            TxRampTime::Ramp16us
        } else if b == 0xE0 {
            TxRampTime::Ramp20us
        } else {
            TxRampTime::Unknown(b)
        }
    }
}

/// Law: decoding any byte code and re-encoding it yields the original byte,
/// and a canonical value survives the round trip unchanged.
pub proof fn lemma_tx_ramp_time_round_trip(b: u8, v: TxRampTime)
    requires
        v.is_canonical(),
    ensures
        TxRampTime::from_byte_spec(b).to_byte_spec() == b,
        TxRampTime::from_byte_spec(v.to_byte_spec()) == v,
{
}

/// Set transmit power and ramp time. Legal once a concrete operating mode
/// is set. Power is in dBm, legal from −18 to 13 inclusive, and goes out
/// with an offset of 18 so that −18 dBm encodes to `0x00`; anything outside
/// that range is rejected before anything reaches the bus.
pub struct SetTxParametersCommand {
    pub ramp: TxRampTime,
    pub power: i8,
}

impl<MODE: SX1280ModeValid> SX1280Command<MODE> for SetTxParametersCommand {
    type Response = NullResponse;

    open spec fn opcode_spec() -> u8 {
        0x8E
    }

    open spec fn encodable(&self) -> bool {
        TX_POWER_MIN_DBM <= self.power <= TX_POWER_MAX_DBM
    }

    open spec fn arg_bytes_spec(&self) -> Seq<u8> {
        seq![(self.power + 18) as u8, self.ramp.to_byte_spec()]
    }

    open spec fn response_len_spec() -> usize {
        0
    }

    open spec fn decode_spec(status: u8, resp: Seq<u8>) -> Result<
        NullResponse,
        SX1280CommandError,
    > {
        Ok(NullResponse)
    }

    fn opcode() -> u8 {
        0x8E
    }

    fn response_len() -> usize {
        0
    }

    fn as_write_bytes(&self) -> (r: Result<Vec<u8>, SX1280CommandError>) {
        if self.power < TX_POWER_MIN_DBM || self.power > TX_POWER_MAX_DBM {
            return Err(SX1280CommandError::InvalidArgument);
        }
        let mut v: Vec<u8> = Vec::new();
        v.push((self.power + 18) as u8);
        v.push(self.ramp.to_byte());
        proof {
            assert(v@ =~= seq![(self.power + 18) as u8, self.ramp.to_byte_spec()]);
        }
        Ok(v)
    }

    fn decode(status: u8, resp: &Vec<u8>) -> (r: Result<NullResponse, SX1280CommandError>) {
        Ok(NullResponse)
    }
}

} // verus!
