//! Receiver gain register.

use vstd::prelude::*;
use crate::modes::SX1280Mode;
use crate::registers::{SX1280Register, SX1280RegisterError};

verus! {

/// Receiver sensitivity selection, a 2-bit code.
#[derive(Clone, Copy, Debug, PartialEq, Eq, Structural)]
pub enum RxGainSensitivity {
    HighSensitivity,
    LowSensitivity,
    /// A 2-bit code outside the known set, preserved as-is.
    Unknown(u8),
}

impl RxGainSensitivity {
    pub open spec fn to_code_spec(self) -> u8 {
        match self {
            RxGainSensitivity::HighSensitivity => 0x03,
            RxGainSensitivity::LowSensitivity => 0x00,
            RxGainSensitivity::Unknown(c) => c,
        }
    }

    /// Decode a 2-bit code (the two high bits of the register, shifted
    /// down).
    pub open spec fn from_code_spec(c: u8) -> Self {
        if c == 0x03 {
            RxGainSensitivity::HighSensitivity
        } else if c == 0x00 {
            RxGainSensitivity::LowSensitivity
        } else {
            RxGainSensitivity::Unknown(c)
        }
    }

    pub open spec fn is_canonical(self) -> bool {
        match self {
            RxGainSensitivity::Unknown(c) => Self::from_code_spec(c) is Unknown && c < 4,
            _ => true,
        }
    }

    pub fn to_code(self) -> (r: u8)
        ensures
            r == self.to_code_spec(),
    {
        match self {
            RxGainSensitivity::HighSensitivity => 0x03,
            RxGainSensitivity::LowSensitivity => 0x00,
            RxGainSensitivity::Unknown(c) => c,
        }
    }

    pub fn from_code(c: u8) -> (r: Self)
        ensures
            r == Self::from_code_spec(c),
    {
        if c == 0x03 {
            RxGainSensitivity::HighSensitivity
        } else if c == 0x00 {
            RxGainSensitivity::LowSensitivity
        } else {
            RxGainSensitivity::Unknown(c)
        }
    }
}

/// Law: decoding any 2-bit code and re-encoding it yields the original code,
/// and encoding a canonical value decodes back to an equal value.
pub proof fn lemma_rx_gain_sensitivity_round_trip(c: u8, v: RxGainSensitivity)
    requires
        v.is_canonical(),
    ensures
        RxGainSensitivity::from_code_spec(c).to_code_spec() == c,
        RxGainSensitivity::from_code_spec(v.to_code_spec()) == v,
{
}

/// The receiver gain register: the sensitivity code lives in the two high
/// bits; the six low bits are reserved and preserved as read.
#[derive(Clone, Copy, Debug, PartialEq, Eq, Structural)]
pub struct RxGain(pub u8);

impl RxGain {
    pub fn new() -> (r: Self)
        ensures
            r.0 == 0,
    {
        RxGain(0)
    }

    pub open spec fn sensitivity_spec(self) -> RxGainSensitivity {
        RxGainSensitivity::from_code_spec((self.0 / 64) as u8)
    }

    pub fn sensitivity(self) -> (r: RxGainSensitivity)
        ensures
            r == self.sensitivity_spec(),
    {
        RxGainSensitivity::from_code(self.0 / 64)
    }

    /// The same register value with the sensitivity code replaced; the
    /// reserved low bits are kept.
    pub fn with_sensitivity(self, s: RxGainSensitivity) -> (r: Self)
        requires
            s.is_canonical(),
        ensures
            r.sensitivity_spec() == s,
            r.0 % 64 == self.0 % 64,
    {
        let code = s.to_code();
        proof {
            assert(s.to_code_spec() < 4);
            assert(self.0 % 64 < 64);
            assert((self.0 % 64) + code * 64 <= 63 + 3 * 64);
        }
        let raw: u8 = (self.0 % 64) + code * 64;
        proof {
            assert(raw / 64 == code && raw % 64 == self.0 % 64) by (nonlinear_arith)
                requires
                    raw == (self.0 % 64) + code * 64,
                    self.0 % 64 < 64,
                    code < 4,
            ;
        }
        RxGain(raw)
    }
}

impl<MODE: SX1280Mode> SX1280Register<MODE> for RxGain {
    open spec fn address_spec() -> u16 {
        0x891
    }

    open spec fn reg_len_spec() -> usize {
        1
    }

    open spec fn write_bytes_spec(&self) -> Seq<u8> {
        seq![self.0]
    }

    open spec fn from_bytes_spec(b: Seq<u8>) -> Result<Self, SX1280RegisterError> {
        if b.len() < 1 {
            Err(SX1280RegisterError::NotEnoughData)
        } else {
            Ok(RxGain(b[0]))
        }
    }

    fn address() -> u16 {
        0x891
    }

    fn reg_len() -> usize {
        1
    }

    fn as_write_bytes(&self) -> (r: Vec<u8>) {
        let mut v: Vec<u8> = Vec::new();
        v.push(self.0);
        proof {
            assert(v@ =~= seq![self.0]);
        }
        v
    }

    fn from_bytes(b: &Vec<u8>) -> (r: Result<Self, SX1280RegisterError>) {
        if b.len() < 1 {
            Err(SX1280RegisterError::NotEnoughData)
        } else {
            Ok(RxGain(b[0]))
        }
    }
}

} // verus!
