//! Spreading-factor additional configuration register.

use vstd::prelude::*;
use crate::modes::SX1280Mode;
use crate::registers::{SX1280Register, SX1280RegisterError};

verus! {

/// Companion configuration a spreading factor must be paired with.
#[derive(Clone, Copy, Debug, PartialEq, Eq, Structural)]
pub enum SFAdditionalConfiguration {
    /// For spreading factors 5 and 6.
    SF5_6,
    /// For spreading factors 7 and 8.
    SF7_8,
    /// For all other spreading factors.
    SFOther,
    /// A byte outside the known set, preserved as-is.
    Unknown(u8),
}

impl SFAdditionalConfiguration {
    pub open spec fn to_byte_spec(self) -> u8 {
        match self {
            SFAdditionalConfiguration::SF5_6 => 0x1E,
            SFAdditionalConfiguration::SF7_8 => 0x37,
            SFAdditionalConfiguration::SFOther => 0x32,
            SFAdditionalConfiguration::Unknown(b) => b,
        }
    }

    pub open spec fn from_byte_spec(b: u8) -> Self {
        if b == 0x1E {
            SFAdditionalConfiguration::SF5_6
        } else if b == 0x37 {
            SFAdditionalConfiguration::SF7_8
        } else if b == 0x32 {
            SFAdditionalConfiguration::SFOther
        } else {
            SFAdditionalConfiguration::Unknown(b)
        }
    }

    pub open spec fn is_canonical(self) -> bool {
        match self {
            SFAdditionalConfiguration::Unknown(b) => Self::from_byte_spec(b) is Unknown,
            _ => true,
        }
    }

    pub fn to_byte(self) -> (r: u8)
        ensures
            r == self.to_byte_spec(),
    {
        match self {
            SFAdditionalConfiguration::SF5_6 => 0x1E,
            SFAdditionalConfiguration::SF7_8 => 0x37,
            SFAdditionalConfiguration::SFOther => 0x32,
            SFAdditionalConfiguration::Unknown(b) => b,
        }
    }

    pub fn from_byte(b: u8) -> (r: Self)
        ensures
            r == Self::from_byte_spec(b),
    {
        if b == 0x1E {
            SFAdditionalConfiguration::SF5_6
        } else if b == 0x37 {
            SFAdditionalConfiguration::SF7_8
        } else if b == 0x32 {
            SFAdditionalConfiguration::SFOther
        } else {
            SFAdditionalConfiguration::Unknown(b)
        }
    }
}

/// Law: decoding any byte code and re-encoding it yields the original byte,
/// and a canonical value survives the round trip unchanged.
pub proof fn lemma_sf_additional_configuration_round_trip(b: u8, v: SFAdditionalConfiguration)
    requires
        v.is_canonical(),
    ensures
        SFAdditionalConfiguration::from_byte_spec(b).to_byte_spec() == b,
        SFAdditionalConfiguration::from_byte_spec(v.to_byte_spec()) == v,
{
}

impl<MODE: SX1280Mode> SX1280Register<MODE> for SFAdditionalConfiguration {
    open spec fn address_spec() -> u16 {
        0x925
    }

    open spec fn reg_len_spec() -> usize {
        1
    }

    open spec fn write_bytes_spec(&self) -> Seq<u8> {
        seq![self.to_byte_spec()]
    }

    open spec fn from_bytes_spec(b: Seq<u8>) -> Result<Self, SX1280RegisterError> {
        if b.len() < 1 {
            Err(SX1280RegisterError::NotEnoughData)
        } else {
            Ok(Self::from_byte_spec(b[0]))
        }
    }

    fn address() -> u16 {
        0x925
    }

    fn reg_len() -> usize {
        1
    }

    fn as_write_bytes(&self) -> (r: Vec<u8>) {
        let mut v: Vec<u8> = Vec::new();
        v.push(self.to_byte());
        proof {
            assert(v@ =~= seq![self.to_byte_spec()]);
        }
        v
    }

    fn from_bytes(b: &Vec<u8>) -> (r: Result<Self, SX1280RegisterError>) {
        if b.len() < 1 {
            Err(SX1280RegisterError::NotEnoughData)
        } else {
            Ok(Self::from_byte(b[0]))
        }
    }
}

} // verus!
