//! LoRa modulation parameter setup.

use vstd::prelude::*;
use crate::commands::{NullResponse, SX1280Command, SX1280CommandError};
use crate::modes::ModeLoRa;

verus! {

/// LoRa spreading factor.
#[derive(Clone, Copy, Debug, PartialEq, Eq, Structural)]
pub enum SpreadingFactor {
    SF5,
    SF6,
    SF7,
    SF8,
    SF9,
    SF10,
    SF11,
    SF12,
    /// A code outside the known set, preserved as-is.
    Unknown(u8),
}

impl SpreadingFactor {
    pub open spec fn to_byte_spec(self) -> u8 {
        match self {
            SpreadingFactor::SF5 => 0x50,
            SpreadingFactor::SF6 => 0x60,
            SpreadingFactor::SF7 => 0x70,
            SpreadingFactor::SF8 => 0x80,
            SpreadingFactor::SF9 => 0x90,
            SpreadingFactor::SF10 => 0xA0,
            SpreadingFactor::SF11 => 0xB0,
            SpreadingFactor::SF12 => 0xC0,
            SpreadingFactor::Unknown(b) => b,
        }
    }

    pub open spec fn from_byte_spec(b: u8) -> Self {
        if b == 0x50 {
            SpreadingFactor::SF5
        } else if b == 0x60 {
            SpreadingFactor::SF6
        } else if b == 0x70 {
            SpreadingFactor::SF7
        } else if b == 0x80 {
            SpreadingFactor::SF8
        } else if b == 0x90 {
            SpreadingFactor::SF9
        } else if b == 0xA0 {
            SpreadingFactor::SF10
        } else if b == 0xB0 {
            SpreadingFactor::SF11
        } else if b == 0xC0 {
            SpreadingFactor::SF12
        } else {
            SpreadingFactor::Unknown(b)
        }
    }

    pub open spec fn is_canonical(self) -> bool {
        match self {
            SpreadingFactor::Unknown(b) => Self::from_byte_spec(b) is Unknown,
            _ => true,
        }
    }

    pub fn to_byte(self) -> (r: u8)
        ensures
            r == self.to_byte_spec(),
    {
        match self {
            SpreadingFactor::SF5 => 0x50,
            SpreadingFactor::SF6 => 0x60,
            SpreadingFactor::SF7 => 0x70,
            SpreadingFactor::SF8 => 0x80,
            SpreadingFactor::SF9 => 0x90,
            SpreadingFactor::SF10 => 0xA0,
            SpreadingFactor::SF11 => 0xB0,
            SpreadingFactor::SF12 => 0xC0,
            SpreadingFactor::Unknown(b) => b,
        }
    }

    pub fn from_byte(b: u8) -> (r: Self)
        ensures
            r == Self::from_byte_spec(b),
    {
        if b == 0x50 {
            SpreadingFactor::SF5
        } else if b == 0x60 {
            SpreadingFactor::SF6
        } else if b == 0x70 {
            SpreadingFactor::SF7
        } else if b == 0x80 {
            SpreadingFactor::SF8
        } else if b == 0x90 {
            SpreadingFactor::SF9
        } else if b == 0xA0 {
            SpreadingFactor::SF10
        } else if b == 0xB0 {
            SpreadingFactor::SF11
        } else if b == 0xC0 {
            SpreadingFactor::SF12
        } else {
            SpreadingFactor::Unknown(b)
        }
    }
}

/// Law: decoding any byte code and re-encoding it yields the original byte,
/// and a canonical value survives the round trip unchanged.
pub proof fn lemma_spreading_factor_round_trip(b: u8, v: SpreadingFactor)
    requires
        v.is_canonical(),
    ensures
        SpreadingFactor::from_byte_spec(b).to_byte_spec() == b,
        SpreadingFactor::from_byte_spec(v.to_byte_spec()) == v,
{
}

/// LoRa channel bandwidth.
#[derive(Clone, Copy, Debug, PartialEq, Eq, Structural)]
pub enum Bandwidth {
    BW1M625Hz,
    BW812k5Hz,
    BW406k25Hz,
    BW203k125Hz,
    /// A code outside the known set, preserved as-is.
    Unknown(u8),
}

impl Bandwidth {
    pub open spec fn to_byte_spec(self) -> u8 {
        match self {
            Bandwidth::BW1M625Hz => 0x0A,
            Bandwidth::BW812k5Hz => 0x18,
            Bandwidth::BW406k25Hz => 0x26,
            Bandwidth::BW203k125Hz => 0x34,
            Bandwidth::Unknown(b) => b,
        }
    }

    pub open spec fn from_byte_spec(b: u8) -> Self {
        if b == 0x0A {
            Bandwidth::BW1M625Hz
        } else if b == 0x18 {
            Bandwidth::BW812k5Hz
        } else if b == 0x26 {
            Bandwidth::BW406k25Hz
        } else if b == 0x34 {
            Bandwidth::BW203k125Hz
        } else {
            Bandwidth::Unknown(b)
        }
    }

    pub open spec fn is_canonical(self) -> bool {
        match self {
            Bandwidth::Unknown(b) => Self::from_byte_spec(b) is Unknown,
            _ => true,
        }
    }

    pub fn to_byte(self) -> (r: u8)
        ensures
            r == self.to_byte_spec(),
    {
        match self {
            Bandwidth::BW1M625Hz => 0x0A,
            Bandwidth::BW812k5Hz => 0x18,
            Bandwidth::BW406k25Hz => 0x26,
            Bandwidth::BW203k125Hz => 0x34,
            Bandwidth::Unknown(b) => b,
        }
    }

    pub fn from_byte(b: u8) -> (r: Self)
        ensures
            r == Self::from_byte_spec(b),
    {
        if b == 0x0A {
            Bandwidth::BW1M625Hz
        } else if b == 0x18 {
            Bandwidth::BW812k5Hz
        } else if b == 0x26 {
            Bandwidth::BW406k25Hz
        } else if b == 0x34 {
            Bandwidth::BW203k125Hz
        } else {
            Bandwidth::Unknown(b)
        }
    }
}

/// Law: decoding any byte code and re-encoding it yields the original byte,
/// and a canonical value survives the round trip unchanged.
pub proof fn lemma_bandwidth_round_trip(b: u8, v: Bandwidth)
    requires
        v.is_canonical(),
    ensures
        Bandwidth::from_byte_spec(b).to_byte_spec() == b,
        Bandwidth::from_byte_spec(v.to_byte_spec()) == v,
{
}

/// LoRa coding rate.
#[derive(Clone, Copy, Debug, PartialEq, Eq, Structural)]
pub enum CodingRate {
    CR4_5,
    CR4_6,
    CR4_7,
    CR4_8,
    CR4_5Alt,
    CR4_6Alt,
    CR4_8Alt,
    /// A code outside the known set, preserved as-is.
    Unknown(u8),
}

impl CodingRate {
    pub open spec fn to_byte_spec(self) -> u8 {
        match self {
            CodingRate::CR4_5 => 0x01,
            CodingRate::CR4_6 => 0x02,
            CodingRate::CR4_7 => 0x03,
            CodingRate::CR4_8 => 0x04,
            CodingRate::CR4_5Alt => 0x05,
            CodingRate::CR4_6Alt => 0x06,
            CodingRate::CR4_8Alt => 0x07,
            CodingRate::Unknown(b) => b,
        }
    }

    pub open spec fn from_byte_spec(b: u8) -> Self {
        if b == 0x01 {
            CodingRate::CR4_5
        } else if b == 0x02 {
            CodingRate::CR4_6
        } else if b == 0x03 {
            CodingRate::CR4_7
        } else if b == 0x04 {
            CodingRate::CR4_8
        } else if b == 0x05 {
            CodingRate::CR4_5Alt
        } else if b == 0x06 {
            CodingRate::CR4_6Alt
        } else if b == 0x07 {
            CodingRate::CR4_8Alt
        } else {
            CodingRate::Unknown(b)
        }
    }

    pub open spec fn is_canonical(self) -> bool {
        match self {
            CodingRate::Unknown(b) => Self::from_byte_spec(b) is Unknown,
            _ => true,
        }
    }

    pub fn to_byte(self) -> (r: u8)
        ensures
            r == self.to_byte_spec(),
    {
        match self {
            CodingRate::CR4_5 => 0x01,
            CodingRate::CR4_6 => 0x02,
            CodingRate::CR4_7 => 0x03,
            CodingRate::CR4_8 => 0x04,
            CodingRate::CR4_5Alt => 0x05,
            CodingRate::CR4_6Alt => 0x06,
            CodingRate::CR4_8Alt => 0x07,
            CodingRate::Unknown(b) => b,
        }
    }

    pub fn from_byte(b: u8) -> (r: Self)
        ensures
            r == Self::from_byte_spec(b),
    {
        if b == 0x01 {
            CodingRate::CR4_5
        } else if b == 0x02 {
            CodingRate::CR4_6
        } else if b == 0x03 {
            CodingRate::CR4_7
        } else if b == 0x04 {
            CodingRate::CR4_8
        } else if b == 0x05 {
            CodingRate::CR4_5Alt
        } else if b == 0x06 {
            CodingRate::CR4_6Alt
        } else if b == 0x07 {
            CodingRate::CR4_8Alt
        } else {
            CodingRate::Unknown(b)
        }
    }
}

/// Law: decoding any byte code and re-encoding it yields the original byte,
/// and a canonical value survives the round trip unchanged.
pub proof fn lemma_coding_rate_round_trip(b: u8, v: CodingRate)
    requires
        v.is_canonical(),
    ensures
        CodingRate::from_byte_spec(b).to_byte_spec() == b,
        CodingRate::from_byte_spec(v.to_byte_spec()) == v,
{
}

/// Set spreading factor, bandwidth and coding rate. LoRa only; the wire
/// order is spreading factor, bandwidth, coding rate.
pub struct SetLoraModulationParameters {
    pub spreading_factor: SpreadingFactor,
    pub bandwidth: Bandwidth,
    pub coding_rate: CodingRate,
}

impl SX1280Command<ModeLoRa> for SetLoraModulationParameters {
    type Response = NullResponse;

    open spec fn opcode_spec() -> u8 {
        0x8E
    }

    open spec fn encodable(&self) -> bool {
        true
    }

    open spec fn arg_bytes_spec(&self) -> Seq<u8> {
        seq![
            self.spreading_factor.to_byte_spec(),
            self.bandwidth.to_byte_spec(),
            self.coding_rate.to_byte_spec(),
        ]
    }

    open spec fn response_len_spec() -> usize {
        0
    }

    open spec fn decode_spec(status: u8, resp: Seq<u8>) -> Result<
        NullResponse,
        SX1280CommandError,
    > {
        Ok(NullResponse)
    }

    fn opcode() -> u8 {
        0x8E
    }

    fn response_len() -> usize {
        0
    }

    fn as_write_bytes(&self) -> (r: Result<Vec<u8>, SX1280CommandError>) {
        let mut v: Vec<u8> = Vec::new();
        v.push(self.spreading_factor.to_byte());
        v.push(self.bandwidth.to_byte());
        v.push(self.coding_rate.to_byte());
        proof {
            assert(v@ =~= seq![
                self.spreading_factor.to_byte_spec(),
                self.bandwidth.to_byte_spec(),
                self.coding_rate.to_byte_spec(),
            ]);
        }
        Ok(v)
    }

    fn decode(status: u8, resp: &Vec<u8>) -> (r: Result<NullResponse, SX1280CommandError>) {
        Ok(NullResponse)
    }
}

} // verus!
