//! Channel activity detection setup.

use vstd::prelude::*;
use crate::commands::{NullResponse, SX1280Command, SX1280CommandError};
use crate::modes::ModeLoRa;

verus! {

/// How many symbols a channel activity detection scan listens for.
#[derive(Clone, Copy, Debug, PartialEq, Eq, Structural)]
pub enum CadSymbolsNumber {
    Cad1Symbol,
    Cad2Symbols,
    Cad4Symbols,
    Cad8Symbols,
    Cad16Symbols,
    /// A code outside the known set, preserved as-is.
    Unknown(u8),
}

impl CadSymbolsNumber {
    pub open spec fn to_byte_spec(self) -> u8 {
        match self {
            CadSymbolsNumber::Cad1Symbol => 0x00,
            CadSymbolsNumber::Cad2Symbols => 0x20,
            CadSymbolsNumber::Cad4Symbols => 0x40,
            CadSymbolsNumber::Cad8Symbols => 0x60,
            CadSymbolsNumber::Cad16Symbols => 0x80,
            CadSymbolsNumber::Unknown(b) => b,
        }
    }

    pub open spec fn from_byte_spec(b: u8) -> Self {
        if b == 0x00 {
            CadSymbolsNumber::Cad1Symbol
        } else if b == 0x20 {
            CadSymbolsNumber::Cad2Symbols
        } else if b == 0x40 {
            CadSymbolsNumber::Cad4Symbols
        } else if b == 0x60 {
            CadSymbolsNumber::Cad8Symbols
        } else if b == 0x80 {
            CadSymbolsNumber::Cad16Symbols
        } else {
            CadSymbolsNumber::Unknown(b)
        }
    }

    pub open spec fn is_canonical(self) -> bool {
        match self {
            CadSymbolsNumber::Unknown(b) => Self::from_byte_spec(b) is Unknown,
            _ => true,
        }
    }

    pub fn to_byte(self) -> (r: u8)
        ensures
            r == self.to_byte_spec(),
    {
        match self {
            CadSymbolsNumber::Cad1Symbol => 0x00,
            CadSymbolsNumber::Cad2Symbols => 0x20,
            CadSymbolsNumber::Cad4Symbols => 0x40,
            CadSymbolsNumber::Cad8Symbols => 0x60,
            CadSymbolsNumber::Cad16Symbols => 0x80,
            CadSymbolsNumber::Unknown(b) => b,
        }
    }

    pub fn from_byte(b: u8) -> (r: Self)
        ensures
            r == Self::from_byte_spec(b),
    {
        if b == 0x00 {
            CadSymbolsNumber::Cad1Symbol
        } else if b == 0x20 {
            CadSymbolsNumber::Cad2Symbols
        } else if b == 0x40 {
            CadSymbolsNumber::Cad4Symbols
        } else if b == 0x60 {
            CadSymbolsNumber::Cad8Symbols
        } else if b == 0x80 {
            CadSymbolsNumber::Cad16Symbols
        } else {
            CadSymbolsNumber::Unknown(b)
        }
    }
}

/// Law: decoding any byte code and re-encoding it yields the original byte,
/// and a canonical value survives the round trip unchanged.
pub proof fn lemma_cad_symbols_number_round_trip(b: u8, v: CadSymbolsNumber)
    requires
        v.is_canonical(),
    ensures
        CadSymbolsNumber::from_byte_spec(b).to_byte_spec() == b,
        CadSymbolsNumber::from_byte_spec(v.to_byte_spec()) == v,
{
}

/// Configure channel activity detection. LoRa only.
pub struct SetCadParametersCommand {
    pub symbols: CadSymbolsNumber,
}

impl SX1280Command<ModeLoRa> for SetCadParametersCommand {
    type Response = NullResponse;

    open spec fn opcode_spec() -> u8 {
        0x88
    }

    open spec fn encodable(&self) -> bool {
        true
    }

    open spec fn arg_bytes_spec(&self) -> Seq<u8> {
        seq![self.symbols.to_byte_spec()]
    }

    open spec fn response_len_spec() -> usize {
        0
    }

    open spec fn decode_spec(status: u8, resp: Seq<u8>) -> Result<
        NullResponse,
        SX1280CommandError,
    > {
        Ok(NullResponse)
    }

    fn opcode() -> u8 {
        0x88
    }

    fn response_len() -> usize {
        0
    }

    fn as_write_bytes(&self) -> (r: Result<Vec<u8>, SX1280CommandError>) {
        let mut v: Vec<u8> = Vec::new();
        v.push(self.symbols.to_byte());
        proof {
            assert(v@ =~= seq![self.symbols.to_byte_spec()]);
        }
        Ok(v)
    }

    fn decode(status: u8, resp: &Vec<u8>) -> (r: Result<NullResponse, SX1280CommandError>) {
        Ok(NullResponse)
    }
}

} // verus!
