//! LoRa packet parameter setup.

use vstd::prelude::*;
use crate::commands::{NullResponse, SX1280Command, SX1280CommandError};
use crate::modes::ModeLoRa;

verus! {

/// The longest payload an explicit-header LoRa packet may announce.
pub const LORA_EXPLICIT_PAYLOAD_MAX: u8 = 253;

/// I/Q polarity.
#[derive(Clone, Copy, Debug, PartialEq, Eq, Structural)]
pub enum LoRaIQMode {
    Standard,
    Inverted,
}

impl LoRaIQMode {
    pub open spec fn to_byte_spec(self) -> u8 {
        match self {
            LoRaIQMode::Standard => 0x40,
            LoRaIQMode::Inverted => 0x00,
        }
    }

    pub fn to_byte(self) -> (r: u8)
        ensures
            r == self.to_byte_spec(),
    {
        match self {
            LoRaIQMode::Standard => 0x40,
            LoRaIQMode::Inverted => 0x00,
        }
    }
}

/// Payload CRC presence.
#[derive(Clone, Copy, Debug, PartialEq, Eq, Structural)]
pub enum LoRaCrcMode {
    Enabled,
    Disabled,
}

impl LoRaCrcMode {
    pub open spec fn to_byte_spec(self) -> u8 {
        match self {
            LoRaCrcMode::Enabled => 0x20,
            LoRaCrcMode::Disabled => 0x00,
        }
    }

    pub fn to_byte(self) -> (r: u8)
        ensures
            r == self.to_byte_spec(),
    {
        match self {
            LoRaCrcMode::Enabled => 0x20,
            LoRaCrcMode::Disabled => 0x00,
        }
    }
}

/// Whether packets carry a length header.
#[derive(Clone, Copy, Debug, PartialEq, Eq, Structural)]
pub enum LoRaHeaderType {
    /// No header; both sides agree on the length out of band.
    Implicit,
    /// The packet announces its own length.
    Explicit,
}

impl LoRaHeaderType {
    pub open spec fn to_byte_spec(self) -> u8 {
        match self {
            LoRaHeaderType::Implicit => 0x80,
            LoRaHeaderType::Explicit => 0x00,
        }
    }

    pub fn to_byte(self) -> (r: u8)
        ensures
            r == self.to_byte_spec(),
    {
        match self {
            LoRaHeaderType::Implicit => 0x80,
            LoRaHeaderType::Explicit => 0x00,
        }
    }
}

/// Two to the power `e`.
pub open spec fn pow2(e: nat) -> nat
    decreases e,
{
    if e == 0 {
        1
    } else {
        2 * pow2((e - 1) as nat)
    }
}

/// How many times two divides `v` (zero for zero).
pub open spec fn trailing_zeros(v: u32) -> nat
    decreases v,
{
    if v == 0 || v % 2 == 1 {
        0
    } else {
        1 + trailing_zeros(v / 2)
    }
}

/// `v` with all factors of two removed (zero for zero).
pub open spec fn odd_part(v: u32) -> u32
    decreases v,
{
    if v == 0 || v % 2 == 1 {
        v
    } else {
        odd_part(v / 2)
    }
}

/// A preamble length in symbols, stored as `mantissa * 2^exponent` with
/// four bits for each part.
#[derive(Clone, Copy, Debug, PartialEq, Eq, Structural)]
pub struct LoRaPreambleLength {
    pub mantissa: u8,
    pub exponent: u8,
}

impl LoRaPreambleLength {
    /// Both parts fit their four-bit fields.
    pub open spec fn wf_spec(self) -> bool {
        self.mantissa <= 15 && self.exponent <= 15
    }

    /// The number of preamble symbols this value stands for.
    pub open spec fn count_spec(self) -> nat {
        (self.mantissa as nat) * pow2(self.exponent as nat)
    }

    /// The packed argument byte: the mantissa in the low four bits, the
    /// exponent in the high four. Out-of-range parts are masked, as the
    /// wire field would.
    pub open spec fn packed_spec(self) -> u8 {
        ((self.mantissa % 16) + (self.exponent % 16) * 16) as u8
    }

    pub fn packed(self) -> (r: u8)
        ensures
            r == self.packed_spec(),
    {
        (self.mantissa % 16) + (self.exponent % 16) * 16
    }

    /// Encode a symbol count as mantissa and exponent, keeping the mantissa
    /// odd, which makes the encoding of a count unique. Counts whose odd
    /// part exceeds 15, or which carry more than 15 factors of two, have no
    /// such encoding and are rejected.
    pub fn try_from_count(value: u32) -> (r: Result<Self, SX1280CommandError>)
        ensures
            r matches Ok(p) ==> p.wf_spec() && p.count_spec() == value,
            r matches Ok(p) ==> (value == 0 ==> p == (LoRaPreambleLength {
                mantissa: 0,
                exponent: 0,
            })),
            r matches Ok(p) ==> (value != 0 ==> p.mantissa % 2 == 1),
            r is Err <==> value != 0 && (trailing_zeros(value) > 15 || odd_part(value) > 15),
            r matches Err(e) ==> e == SX1280CommandError::InvalidArgument,
    {
        if value == 0 {
            proof {
                assert(pow2(0) == 1);
                assert(LoRaPreambleLength { mantissa: 0, exponent: 0 }.count_spec() == 0nat
                    * 1nat);
            }
            return Ok(LoRaPreambleLength { mantissa: 0, exponent: 0 });
        }
        let mut v: u32 = value;
        let mut exp: u32 = 0;
        proof {
            assert(pow2(0) == 1);
            assert(value as int == (v as int) * (pow2(0) as int)) by (nonlinear_arith)
                requires
                    v == value,
                    pow2(0) == 1,
            ;
        }
        while v % 2 == 0 && exp < 16
            invariant
                1 <= v,
                exp <= 16,
                value == v * pow2(exp as nat),
                odd_part(value) == odd_part(v),
                trailing_zeros(value) == exp + trailing_zeros(v),
            decreases 16 - exp,
        {
            proof {
                let p = pow2(exp as nat);
                assert(pow2((exp + 1) as nat) == 2 * p);
                assert(value == (v / 2) * (2 * p)) by (nonlinear_arith)
                    requires
                        value == v * p,
                        v % 2 == 0,
                        v == 2 * (v / 2),
                ;
            }
            exp = exp + 1;
            v = v / 2;
        }
        if exp >= 16 {
            // Sixteen or more factors of two: the four-bit exponent cannot
            // carry them.
            proof {
                assert(trailing_zeros(value) > 15);
            }
            return Err(SX1280CommandError::InvalidArgument);
        }
        if v > 15 {
            proof {
                assert(odd_part(v) == v);
                assert(odd_part(value) > 15);
            }
            return Err(SX1280CommandError::InvalidArgument);
        }
        proof {
            assert(trailing_zeros(v) == 0);
            assert(odd_part(v) == v);
        }
        Ok(LoRaPreambleLength { mantissa: v as u8, exponent: exp as u8 })
    }

    /// The symbol count back from the encoded parts.
    pub fn count(self) -> (r: u32)
        requires
            self.wf_spec(),
        ensures
            r == self.count_spec(),
    {
        let mut factor: u32 = 1;
        let mut e: u8 = self.exponent;
        while e > 0
            invariant
                self.wf_spec(),
                e <= self.exponent,
                factor == pow2((self.exponent - e) as nat),
            decreases e,
        {
            proof {
                let k = (self.exponent - e) as nat;
                assert(pow2(k + 1) == 2 * pow2(k));
                lemma_pow2_le(k + 1, 15);
                lemma_pow2_15();
            }
            factor = factor * 2;
            e = e - 1;
        }
        proof {
            assert(factor == pow2(self.exponent as nat));
            lemma_pow2_le(self.exponent as nat, 15);
            lemma_pow2_15();
            assert(self.mantissa * factor <= 15 * 0x8000) by (nonlinear_arith)
                requires
                    self.mantissa <= 15,
                    factor <= 0x8000,
            ;
        }
        (self.mantissa as u32) * factor
    }
}

/// `pow2` is monotone.
proof fn lemma_pow2_le(a: nat, b: nat)
    requires
        a <= b,
    ensures
        pow2(a) <= pow2(b),
    decreases b,
{
    if a < b {
        lemma_pow2_le(a, (b - 1) as nat);
    }
}

proof fn lemma_pow2_15()
    ensures
        pow2(15) == 0x8000,
{
    reveal_with_fuel(pow2, 17);
}

/// Set the LoRa packet shape. LoRa only; an explicit-header payload length
/// over 253 is rejected before anything reaches the bus. The wire layout is
/// the packed preamble byte, the header type, the payload length, the CRC
/// mode, the I/Q mode, and two zero bytes.
pub struct SetLoraPacketParameters {
    pub iq_mode: LoRaIQMode,
    pub crc_mode: LoRaCrcMode,
    pub payload_length: u8,
    pub header_type: LoRaHeaderType,
    pub preamble_length: LoRaPreambleLength,
}

impl SX1280Command<ModeLoRa> for SetLoraPacketParameters {
    type Response = NullResponse;

    open spec fn opcode_spec() -> u8 {
        0x8C
    }

    open spec fn encodable(&self) -> bool {
        !(self.header_type is Explicit && self.payload_length > LORA_EXPLICIT_PAYLOAD_MAX)
    }

    open spec fn arg_bytes_spec(&self) -> Seq<u8> {
        seq![
            self.preamble_length.packed_spec(),
            self.header_type.to_byte_spec(),
            self.payload_length,
            self.crc_mode.to_byte_spec(),
            self.iq_mode.to_byte_spec(),
            0u8,
            0u8,
        ]
    }

    open spec fn response_len_spec() -> usize {
        0
    }

    open spec fn decode_spec(status: u8, resp: Seq<u8>) -> Result<
        NullResponse,
        SX1280CommandError,
    > {
        Ok(NullResponse)
    }

    fn opcode() -> u8 {
        0x8C
    }

    fn response_len() -> usize {
        0
    }

    fn as_write_bytes(&self) -> (r: Result<Vec<u8>, SX1280CommandError>) {
        let explicit = match self.header_type {
            LoRaHeaderType::Explicit => true,
            LoRaHeaderType::Implicit => false,
        };
        if explicit && self.payload_length > LORA_EXPLICIT_PAYLOAD_MAX {
            return Err(SX1280CommandError::InvalidArgument);
        }
        let mut v: Vec<u8> = Vec::new();
        v.push(self.preamble_length.packed());
        v.push(self.header_type.to_byte());
        v.push(self.payload_length);
        v.push(self.crc_mode.to_byte());
        v.push(self.iq_mode.to_byte());
        v.push(0);
        v.push(0);
        proof {
            assert(v@ =~= seq![
                self.preamble_length.packed_spec(),
                self.header_type.to_byte_spec(),
                self.payload_length,
                self.crc_mode.to_byte_spec(),
                self.iq_mode.to_byte_spec(),
                0u8,
                0u8,
            ]);
        }
        Ok(v)
    }

    fn decode(status: u8, resp: &Vec<u8>) -> (r: Result<NullResponse, SX1280CommandError>) {
        Ok(NullResponse)
    }
}

} // verus!
