//! The command half of the wire codec.
//!
//! Each protocol command is a value type implementing [`SX1280Command`]: it
//! has a one-byte opcode, encodes its arguments into an exact byte sequence
//! (or rejects them), and decodes the fixed-size response the chip clocks
//! back. The `MODE` parameter scopes each command to the device modes it is
//! legal in.

use vstd::prelude::*;
use crate::modes::SX1280Mode;

pub mod get_status;
pub mod set_packet_type;
pub mod set_sleep;
pub mod set_standby;
pub mod set_fs;
pub mod set_tx;
pub mod set_rx;
pub mod set_rx_dc;
pub mod set_tx_parameters;
pub mod set_cad_parameters;
pub mod set_rf_frequency;
pub mod set_modulation_parameters;
pub mod set_packet_parameters;
pub mod get_rx_buffer_status;
pub mod get_packet_status;
pub mod get_instantaneous_rssi;
pub mod set_irq_params;
pub mod set_long_preamble;
pub mod set_cad;
pub mod set_buffer_base_address;
pub mod set_tx_continuous_wave;
pub mod set_tx_long_preamble;
pub mod get_irq_status;
pub mod clear_irq;

verus! {

/// Why a command could not be encoded or its response not decoded.
#[derive(Clone, Copy, Debug, PartialEq, Eq, Structural)]
pub enum SX1280CommandError {
    /// A field is outside its legal numeric range.
    InvalidArgument,
    /// The response bytes have no defined meaning.
    InvalidResponse,
    Other,
}

/// A protocol command that is legal while the device carries the mode tag
/// `MODE`.
///
/// On the wire a command is the opcode byte (exchanged full-duplex against
/// the chip's status byte), the argument bytes, and then
/// `response_len` zero bytes exchanged against the response.
pub trait SX1280Command<MODE: SX1280Mode>: Sized {
    /// What the response decodes to.
    type Response;

    /// The command's one-byte opcode.
    spec fn opcode_spec() -> u8;

    /// Whether the argument fields are all within their legal ranges.
    spec fn encodable(&self) -> bool;

    /// The exact argument bytes, meaningful when `encodable`.
    spec fn arg_bytes_spec(&self) -> Seq<u8>;

    /// How many response bytes the chip clocks back.
    spec fn response_len_spec() -> usize;

    /// What `(status byte, response bytes)` decode to.
    spec fn decode_spec(status: u8, resp: Seq<u8>) -> Result<Self::Response, SX1280CommandError>;

    fn opcode() -> (r: u8)
        ensures
            r == Self::opcode_spec(),
    ;

    fn response_len() -> (r: usize)
        ensures
            r == Self::response_len_spec(),
    ;

    fn as_write_bytes(&self) -> (r: Result<Vec<u8>, SX1280CommandError>)
        ensures
            self.encodable() ==> (r matches Ok(v) && v@ == self.arg_bytes_spec()),
            !self.encodable() ==> (r matches Err(e) && e == SX1280CommandError::InvalidArgument),
    ;

    fn decode(status: u8, resp: &Vec<u8>) -> (r: Result<Self::Response, SX1280CommandError>)
        requires
            resp@.len() == Self::response_len_spec(),
        ensures
            r == Self::decode_spec(status, resp@),
    ;
}

/// The exact wire traffic one command drives out inside its transaction:
/// the opcode byte, the argument bytes, and the zero bytes clocked out while
/// the response comes back.
pub open spec fn wire_frame<MODE: SX1280Mode, C: SX1280Command<MODE>>(cmd: C) -> Seq<u8> {
    seq![C::opcode_spec()] + cmd.arg_bytes_spec() + crate::hal::zero_bytes(
        C::response_len_spec() as nat,
    )
}

/// Response of the commands the chip answers with nothing beyond the status
/// byte.
#[derive(Clone, Copy, Debug, PartialEq, Eq, Structural)]
pub struct NullResponse;

/// Time base for the transmit/receive period fields.
#[derive(Clone, Copy, Debug, PartialEq, Eq, Structural)]
pub enum PeriodBase {
    /// 15.625 microsecond steps.
    Base15u625s,
    /// 62.5 microsecond steps.
    Base62u5s,
    Base1ms,
    Base4ms,
    /// A code outside the known set, preserved as-is.
    Unknown(u8),
}

impl PeriodBase {
    pub open spec fn to_byte_spec(self) -> u8 {
        match self {
            PeriodBase::Base15u625s => 0x00,
            PeriodBase::Base62u5s => 0x01,
            PeriodBase::Base1ms => 0x02,
            PeriodBase::Base4ms => 0x03,
            PeriodBase::Unknown(b) => b,
        }
    }

    pub open spec fn from_byte_spec(b: u8) -> Self {
        if b == 0x00 {
            PeriodBase::Base15u625s
        } else if b == 0x01 {
            PeriodBase::Base62u5s
        } else if b == 0x02 {
            PeriodBase::Base1ms
        } else if b == 0x03 {
            PeriodBase::Base4ms
        } else {
            PeriodBase::Unknown(b)
        }
    }

    /// An `Unknown` value is canonical when its byte really is outside the
    /// known set.
    pub open spec fn is_canonical(self) -> bool {
        match self {
            PeriodBase::Unknown(b) => Self::from_byte_spec(b) is Unknown,
            _ => true,
        }
    }

    pub fn to_byte(self) -> (r: u8)
        ensures
            r == self.to_byte_spec(),
    {
        match self {
            PeriodBase::Base15u625s => 0x00,
            PeriodBase::Base62u5s => 0x01,
            PeriodBase::Base1ms => 0x02,
            PeriodBase::Base4ms => 0x03,
            PeriodBase::Unknown(b) => b,
        }
    }

    pub fn from_byte(b: u8) -> (r: Self)
        ensures
            r == Self::from_byte_spec(b),
    {
        if b == 0x00 {
            PeriodBase::Base15u625s
        } else if b == 0x01 {
            PeriodBase::Base62u5s
        } else if b == 0x02 {
            PeriodBase::Base1ms
        } else if b == 0x03 {
            PeriodBase::Base4ms
        } else {
            PeriodBase::Unknown(b)
        }
    }
}

/// Law: decoding any byte code and re-encoding it yields the original byte;
/// unknown codes are preserved, never rejected and never mapped to a known
/// value.
pub proof fn lemma_period_base_byte_round_trip(b: u8)
    ensures
        PeriodBase::from_byte_spec(b).to_byte_spec() == b,
{
}

/// Law: encoding a canonical value and decoding the byte yields an equal
/// value.
pub proof fn lemma_period_base_value_round_trip(v: PeriodBase)
    requires
        v.is_canonical(),
    ensures
        PeriodBase::from_byte_spec(v.to_byte_spec()) == v,
{
}

pub const IRQ_TX_DONE: u16 = 0x0001;

pub const IRQ_RX_DONE: u16 = 0x0002;

pub const IRQ_SYNC_WORD_VALID: u16 = 0x0004;

pub const IRQ_SYNC_WORD_ERROR: u16 = 0x0008;

pub const IRQ_HEADER_VALID: u16 = 0x0010;

pub const IRQ_HEADER_ERROR: u16 = 0x0020;

pub const IRQ_CRC_ERROR: u16 = 0x0040;

pub const IRQ_RANGING_SLAVE_RESPONSE_DONE: u16 = 0x0080;

pub const IRQ_RANGING_SLAVE_REQUEST_DISCARD: u16 = 0x0100;

pub const IRQ_RANGING_MASTER_RESULT_VALID: u16 = 0x0200;

pub const IRQ_RANGING_MASTER_TIMEOUT: u16 = 0x0400;

pub const IRQ_RANGING_SLAVE_REQUEST_VALID: u16 = 0x0800;

pub const IRQ_CAD_DONE: u16 = 0x1000;

pub const IRQ_CAD_DETECT: u16 = 0x2000;

pub const IRQ_RXTX_TIMEOUT: u16 = 0x4000;

pub const IRQ_PREAMBLE_DETECT: u16 = 0x8000;

/// A set of interrupt flags: a 16-bit mask, wire-decoded big-endian.
/// Unknown bits are preserved, never rejected.
#[derive(Clone, Copy, Debug, PartialEq, Eq, Structural)]
pub struct SX1280Interrupt(pub u16);

impl SX1280Interrupt {
    pub open spec fn bits_spec(self) -> u16 {
        self.0
    }

    pub fn bits(self) -> (r: u16)
        ensures
            r == self.0,
    {
        self.0
    }

    pub fn empty() -> (r: Self)
        ensures
            r.0 == 0,
    {
        SX1280Interrupt(0)
    }

    pub fn all() -> (r: Self)
        ensures
            r.0 == 0xFFFF,
    {
        SX1280Interrupt(0xFFFF)
    }

    /// Whether every flag of `other` is set in `self`.
    pub open spec fn contains_spec(self, other: Self) -> bool {
        self.0 & other.0 == other.0
    }

    pub fn contains(self, other: Self) -> (r: bool)
        ensures
            r == self.contains_spec(other),
    {
        self.0 & other.0 == other.0
    }

    /// Whether `self` and `other` share at least one flag.
    pub open spec fn intersects_spec(self, other: Self) -> bool {
        self.0 & other.0 != 0
    }

    pub fn intersects(self, other: Self) -> (r: bool)
        ensures
            r == self.intersects_spec(other),
    {
        self.0 & other.0 != 0
    }

    pub fn union(self, other: Self) -> (r: Self)
        ensures
            r.0 == self.0 | other.0,
    {
        SX1280Interrupt(self.0 | other.0)
    }

    pub fn intersection(self, other: Self) -> (r: Self)
        ensures
            r.0 == self.0 & other.0,
    {
        SX1280Interrupt(self.0 & other.0)
    }

    pub fn is_empty(self) -> (r: bool)
        ensures
            r == (self.0 == 0),
    {
        self.0 == 0
    }

    /// The big-endian wire encoding of the mask.
    pub open spec fn be_bytes_spec(self) -> Seq<u8> {
        seq![(self.0 / 256) as u8, (self.0 % 256) as u8]
    }

    /// The mask a big-endian wire pair decodes to.
    pub open spec fn from_be_bytes_spec(hi: u8, lo: u8) -> Self {
        SX1280Interrupt(((hi as u16) * 256 + (lo as u16)) as u16)
    }

    pub fn from_be_bytes(hi: u8, lo: u8) -> (r: Self)
        ensures
            r == Self::from_be_bytes_spec(hi, lo),
    {
        SX1280Interrupt((hi as u16) * 256 + (lo as u16))
    }
}

/// Law: flag sets compose as sets. A union contains both of its parts, a
/// set that contains a non-empty set intersects it, and intersection is
/// symmetric.
pub proof fn lemma_interrupt_set_algebra(a: SX1280Interrupt, b: SX1280Interrupt)
    ensures
        SX1280Interrupt(a.0 | b.0).contains_spec(a),
        SX1280Interrupt(a.0 | b.0).contains_spec(b),
        a.contains_spec(b) && b.0 != 0 ==> a.intersects_spec(b),
        a.intersects_spec(b) == b.intersects_spec(a),
{
    let x = a.0;
    let y = b.0;
    assert((x | y) & x == x) by (bit_vector);
    assert((x | y) & y == y) by (bit_vector);
    assert(x & y == y ==> (y != 0 ==> x & y != 0)) by (bit_vector);
    assert(x & y == y & x) by (bit_vector);
}

/// Law: the big-endian wire encoding of an interrupt set decodes back to an
/// equal set, and decoding any wire pair re-encodes to the same pair —
/// unknown bits survive the round trip.
pub proof fn lemma_interrupt_wire_round_trip(v: SX1280Interrupt, hi: u8, lo: u8)
    ensures
        SX1280Interrupt::from_be_bytes_spec((v.0 / 256) as u8, (v.0 % 256) as u8) == v,
        SX1280Interrupt::from_be_bytes_spec(hi, lo).be_bytes_spec() == seq![hi, lo],
{
    let d = SX1280Interrupt::from_be_bytes_spec(hi, lo);
    assert(d.0 == (hi as u16) * 256 + (lo as u16));
    assert(d.0 / 256 == hi as u16 && d.0 % 256 == lo as u16) by (nonlinear_arith)
        requires
            d.0 == (hi as u16) * 256 + (lo as u16),
            hi <= 255u8 && lo <= 255u8,
    ;
    assert(d.be_bytes_spec() =~= seq![hi, lo]);
}

} // verus!
