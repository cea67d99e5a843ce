//! RF frequency setup.

use vstd::prelude::*;
use crate::commands::{NullResponse, SX1280Command, SX1280CommandError};
use crate::modes::SX1280ModeValid;

verus! {

/// The crystal reference frequency, in hertz.
pub const XTAL_FREQ_HZ: u64 = 52_000_000;

/// Anything that scales to the chip's 24-bit frequency register:
/// `register = floor(frequency * 2^18 / 52 MHz)`.
pub trait IntoRFFrequency: Sized + Copy {
    /// The exact register value, before the 24-bit range check.
    spec fn rf_register_value_spec(self) -> int;

    fn into_rf_frequency(self) -> (r: u32)
        ensures
            r == self.rf_register_value_spec(),
    ;
}

impl IntoRFFrequency for u32 {
    /// A frequency in hertz.
    open spec fn rf_register_value_spec(self) -> int {
        (self * 0x40000) / 52_000_000
    }

    fn into_rf_frequency(self) -> (r: u32) {
        let scaled: u64 = (self as u64) * 0x40000;
        let value: u64 = scaled / XTAL_FREQ_HZ;
        proof {
            assert(value <= 0xFFFF_FFFF) by (nonlinear_arith)
                requires
                    scaled <= 0xFFFF_FFFFu64 * 0x40000,
                    value == scaled / 52_000_000u64,
            ;
        }
        value as u32
    }
}

/// Set the RF frequency. Legal once a concrete operating mode is set; the
/// scaled register value goes out as three big-endian bytes, and a value
/// that exceeds 24 bits is rejected before anything reaches the bus.
pub struct SetRFFrequencyCommand<T: IntoRFFrequency>(pub T);

impl<MODE: SX1280ModeValid, T: IntoRFFrequency> SX1280Command<MODE> for SetRFFrequencyCommand<T> {
    type Response = NullResponse;

    open spec fn opcode_spec() -> u8 {
        0x86
    }

    open spec fn encodable(&self) -> bool {
        self.0.rf_register_value_spec() <= 0xFFFFFF
    }

    open spec fn arg_bytes_spec(&self) -> Seq<u8> {
        seq![
            (self.0.rf_register_value_spec() / 0x10000) as u8,
            ((self.0.rf_register_value_spec() / 0x100) % 0x100) as u8,
            (self.0.rf_register_value_spec() % 0x100) as u8,
        ]
    }

    open spec fn response_len_spec() -> usize {
        0
    }

    open spec fn decode_spec(status: u8, resp: Seq<u8>) -> Result<
        NullResponse,
        SX1280CommandError,
    > {
        Ok(NullResponse)
    }

    fn opcode() -> u8 {
        0x86
    }

    fn response_len() -> usize {
        0
    }

    fn as_write_bytes(&self) -> (r: Result<Vec<u8>, SX1280CommandError>) {
        let value = self.0.into_rf_frequency();
        if value > 0xFFFFFF {
            return Err(SX1280CommandError::InvalidArgument);
        }
        let mut v: Vec<u8> = Vec::new();
        v.push((value / 0x10000) as u8);
        v.push(((value / 0x100) % 0x100) as u8);
        v.push((value % 0x100) as u8);
        proof {
            assert(v@ =~= seq![
                (self.0.rf_register_value_spec() / 0x10000) as u8,
                ((self.0.rf_register_value_spec() / 0x100) % 0x100) as u8,
                (self.0.rf_register_value_spec() % 0x100) as u8,
            ]);
        }
        Ok(v)
    }

    fn decode(status: u8, resp: &Vec<u8>) -> (r: Result<NullResponse, SX1280CommandError>) {
        Ok(NullResponse)
    }
}

} // verus!
