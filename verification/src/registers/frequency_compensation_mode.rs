//! Frequency compensation mode register.

use vstd::prelude::*;
use crate::modes::SX1280Mode;
use crate::registers::{SX1280Register, SX1280RegisterError};

verus! {

/// The raw frequency compensation mode byte.
#[derive(Clone, Copy, Debug, PartialEq, Eq, Structural)]
pub struct FrequencyCompensationMode(pub u8);

impl<MODE: SX1280Mode> SX1280Register<MODE> for FrequencyCompensationMode {
    open spec fn address_spec() -> u16 {
        0x93C
    }

    open spec fn reg_len_spec() -> usize {
        1
    }

    open spec fn write_bytes_spec(&self) -> Seq<u8> {
        seq![self.0]
    }

    open spec fn from_bytes_spec(b: Seq<u8>) -> Result<Self, SX1280RegisterError> {
        if b.len() < 1 {
            Err(SX1280RegisterError::NotEnoughData)
        } else {
            Ok(FrequencyCompensationMode(b[0]))
        }
    }

    fn address() -> u16 {
        0x93C
    }

    fn reg_len() -> usize {
        1
    }

    fn as_write_bytes(&self) -> (r: Vec<u8>) {
        let mut v: Vec<u8> = Vec::new();
        v.push(self.0);
        proof {
            assert(v@ =~= seq![self.0]);
        }
        v
    }

    fn from_bytes(b: &Vec<u8>) -> (r: Result<Self, SX1280RegisterError>) {
        if b.len() < 1 {
            Err(SX1280RegisterError::NotEnoughData)
        } else {
            Ok(FrequencyCompensationMode(b[0]))
        }
    }
}

} // verus!
