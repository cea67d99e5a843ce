//! The register half of the wire codec.
//!
//! A register is a 16-bit-addressed configuration byte (or bytes) inside the
//! chip, accessed with dedicated read/write opcodes distinct from commands.
//! Each register type implementing [`SX1280Register`] knows its address, its
//! exact value-byte encoding, and how to decode the bytes read back.

use vstd::prelude::*;
use crate::modes::SX1280Mode;

pub mod rx_gain;
pub mod sf_additional_configuration;
pub mod frequency_compensation_mode;

verus! {

/// Why register bytes read back could not be decoded.
#[derive(Clone, Copy, Debug, PartialEq, Eq, Structural)]
pub enum SX1280RegisterError {
    /// Fewer bytes than the register is wide.
    NotEnoughData,
    /// The bytes have no defined meaning for this register.
    Invalid,
    Other,
}

/// A chip register that may be accessed while the device carries the mode
/// tag `MODE`.
pub trait SX1280Register<MODE: SX1280Mode>: Sized {
    /// The register's 16-bit address.
    spec fn address_spec() -> u16;

    /// How many value bytes the register is wide.
    spec fn reg_len_spec() -> usize;

    /// The exact value bytes written to the register.
    spec fn write_bytes_spec(&self) -> Seq<u8>;

    /// What bytes read back decode to.
    spec fn from_bytes_spec(b: Seq<u8>) -> Result<Self, SX1280RegisterError>;

    fn address() -> (r: u16)
        ensures
            r == Self::address_spec(),
    ;

    fn reg_len() -> (r: usize)
        ensures
            r == Self::reg_len_spec(),
    ;

    fn as_write_bytes(&self) -> (r: Vec<u8>)
        ensures
            r@ == self.write_bytes_spec(),
            r@.len() == Self::reg_len_spec(),
    ;

    fn from_bytes(b: &Vec<u8>) -> (r: Result<Self, SX1280RegisterError>)
        ensures
            r == Self::from_bytes_spec(b@),
            b@.len() < Self::reg_len_spec() ==> (r matches Err(e) && e
                == SX1280RegisterError::NotEnoughData),
    ;
}

} // verus!
