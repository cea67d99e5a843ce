//! Instantaneous RSSI query.

use vstd::prelude::*;
use crate::commands::{SX1280Command, SX1280CommandError};
use crate::modes::ModeLoRa;

verus! {

/// The signal strength right now, kept as the chip's raw half-dBm byte:
/// the level is −raw/2 dBm.
#[derive(Clone, Copy, Debug, PartialEq, Eq, Structural)]
pub struct InstantaneousRssi(pub u8);

impl InstantaneousRssi {
    /// The level in quarter dBm, the same scale the packet status uses.
    pub open spec fn quarter_dbm_spec(self) -> int {
        -2 * self.0
    }

    pub fn quarter_dbm(self) -> (r: i16)
        ensures
            r == self.quarter_dbm_spec(),
    {
        0i16 - 2 * (self.0 as i16)
    }
}

/// Read the instantaneous RSSI. LoRa only; the level rides in the echoed
/// status byte.
pub struct GetInstantaneousRssiCommand;

impl SX1280Command<ModeLoRa> for GetInstantaneousRssiCommand {
    type Response = InstantaneousRssi;

    open spec fn opcode_spec() -> u8 {
        0x1F
    }

    open spec fn encodable(&self) -> bool {
        true
    }

    open spec fn arg_bytes_spec(&self) -> Seq<u8> {
        Seq::empty()
    }

    open spec fn response_len_spec() -> usize {
        2
    }

    open spec fn decode_spec(status: u8, resp: Seq<u8>) -> Result<
        InstantaneousRssi,
        SX1280CommandError,
    > {
        Ok(InstantaneousRssi(status))
    }

    fn opcode() -> u8 {
        0x1F
    }

    fn response_len() -> usize {
        2
    }

    fn as_write_bytes(&self) -> (r: Result<Vec<u8>, SX1280CommandError>) {
        let v: Vec<u8> = Vec::new();
        proof {
            assert(v@ =~= Seq::<u8>::empty());
        }
        Ok(v)
    }

    fn decode(status: u8, resp: &Vec<u8>) -> (r: Result<InstantaneousRssi, SX1280CommandError>) {
        Ok(InstantaneousRssi(status))
    }
}

} // verus!
