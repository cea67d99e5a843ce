//! Packet status query.

use vstd::prelude::*;
use crate::commands::{SX1280Command, SX1280CommandError};
use crate::modes::ModeLoRa;

verus! {

/// Signal quality of the last LoRa packet, in quarter-decibel steps so the
/// chip's half-dB RSSI and quarter-dB SNR both fit exactly.
#[derive(Clone, Copy, Debug, PartialEq, Eq, Structural)]
pub struct LoRaPacketStatus {
    /// Received signal strength, in quarter dBm.
    pub rssi_quarter_dbm: i16,
    /// Signal-to-noise ratio, in quarter dB.
    pub snr_quarter_db: i16,
}

/// The signed quarter-dB SNR a raw response byte stands for.
pub open spec fn snr_quarter_db_spec(b: u8) -> int {
    if b < 128 {
        b as int
    } else {
        b - 256
    }
}

/// The quarter-dBm RSSI: −raw/2 dBm, corrected by the SNR when the signal
/// sits below the noise floor.
pub open spec fn rssi_quarter_dbm_spec(rssi_raw: u8, snr_raw: u8) -> int {
    if snr_quarter_db_spec(snr_raw) <= 0 {
        -2 * rssi_raw - snr_quarter_db_spec(snr_raw)
    } else {
        -2 * rssi_raw
    }
}

/// Read the last packet's signal quality. LoRa only; the RSSI byte comes
/// back second, the SNR byte third.
pub struct GetPacketStatusCommand;

impl SX1280Command<ModeLoRa> for GetPacketStatusCommand {
    type Response = LoRaPacketStatus;

    open spec fn opcode_spec() -> u8 {
        0x1D
    }

    open spec fn encodable(&self) -> bool {
        true
    }

    open spec fn arg_bytes_spec(&self) -> Seq<u8> {
        Seq::empty()
    }

    open spec fn response_len_spec() -> usize {
        6
    }

    open spec fn decode_spec(status: u8, resp: Seq<u8>) -> Result<
        LoRaPacketStatus,
        SX1280CommandError,
    > {
        Ok(
            LoRaPacketStatus {
                rssi_quarter_dbm: rssi_quarter_dbm_spec(resp[1], resp[2]) as i16,
                snr_quarter_db: snr_quarter_db_spec(resp[2]) as i16,
            },
        )
    }

    fn opcode() -> u8 {
        0x1D
    }

    fn response_len() -> usize {
        6
    }

    fn as_write_bytes(&self) -> (r: Result<Vec<u8>, SX1280CommandError>) {
        let v: Vec<u8> = Vec::new();
        proof {
            assert(v@ =~= Seq::<u8>::empty());
        }
        Ok(v)
    }

    fn decode(status: u8, resp: &Vec<u8>) -> (r: Result<LoRaPacketStatus, SX1280CommandError>) {
        let rssi_raw = resp[1];
        let snr_raw = resp[2];
        let snr_q: i16 = if snr_raw < 128 {
            snr_raw as i16
        } else {
            (snr_raw as i16) - 256
        };
        let rssi_q: i16 = if snr_q <= 0 {
            0i16 - 2 * (rssi_raw as i16) - snr_q
        } else {
            0i16 - 2 * (rssi_raw as i16)
        };
        Ok(LoRaPacketStatus { rssi_quarter_dbm: rssi_q, snr_quarter_db: snr_q })
    }
}

} // verus!
