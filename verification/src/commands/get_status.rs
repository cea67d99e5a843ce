//! Status query.

use vstd::prelude::*;
use crate::commands::{SX1280Command, SX1280CommandError};
use crate::modes::SX1280Mode;

verus! {

/// The chip's command status, a 3-bit code.
#[derive(Clone, Copy, Debug, PartialEq, Eq, Structural)]
pub enum CommandStatus {
    CommandOk,
    DataAvailable,
    CommandTimeout,
    CommandProcessError,
    CommandExecutionError,
    TxDone,
    /// A 3-bit code outside the known set, preserved as-is.
    Unknown(u8),
}

impl CommandStatus {
    pub open spec fn to_code_spec(self) -> u8 {
        match self {
            CommandStatus::CommandOk => 1,
            CommandStatus::DataAvailable => 2,
            CommandStatus::CommandTimeout => 3,
            CommandStatus::CommandProcessError => 4,
            CommandStatus::CommandExecutionError => 5,
            CommandStatus::TxDone => 6,
            CommandStatus::Unknown(c) => c,
        }
    }

    pub open spec fn from_code_spec(c: u8) -> Self {
        if c == 1 {
            CommandStatus::CommandOk
        } else if c == 2 {
            CommandStatus::DataAvailable
        } else if c == 3 {
            CommandStatus::CommandTimeout
        } else if c == 4 {
            CommandStatus::CommandProcessError
        } else if c == 5 {
            CommandStatus::CommandExecutionError
        } else if c == 6 {
            CommandStatus::TxDone
        } else {
            CommandStatus::Unknown(c)
        }
    }

    pub open spec fn is_canonical(self) -> bool {
        match self {
            CommandStatus::Unknown(c) => Self::from_code_spec(c) is Unknown && c < 8,
            _ => true,
        }
    }

    pub fn from_code(c: u8) -> (r: Self)
        ensures
            r == Self::from_code_spec(c),
    {
        if c == 1 {
            CommandStatus::CommandOk
        } else if c == 2 {
            CommandStatus::DataAvailable
        } else if c == 3 {
            CommandStatus::CommandTimeout
        } else if c == 4 {
            CommandStatus::CommandProcessError
        } else if c == 5 {
            CommandStatus::CommandExecutionError
        } else if c == 6 {
            CommandStatus::TxDone
        } else {
            CommandStatus::Unknown(c)
        }
    }

    pub fn to_code(self) -> (r: u8)
        ensures
            r == self.to_code_spec(),
    {
        match self {
            CommandStatus::CommandOk => 1,
            CommandStatus::DataAvailable => 2,
            CommandStatus::CommandTimeout => 3,
            CommandStatus::CommandProcessError => 4,
            CommandStatus::CommandExecutionError => 5,
            CommandStatus::TxDone => 6,
            CommandStatus::Unknown(c) => c,
        }
    }
}

/// Law: decoding any 3-bit code and re-encoding it yields the original code,
/// and a canonical value survives the round trip unchanged.
pub proof fn lemma_command_status_round_trip(c: u8, v: CommandStatus)
    requires
        v.is_canonical(),
    ensures
        CommandStatus::from_code_spec(c).to_code_spec() == c,
        CommandStatus::from_code_spec(v.to_code_spec()) == v,
{
}

/// The chip's circuit mode, a 3-bit code.
#[derive(Clone, Copy, Debug, PartialEq, Eq, Structural)]
pub enum CircuitMode {
    StandbyRC,
    StandbyXOSC,
    FrequencySynthesis,
    Reception,
    Transmission,
    /// A 3-bit code outside the known set, preserved as-is.
    Unknown(u8),
}

impl CircuitMode {
    pub open spec fn to_code_spec(self) -> u8 {
        match self {
            CircuitMode::StandbyRC => 2,
            CircuitMode::StandbyXOSC => 3,
            CircuitMode::FrequencySynthesis => 4,
            CircuitMode::Reception => 5,
            CircuitMode::Transmission => 6,
            CircuitMode::Unknown(c) => c,
        }
    }

    pub open spec fn from_code_spec(c: u8) -> Self {
        if c == 2 {
            CircuitMode::StandbyRC
        } else if c == 3 {
            CircuitMode::StandbyXOSC
        } else if c == 4 {
            CircuitMode::FrequencySynthesis
        } else if c == 5 {
            CircuitMode::Reception
        } else if c == 6 {
            CircuitMode::Transmission
        } else {
            CircuitMode::Unknown(c)
        }
    }

    pub open spec fn is_canonical(self) -> bool {
        match self {
            CircuitMode::Unknown(c) => Self::from_code_spec(c) is Unknown && c < 8,
            _ => true,
        }
    }

    pub fn from_code(c: u8) -> (r: Self)
        ensures
            r == Self::from_code_spec(c),
    {
        if c == 2 {
            CircuitMode::StandbyRC
        } else if c == 3 {
            CircuitMode::StandbyXOSC
        } else if c == 4 {
            CircuitMode::FrequencySynthesis
        } else if c == 5 {
            CircuitMode::Reception
        } else if c == 6 {
            CircuitMode::Transmission
        } else {
            CircuitMode::Unknown(c)
        }
    }

    pub fn to_code(self) -> (r: u8)
        ensures
            r == self.to_code_spec(),
    {
        match self {
            CircuitMode::StandbyRC => 2,
            CircuitMode::StandbyXOSC => 3,
            CircuitMode::FrequencySynthesis => 4,
            CircuitMode::Reception => 5,
            CircuitMode::Transmission => 6,
            CircuitMode::Unknown(c) => c,
        }
    }
}

/// Law: decoding any 3-bit code and re-encoding it yields the original code,
/// and a canonical value survives the round trip unchanged.
pub proof fn lemma_circuit_mode_round_trip(c: u8, v: CircuitMode)
    requires
        v.is_canonical(),
    ensures
        CircuitMode::from_code_spec(c).to_code_spec() == c,
        CircuitMode::from_code_spec(v.to_code_spec()) == v,
{
}

/// The chip's status byte: the circuit mode lives in the three high bits,
/// the command status in the three bits below; the two low bits are
/// reserved and preserved as read.
#[derive(Clone, Copy, Debug, PartialEq, Eq, Structural)]
pub struct Status(pub u8);

impl Status {
    pub open spec fn command_status_spec(self) -> CommandStatus {
        CommandStatus::from_code_spec(((self.0 / 4) % 8) as u8)
    }

    pub fn command_status(self) -> (r: CommandStatus)
        ensures
            r == self.command_status_spec(),
    {
        CommandStatus::from_code((self.0 / 4) % 8)
    }

    pub open spec fn circuit_mode_spec(self) -> CircuitMode {
        CircuitMode::from_code_spec((self.0 / 32) as u8)
    }

    pub fn circuit_mode(self) -> (r: CircuitMode)
        ensures
            r == self.circuit_mode_spec(),
    {
        CircuitMode::from_code(self.0 / 32)
    }
}

/// Read the status byte the chip echoes while the opcode goes out. Legal in
/// any mode; no argument and no response bytes beyond the echo.
pub struct GetStatusCommand;

impl<MODE: SX1280Mode> SX1280Command<MODE> for GetStatusCommand {
    type Response = Status;

    open spec fn opcode_spec() -> u8 {
        0xC0
    }

    open spec fn encodable(&self) -> bool {
        true
    }

    open spec fn arg_bytes_spec(&self) -> Seq<u8> {
        Seq::empty()
    }

    open spec fn response_len_spec() -> usize {
        0
    }

    open spec fn decode_spec(status: u8, resp: Seq<u8>) -> Result<Status, SX1280CommandError> {
        Ok(Status(status))
    }

    fn opcode() -> u8 {
        0xC0
    }

    fn response_len() -> usize {
        0
    }

    fn as_write_bytes(&self) -> (r: Result<Vec<u8>, SX1280CommandError>) {
        let v: Vec<u8> = Vec::new();
        proof {
            assert(v@ =~= Seq::<u8>::empty());
        }
        Ok(v)
    }

    fn decode(status: u8, resp: &Vec<u8>) -> (r: Result<Status, SX1280CommandError>) {
        Ok(Status(status))
    }
}

} // verus!
