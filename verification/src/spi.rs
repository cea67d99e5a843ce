//! The bus transaction arbiter.
//!
//! A [`SpiDevice`] owns the bus handle and the chip-select line of one
//! device. At most one transaction is open at a time: opening one takes
//! exclusive ownership of the chip-select pin out of the device and hands it
//! back as a [`SpiTransaction`] guard; closing the transaction restores the
//! deasserted (high) level and returns the pin to the device,
//! unconditionally, on success and failure alike.

use vstd::prelude::*;
use crate::hal::{BusFault, ByteBus, Delay, DigitalOutput, zero_bytes};

verus! {

/// Chip-select settle time: how long chip-select is held asserted before the
/// first clock edge, in microseconds.
pub const CS_SETTLE_US: u64 = 10;

/// Why a transaction could not be opened or closed.
#[derive(Clone, Copy, Debug, PartialEq, Eq, Structural)]
pub enum SpiError {
    /// The chip-select pin faulted.
    PinError,
    /// A prior transaction guard is still outstanding.
    AlreadyStarted,
}

/// Owns the bus handle and the chip-select line of one device. `cs` is
/// `None` exactly while a transaction guard is outstanding.
pub struct SpiDevice<BUS: ByteBus, CS: DigitalOutput> {
    pub bus: BUS,
    pub cs: Option<CS>,
}

/// One open bus acquisition. It exists only while chip-select is asserted
/// and holds exclusive ownership of the chip-select pin; it is consumed by
/// [`SpiDevice::end_transaction`], which restores the pin. Bus traffic
/// while the transaction is open goes through the [`SpiDevice`] methods that
/// take the guard as a witness.
pub struct SpiTransaction<CS: DigitalOutput> {
    pub cs: CS,
}

impl<BUS: ByteBus, CS: DigitalOutput> SpiDevice<BUS, CS> {
    /// Every byte driven onto the wire so far.
    pub open spec fn observed(&self) -> Seq<u8> {
        self.bus.observed()
    }

    /// Whether the device holds its chip-select pin, i.e. no transaction is
    /// outstanding.
    pub open spec fn holds_cs(&self) -> bool {
        self.cs is Some
    }

    /// Whether the held chip-select pin is driven to the deasserted (high)
    /// level.
    pub open spec fn cs_deasserted(&self) -> bool {
        self.cs is Some && self.cs->Some_0.level()
    }

    /// The drive history of the held chip-select pin.
    pub open spec fn cs_drives(&self) -> Seq<bool> {
        self.cs->Some_0.drives()
    }

    /// Take ownership of the bus and the chip-select pin, deasserting
    /// chip-select.
    pub fn new(bus: BUS, cs: CS) -> (r: Result<Self, SpiError>)
        ensures
            r matches Ok(d) ==> d.holds_cs() && d.cs_deasserted() && d.bus == bus
                && d.cs_drives() == cs.drives().push(true),
            r matches Err(e) ==> e == SpiError::PinError,
    {
        let mut cs = cs;
        match cs.set_high() {
            Ok(()) => Ok(SpiDevice { bus, cs: Some(cs) }),
            Err(_) => Err(SpiError::PinError),
        }
    }

    /// Open a transaction: take the chip-select pin, drive it to the
    /// asserted (low) level and let it settle. Fails with `AlreadyStarted`
    /// if a prior guard was never returned; on a chip-select fault the pin
    /// stays with the device.
    pub fn start_transaction<D: Delay>(&mut self, delay: &mut D) -> (r: Result<
        SpiTransaction<CS>,
        SpiError,
    >)
        ensures
            final(self).bus == old(self).bus,
            r matches Ok(t) ==> old(self).holds_cs() && !t.cs.level() && !final(self).holds_cs()
                && t.cs.drives() == old(self).cs_drives().push(false),
            r matches Err(e) ==> final(self).holds_cs() == old(self).holds_cs() && (e
                == SpiError::AlreadyStarted <==> !old(self).holds_cs()),
            (r matches Err(e) && e == SpiError::PinError) ==> final(self).cs_drives() == old(
                self,
            ).cs_drives(),
    {
        let mut cs = match self.cs.take() {
            Some(cs) => cs,
            None => {
                return Err(SpiError::AlreadyStarted);
            },
        };
        match cs.set_low() {
            Ok(()) => {},
            Err(_) => {
                self.cs = Some(cs);
                return Err(SpiError::PinError);
            },
        }
        delay.delay_us(CS_SETTLE_US);
        Ok(SpiTransaction { cs })
    }

    /// Write `words` within the open transaction.
    pub fn write(&mut self, trx: &SpiTransaction<CS>, words: &Vec<u8>) -> (r: Result<
        (),
        BusFault,
    >)
        ensures
            final(self).cs == old(self).cs,
            r is Ok ==> final(self).observed() == old(self).observed() + words@,
    {
        self.bus.write(words)
    }

    /// Read `words.len()` bytes within the open transaction, clocking out
    /// zero bytes.
    pub fn read(&mut self, trx: &SpiTransaction<CS>, words: &mut Vec<u8>) -> (r: Result<
        (),
        BusFault,
    >)
        ensures
            final(self).cs == old(self).cs,
            r is Ok ==> final(self).observed() == old(self).observed() + zero_bytes(
                old(words)@.len(),
            ),
            r is Ok ==> final(words)@.len() == old(words)@.len(),
    {
        self.bus.read(words)
    }

    /// Exchange `words` full-duplex within the open transaction: the buffer
    /// is driven out and overwritten with what the chip drove back.
    pub fn transfer_in_place(&mut self, trx: &SpiTransaction<CS>, words: &mut Vec<u8>) -> (r:
        Result<(), BusFault>)
        ensures
            final(self).cs == old(self).cs,
            r is Ok ==> final(self).observed() == old(self).observed() + old(words)@,
            r is Ok ==> final(words)@.len() == old(words)@.len(),
    {
        self.bus.transfer_in_place(words)
    }

    /// Close the transaction: restore the deasserted (high) chip-select
    /// level and return the pin to the device. The pin comes back to the
    /// device even when driving it high faults; the fault is reported, not
    /// swallowed.
    pub fn end_transaction(&mut self, trx: SpiTransaction<CS>) -> (r: Result<(), SpiError>)
        ensures
            final(self).bus == old(self).bus,
            final(self).holds_cs(),
            r is Ok ==> final(self).cs_deasserted() && final(self).cs_drives()
                == trx.cs.drives().push(true),
            r matches Err(e) ==> e == SpiError::PinError && final(self).cs_drives()
                == trx.cs.drives(),
    {
        let SpiTransaction { mut cs } = trx;
        let pin_result = cs.set_high();
        self.cs = Some(cs);
        match pin_result {
            Ok(()) => Ok(()),
            Err(_) => Err(SpiError::PinError),
        }
    }
}

} // verus!
