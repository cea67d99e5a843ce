//! The typed device handle and the busy/IRQ synchronization layer.
//!
//! A handle represents one physical radio attached through a bus, a
//! chip-select output, a busy input and a reset output. It carries a
//! compile-time mode tag; a freshly constructed handle is
//! `ModeUninitialized`, and changing mode consumes the handle and produces a
//! new one. Every operation first confirms the chip is not busy; a `Busy`
//! result guarantees that no bus traffic occurred for that call.

use vstd::prelude::*;
use core::marker::PhantomData;
use crate::commands::clear_irq::ClearIrqCommand;
use crate::commands::get_irq_status::GetIrqStatusCommand;
use crate::commands::set_packet_type::SetPacketTypeCommand;
use crate::commands::{NullResponse, SX1280Command, SX1280CommandError, SX1280Interrupt, wire_frame};
use crate::hal::{ByteBus, Delay, DigitalInput, DigitalOutput, zero_bytes, zero_vec};
use crate::modes::{ModeUninitialized, SX1280Mode, SX1280ModeValid};
use crate::registers::{SX1280Register, SX1280RegisterError};
use crate::hal::BusFault;
use crate::spi::{SpiDevice, SpiError, SpiTransaction};

verus! {

/// How long the reset line is held asserted, in milliseconds.
pub const RESET_HOLD_MS: u64 = 100;

/// The coarse first busy-poll interval, in milliseconds.
pub const BUSY_POLL_COARSE_MS: u64 = 10;

/// The fine busy-poll interval, in milliseconds.
pub const BUSY_POLL_FINE_MS: u64 = 1;

/// How many fine polls a busy wait makes before giving up: its timeout, or
/// the full range of the poll counter when the timeout is zero.
pub open spec fn busy_wait_budget(timeout: u64) -> u64 {
    if timeout == 0 {
        u64::MAX
    } else {
        timeout
    }
}

/// One assert followed by one deassert, as a pair appended to a drive
/// history.
proof fn lemma_assert_deassert_pair(s: Seq<bool>)
    ensures
        s.push(false).push(true) == s + seq![false, true],
{
    assert(s.push(false).push(true) =~= s + seq![false, true]);
}

/// A sequence is a prefix of itself, and a prefix survives one more
/// element being pushed.
proof fn lemma_prefix_push(p: Seq<bool>, s: Seq<bool>)
    ensures
        p.is_prefix_of(p),
        p.is_prefix_of(s) ==> forall|b: bool| p.is_prefix_of(#[trigger] s.push(b)),
{
    assert(p =~= p.subrange(0, p.len() as int));
    if p.is_prefix_of(s) {
        assert forall|b: bool| p.is_prefix_of(#[trigger] s.push(b)) by {
            assert(p =~= s.push(b).subrange(0, p.len() as int));
        }
    }
}

/// Everything a device operation can fail with. Lower-layer errors are
/// wrapped, never swallowed.
#[derive(Clone, Copy, Debug, PartialEq, Eq, Structural)]
pub enum SX1280Error {
    /// Opening or closing the bus transaction failed.
    SpiTransactionError(SpiError),
    /// A transfer inside the transaction failed.
    SpiError(crate::hal::BusFault),
    CommandError(SX1280CommandError),
    /// The busy line was asserted; no bus traffic occurred.
    Busy,
    PinError,
    RegisterError(SX1280RegisterError),
    /// The waiting phase ran out; the chip's progress is unknown.
    Timeout,
    Other,
}

/// One radio device in mode `MODE`.
pub struct SX1280<
    BUS: ByteBus,
    CS: DigitalOutput,
    BUSY: DigitalInput,
    RESET: DigitalOutput,
    D: Delay,
    MODE: SX1280Mode,
> {
    pub spi: SpiDevice<BUS, CS>,
    pub busy_pin: BUSY,
    pub reset_pin: RESET,
    pub delay: D,
    pub _mode: PhantomData<MODE>,
}

impl<
    BUS: ByteBus,
    CS: DigitalOutput,
    BUSY: DigitalInput,
    RESET: DigitalOutput,
    D: Delay,
    MODE: SX1280Mode,
> SX1280<BUS, CS, BUSY, RESET, D, MODE> {
    /// Well-formed: no transaction guard is outstanding, so the device
    /// holds its chip-select pin.
    pub open spec fn wf(&self) -> bool {
        self.spi.holds_cs()
    }

    /// Every byte this device's bus interface has driven onto the wire.
    pub open spec fn observed(&self) -> Seq<u8> {
        self.spi.observed()
    }

    /// The chip-select drive history, meaningful while the device holds the
    /// pin: each operation adds exactly one assert and one deassert.
    pub open spec fn cs_drives(&self) -> Seq<bool> {
        self.spi.cs_drives()
    }

    /// Close the transaction after a failed transfer. The restore always
    /// runs; a restore fault is reported in place of the transfer fault,
    /// never swallowed silently.
    fn close_after_fault(&mut self, trx: SpiTransaction<CS>, fault: BusFault) -> (r: SX1280Error)
        ensures
            final(self).wf(),
            final(self).spi.bus == old(self).spi.bus,
            final(self).busy_pin == old(self).busy_pin,
            final(self).reset_pin == old(self).reset_pin,
            final(self).delay == old(self).delay,
            r == SX1280Error::SpiError(fault) || r == SX1280Error::SpiTransactionError(
                SpiError::PinError,
            ),
            r == SX1280Error::SpiError(fault) ==> final(self).spi.cs_deasserted()
                && final(self).spi.cs_drives() == trx.cs.drives().push(true),
            r != SX1280Error::SpiError(fault) ==> final(self).spi.cs_drives() == trx.cs.drives(),
    {
        match self.spi.end_transaction(trx) {
            Ok(()) => SX1280Error::SpiError(fault),
            Err(_) => SX1280Error::SpiTransactionError(SpiError::PinError),
        }
    }

    /// Sample the busy input once, without suspending. `Busy` guarantees
    /// zero bytes of bus traffic for this call — as for every operation
    /// below, since each of them asks here before touching the bus.
    pub fn ensure_not_busy(&mut self) -> (r: Result<(), SX1280Error>)
        ensures
            final(self).spi == old(self).spi,
            final(self).reset_pin == old(self).reset_pin,
            final(self).delay == old(self).delay,
            r is Ok ==> final(self).busy_pin.samples() == old(self).busy_pin.samples().push(false),
            r matches Err(e) ==> e == SX1280Error::Busy || e == SX1280Error::PinError,
            (r matches Err(e) && e == SX1280Error::Busy) ==> final(self).busy_pin.samples() == old(
                self,
            ).busy_pin.samples().push(true),
            (r matches Err(e) && e == SX1280Error::PinError) ==> final(self).busy_pin.samples()
                == old(self).busy_pin.samples(),
    {
        match self.busy_pin.is_high() {
            Ok(true) => Err(SX1280Error::Busy),
            Ok(false) => Ok(()),
            Err(_) => Err(SX1280Error::PinError),
        }
    }

    /// Wait until the busy line deasserts: a coarse then fine poll loop,
    /// suspending on each iteration so other tasks keep running. A zero
    /// `timeout` waits indefinitely (bounded only by the 64-bit poll
    /// counter, as `busy_wait_budget` says); otherwise the wait gives up
    /// with `Timeout` after about `timeout` milliseconds, every sample
    /// taken having read high. Never touches the bus.
    pub fn wait_for_busy(&mut self, timeout: u64) -> (r: Result<(), SX1280Error>)
        ensures
            final(self).spi == old(self).spi,
            final(self).reset_pin == old(self).reset_pin,
            old(self).busy_pin.samples().is_prefix_of(final(self).busy_pin.samples()),
            r matches Err(e) ==> e == SX1280Error::Timeout || e == SX1280Error::PinError,
            r is Ok ==> final(self).busy_pin.samples().len() > old(self).busy_pin.samples().len()
                && final(self).busy_pin.samples().last() == false,
            (r matches Err(e) && e == SX1280Error::Timeout) ==> final(self).busy_pin.samples().len()
                > old(self).busy_pin.samples().len(),
            (r matches Err(e) && e == SX1280Error::Timeout) ==> final(self).busy_pin.samples().len()
                >= old(self).busy_pin.samples().len() + busy_wait_budget(timeout)
                - BUSY_POLL_COARSE_MS + 1,
            (r matches Err(e) && e == SX1280Error::Timeout) ==> (forall|i: int|
                old(self).busy_pin.samples().len() <= i < final(self).busy_pin.samples().len()
                    ==> final(self).busy_pin.samples()[i] == true),
    {
        proof {
            lemma_prefix_push(old(self).busy_pin.samples(), old(self).busy_pin.samples());
        }
        match self.ensure_not_busy() {
            Ok(()) => {
                return Ok(());
            },
            Err(_) => {},
        }
        let budget: u64 = if timeout == 0 {
            u64::MAX
        } else {
            timeout
        };
        self.delay.delay_ms(BUSY_POLL_COARSE_MS);
        let mut waited: u64 = BUSY_POLL_COARSE_MS;
        loop
            invariant
                self.spi == old(self).spi,
                self.reset_pin == old(self).reset_pin,
                waited >= BUSY_POLL_COARSE_MS,
                budget == busy_wait_budget(timeout),
                old(self).busy_pin.samples().is_prefix_of(self.busy_pin.samples()),
                self.busy_pin.samples().len() >= old(self).busy_pin.samples().len() + (waited
                    - BUSY_POLL_COARSE_MS),
                forall|i: int|
                    old(self).busy_pin.samples().len() <= i < self.busy_pin.samples().len()
                        ==> self.busy_pin.samples()[i] == true,
            ensures
                self.spi == old(self).spi,
                self.reset_pin == old(self).reset_pin,
            decreases budget - waited,
        {
            let ghost before = self.busy_pin.samples();
            let sampled_high = match self.busy_pin.is_high() {
                Ok(level) => level,
                Err(_) => {
                    return Err(SX1280Error::PinError);
                },
            };
            proof {
                lemma_prefix_push(old(self).busy_pin.samples(), before);
            }
            if !sampled_high {
                return Ok(());
            }
            if waited >= budget {
                return Err(SX1280Error::Timeout);
            }
            self.delay.delay_ms(BUSY_POLL_FINE_MS);
            waited = waited + 1;
        }
    }

    /// Issue a command: confirm not-busy, encode, then inside one
    /// transaction exchange the opcode against the chip's status byte,
    /// write the argument bytes, and exchange zero bytes against the
    /// response; finally decode `(status, response)`.
    ///
    /// On success the wire saw exactly the command's frame. On every exit,
    /// success or failure, the transaction is closed and the chip-select
    /// pin is back with the device.
    pub fn command<C: SX1280Command<MODE>>(&mut self, cmd: C) -> (r: Result<
        C::Response,
        SX1280Error,
    >)
        requires
            old(self).wf(),
        ensures
            final(self).wf(),
            final(self).reset_pin == old(self).reset_pin,
            !cmd.encodable() ==> r is Err,
            match r {
                Ok(resp) => cmd.encodable() && final(self).observed() == old(self).observed()
                    + wire_frame::<MODE, C>(cmd) && final(self).spi.cs_deasserted() && final(self).cs_drives() == old(self).cs_drives() + seq![false, true] && final(self).busy_pin.samples() == old(self).busy_pin.samples().push(false) && (exists|
                    status: u8,
                    bytes: Seq<u8>,
                |
                    bytes.len() == C::response_len_spec() && #[trigger] C::decode_spec(
                        status,
                        bytes,
                    ) == Ok::<C::Response, SX1280CommandError>(resp)),
                Err(e) => match e {
                    SX1280Error::Busy => final(self).observed() == old(self).observed()
                        && final(self).busy_pin.samples() == old(self).busy_pin.samples().push(
                        true,
                    ),
                    SX1280Error::PinError => final(self).observed() == old(self).observed(),
                    SX1280Error::CommandError(ce) => (ce == SX1280CommandError::InvalidArgument
                        && !cmd.encodable() && final(self).observed() == old(self).observed()) || (
                    cmd.encodable() && final(self).observed() == old(self).observed()
                        + wire_frame::<MODE, C>(cmd) && (exists|status: u8, bytes: Seq<u8>|
                        bytes.len() == C::response_len_spec() && #[trigger] C::decode_spec(
                            status,
                            bytes,
                        ) == Err::<C::Response, SX1280CommandError>(ce))),
                    SX1280Error::SpiTransactionError(se) => se == SpiError::PinError
                        && (final(self).cs_drives() == old(self).cs_drives() || final(self).cs_drives() == old(self).cs_drives().push(false))
                        && final(self).busy_pin.samples() == old(self).busy_pin.samples().push(false),
                    SX1280Error::SpiError(_) => cmd.encodable()
                        && final(self).spi.cs_deasserted()
                        && final(self).cs_drives() == old(self).cs_drives() + seq![false, true]
                        && final(self).busy_pin.samples() == old(self).busy_pin.samples().push(false),
                    _ => false,
                },
            },
    {
        match self.ensure_not_busy() {
            Ok(()) => {},
            Err(e) => {
                return Err(e);
            },
        }
        let bytes = match cmd.as_write_bytes() {
            Ok(b) => b,
            Err(ce) => {
                return Err(SX1280Error::CommandError(ce));
            },
        };
        let mut opcode_buf: Vec<u8> = Vec::new();
        opcode_buf.push(C::opcode());
        let trx = match self.spi.start_transaction(&mut self.delay) {
            Ok(t) => t,
            Err(se) => {
                return Err(SX1280Error::SpiTransactionError(se));
            },
        };
        match self.spi.transfer_in_place(&trx, &mut opcode_buf) {
            Ok(()) => {},
            Err(bf) => {
                proof {
                    lemma_assert_deassert_pair(old(self).cs_drives());
                }
                return Err(self.close_after_fault(trx, bf));
            },
        }
        match self.spi.write(&trx, &bytes) {
            Ok(()) => {},
            Err(bf) => {
                proof {
                    lemma_assert_deassert_pair(old(self).cs_drives());
                }
                return Err(self.close_after_fault(trx, bf));
            },
        }
        let mut resp = zero_vec(C::response_len());
        match self.spi.transfer_in_place(&trx, &mut resp) {
            Ok(()) => {},
            Err(bf) => {
                proof {
                    lemma_assert_deassert_pair(old(self).cs_drives());
                }
                return Err(self.close_after_fault(trx, bf));
            },
        }
        match self.spi.end_transaction(trx) {
            Ok(()) => {},
            Err(se) => {
                return Err(SX1280Error::SpiTransactionError(se));
            },
        }
        let status = opcode_buf[0];
        proof {
            lemma_assert_deassert_pair(old(self).cs_drives());
            assert(self.observed() =~= old(self).observed() + wire_frame::<MODE, C>(cmd));
        }
        match C::decode(status, &resp) {
            Ok(resp_value) => {
                proof {
                    assert(C::decode_spec(status, resp@) == Ok::<C::Response, SX1280CommandError>(
                        resp_value,
                    ));
                }
                Ok(resp_value)
            },
            Err(ce) => {
                proof {
                    assert(C::decode_spec(status, resp@) == Err::<C::Response, SX1280CommandError>(
                        ce,
                    ));
                }
                Err(SX1280Error::CommandError(ce))
            },
        }
    }

    /// Issue a command, then wait for the busy line to clear: pure
    /// sequencing, no retry.
    pub fn command_and_wait<C: SX1280Command<MODE>>(&mut self, cmd: C, timeout: u64) -> (r: Result<
        C::Response,
        SX1280Error,
    >)
        requires
            old(self).wf(),
        ensures
            final(self).wf(),
            final(self).reset_pin == old(self).reset_pin,
            !cmd.encodable() ==> r is Err,
            r matches Ok(resp) ==> cmd.encodable() && final(self).observed() == old(
                self,
            ).observed() + wire_frame::<MODE, C>(cmd) && (exists|status: u8, bytes: Seq<u8>|
                bytes.len() == C::response_len_spec() && #[trigger] C::decode_spec(status, bytes)
                    == Ok::<C::Response, SX1280CommandError>(resp)),
            (r matches Err(e) && e == SX1280Error::Busy) ==> final(self).observed() == old(
                self,
            ).observed() && final(self).busy_pin.samples() == old(self).busy_pin.samples().push(
                true,
            ),
            r is Ok ==> final(self).spi.cs_deasserted() && final(self).busy_pin.samples().len()
                > old(self).busy_pin.samples().len() && final(self).busy_pin.samples().last()
                == false,
            (r matches Err(e) && e == SX1280Error::Timeout) ==> cmd.encodable()
                && final(self).observed() == old(self).observed() + wire_frame::<MODE, C>(cmd)
                && final(self).spi.cs_deasserted()
                && final(self).busy_pin.samples().len() > old(
                self,
            ).busy_pin.samples().len() + 1 && final(self).busy_pin.samples().last() == true,
            r matches Err(e) ==> !(e matches SX1280Error::RegisterError(_)) && e
                != SX1280Error::Other,
    {
        let ret = match self.command(cmd) {
            Ok(ret) => ret,
            Err(e) => {
                return Err(e);
            },
        };
        match self.wait_for_busy(timeout) {
            Ok(()) => Ok(ret),
            Err(e) => Err(e),
        }
    }

    /// Pulse the reset line: drive it asserted (low), hold, release. The
    /// handle is consumed and comes back in `ModeUninitialized`; no bus
    /// traffic occurs. A reset-pin fault loses the handle.
    pub fn reset(self) -> (r: Result<
        SX1280<BUS, CS, BUSY, RESET, D, ModeUninitialized>,
        SX1280Error,
    >)
        ensures
            match r {
                Ok(d) => d.spi == self.spi && d.busy_pin == self.busy_pin && d.reset_pin.level()
                    && d.reset_pin.drives() == self.reset_pin.drives().push(false).push(true),
                Err(e) => e == SX1280Error::PinError,
            },
    {
        let SX1280 { spi, busy_pin, mut reset_pin, mut delay, _mode } = self;
        match reset_pin.set_low() {
            Ok(()) => {},
            Err(_) => {
                return Err(SX1280Error::PinError);
            },
        }
        delay.delay_ms(RESET_HOLD_MS);
        match reset_pin.set_high() {
            Ok(()) => {},
            Err(_) => {
                return Err(SX1280Error::PinError);
            },
        }
        Ok(SX1280 { spi, busy_pin, reset_pin, delay, _mode: PhantomData })
    }

    /// Switch to the concrete operating mode `T`: issue the
    /// packet-type-select command with `T`'s fixed code, wait for busy to
    /// clear, and re-type the handle. This is the only way to leave
    /// `ModeUninitialized` and the only way between concrete modes. On
    /// error the old handle is gone and no new one is produced.
    pub fn set_operating_mode<T: SX1280ModeValid>(self) -> (r: Result<
        SX1280<BUS, CS, BUSY, RESET, D, T>,
        SX1280Error,
    >)
        requires
            self.wf(),
        ensures
            match r {
                Ok(d) => d.wf() && d.reset_pin == self.reset_pin && d.observed() == self.observed()
                    + seq![0x8Au8, T::packet_type_spec().to_byte_spec()]
                    && d.busy_pin.samples().len() > self.busy_pin.samples().len()
                    && d.busy_pin.samples().last() == false,
                Err(e) => !(e matches SX1280Error::CommandError(_)) && !(e
                    matches SX1280Error::RegisterError(_)) && e != SX1280Error::Other,
            },
    {
        let mut dev = self;
        match dev.command(SetPacketTypeCommand(T::packet_type())) {
            Ok(_) => {},
            Err(e) => {
                proof {
                    // The select command always encodes and its response
                    // always decodes, so a command error cannot happen.
                    match e {
                        SX1280Error::CommandError(ce) => {
                            let (st, by): (u8, Seq<u8>) = choose|st: u8, by: Seq<u8>|
                                by.len() == <SetPacketTypeCommand as SX1280Command<
                                    MODE,
                                >>::response_len_spec() && #[trigger] <SetPacketTypeCommand as SX1280Command<
                                    MODE,
                                >>::decode_spec(st, by) == Err::<NullResponse, SX1280CommandError>(
                                    ce,
                                );
                            assert(false);
                        },
                        _ => {},
                    }
                }
                return Err(e);
            },
        }
        match dev.wait_for_busy(0) {
            Ok(()) => {},
            Err(e) => {
                return Err(e);
            },
        }
        proof {
            let cmd = SetPacketTypeCommand(T::packet_type_spec());
            assert(wire_frame::<MODE, SetPacketTypeCommand>(cmd) =~= seq![
                0x8Au8,
                T::packet_type_spec().to_byte_spec(),
            ]);
        }
        Ok(
            SX1280 {
                spi: dev.spi,
                busy_pin: dev.busy_pin,
                reset_pin: dev.reset_pin,
                delay: dev.delay,
                _mode: PhantomData,
            },
        )
    }

    /// Write a register: confirm not-busy, then inside one transaction
    /// write the register-write opcode, the big-endian address, and the
    /// value bytes.
    pub fn write_register<R: SX1280Register<MODE>>(&mut self, reg: R) -> (r: Result<
        (),
        SX1280Error,
    >)
        requires
            old(self).wf(),
        ensures
            final(self).wf(),
            final(self).reset_pin == old(self).reset_pin,
            match r {
                Ok(()) => final(self).observed() == old(self).observed() + seq![
                    0x18u8,
                    (R::address_spec() / 256) as u8,
                    (R::address_spec() % 256) as u8,
                ] + reg.write_bytes_spec() && final(self).spi.cs_deasserted() && final(self).cs_drives() == old(self).cs_drives() + seq![false, true] && final(self).busy_pin.samples() == old(self).busy_pin.samples().push(false),
                Err(e) => match e {
                    SX1280Error::Busy => final(self).observed() == old(self).observed()
                        && final(self).busy_pin.samples() == old(self).busy_pin.samples().push(
                        true,
                    ),
                    SX1280Error::PinError => final(self).observed() == old(self).observed(),
                    SX1280Error::SpiTransactionError(se) => se == SpiError::PinError
                        && (final(self).cs_drives() == old(self).cs_drives() || final(self).cs_drives() == old(self).cs_drives().push(false))
                        && final(self).busy_pin.samples() == old(self).busy_pin.samples().push(false),
                    SX1280Error::SpiError(_) => final(self).spi.cs_deasserted()
                        && final(self).cs_drives() == old(self).cs_drives() + seq![false, true]
                        && final(self).busy_pin.samples() == old(self).busy_pin.samples().push(false),
                    _ => false,
                },
            },
    {
        match self.ensure_not_busy() {
            Ok(()) => {},
            Err(e) => {
                return Err(e);
            },
        }
        let bytes = reg.as_write_bytes();
        let addr = R::address();
        let mut header: Vec<u8> = Vec::new();
        header.push(0x18);
        header.push((addr / 256) as u8);
        header.push((addr % 256) as u8);
        let trx = match self.spi.start_transaction(&mut self.delay) {
            Ok(t) => t,
            Err(se) => {
                return Err(SX1280Error::SpiTransactionError(se));
            },
        };
        match self.spi.write(&trx, &header) {
            Ok(()) => {},
            Err(bf) => {
                proof {
                    lemma_assert_deassert_pair(old(self).cs_drives());
                }
                return Err(self.close_after_fault(trx, bf));
            },
        }
        match self.spi.write(&trx, &bytes) {
            Ok(()) => {},
            Err(bf) => {
                proof {
                    lemma_assert_deassert_pair(old(self).cs_drives());
                }
                return Err(self.close_after_fault(trx, bf));
            },
        }
        match self.spi.end_transaction(trx) {
            Ok(()) => {},
            Err(se) => {
                return Err(SX1280Error::SpiTransactionError(se));
            },
        }
        proof {
            lemma_assert_deassert_pair(old(self).cs_drives());
            assert(self.observed() =~= old(self).observed() + seq![
                0x18u8,
                (R::address_spec() / 256) as u8,
                (R::address_spec() % 256) as u8,
            ] + reg.write_bytes_spec());
        }
        Ok(())
    }

    /// Read a register: inside one transaction write the register-read
    /// opcode, the big-endian address and one padding byte, then read the
    /// value bytes back and decode them.
    pub fn read_register<R: SX1280Register<MODE>>(&mut self) -> (r: Result<R, SX1280Error>)
        requires
            old(self).wf(),
        ensures
            final(self).wf(),
            final(self).reset_pin == old(self).reset_pin,
            match r {
                Ok(reg) => final(self).observed() == old(self).observed() + seq![
                    0x19u8,
                    (R::address_spec() / 256) as u8,
                    (R::address_spec() % 256) as u8,
                    0u8,
                ] + zero_bytes(R::reg_len_spec() as nat) && final(self).spi.cs_deasserted() && final(self).cs_drives() == old(self).cs_drives() + seq![false, true]
                    && final(self).busy_pin.samples() == old(self).busy_pin.samples().push(false)
                    && (exists|bytes: Seq<u8>|
                    bytes.len() == R::reg_len_spec() && #[trigger] R::from_bytes_spec(bytes) == Ok::<
                        R,
                        SX1280RegisterError,
                    >(reg)),
                Err(e) => match e {
                    SX1280Error::Busy => final(self).observed() == old(self).observed()
                        && final(self).busy_pin.samples() == old(self).busy_pin.samples().push(
                        true,
                    ),
                    SX1280Error::PinError => final(self).observed() == old(self).observed(),
                    SX1280Error::SpiTransactionError(se) => se == SpiError::PinError
                        && (final(self).cs_drives() == old(self).cs_drives() || final(self).cs_drives() == old(self).cs_drives().push(false))
                        && final(self).busy_pin.samples() == old(self).busy_pin.samples().push(false),
                    SX1280Error::SpiError(_) => final(self).spi.cs_deasserted()
                        && final(self).cs_drives() == old(self).cs_drives() + seq![false, true]
                        && final(self).busy_pin.samples() == old(self).busy_pin.samples().push(false),
                    SX1280Error::RegisterError(re) => exists|bytes: Seq<u8>|
                        bytes.len() == R::reg_len_spec() && #[trigger] R::from_bytes_spec(bytes)
                            == Err::<R, SX1280RegisterError>(re),
                    _ => false,
                },
            },
    {
        match self.ensure_not_busy() {
            Ok(()) => {},
            Err(e) => {
                return Err(e);
            },
        }
        let addr = R::address();
        let mut header: Vec<u8> = Vec::new();
        header.push(0x19);
        header.push((addr / 256) as u8);
        header.push((addr % 256) as u8);
        header.push(0x00);
        let trx = match self.spi.start_transaction(&mut self.delay) {
            Ok(t) => t,
            Err(se) => {
                return Err(SX1280Error::SpiTransactionError(se));
            },
        };
        match self.spi.write(&trx, &header) {
            Ok(()) => {},
            Err(bf) => {
                proof {
                    lemma_assert_deassert_pair(old(self).cs_drives());
                }
                return Err(self.close_after_fault(trx, bf));
            },
        }
        let mut buffer = zero_vec(R::reg_len());
        match self.spi.read(&trx, &mut buffer) {
            Ok(()) => {},
            Err(bf) => {
                proof {
                    lemma_assert_deassert_pair(old(self).cs_drives());
                }
                return Err(self.close_after_fault(trx, bf));
            },
        }
        match self.spi.end_transaction(trx) {
            Ok(()) => {},
            Err(se) => {
                return Err(SX1280Error::SpiTransactionError(se));
            },
        }
        proof {
            lemma_assert_deassert_pair(old(self).cs_drives());
            assert(self.observed() =~= old(self).observed() + seq![
                0x19u8,
                (R::address_spec() / 256) as u8,
                (R::address_spec() % 256) as u8,
                0u8,
            ] + zero_bytes(R::reg_len_spec() as nat));
        }
        match R::from_bytes(&buffer) {
            Ok(reg) => {
                proof {
                    assert(R::from_bytes_spec(buffer@) == Ok::<R, SX1280RegisterError>(reg));
                }
                Ok(reg)
            },
            Err(re) => {
                proof {
                    assert(R::from_bytes_spec(buffer@) == Err::<R, SX1280RegisterError>(re));
                }
                Err(SX1280Error::RegisterError(re))
            },
        }
    }

    /// Write raw payload bytes into the radio's data buffer at `offset`.
    /// No value interpretation.
    pub fn write_buffer(&mut self, offset: u8, data: &Vec<u8>) -> (r: Result<(), SX1280Error>)
        requires
            old(self).wf(),
        ensures
            final(self).wf(),
            final(self).reset_pin == old(self).reset_pin,
            match r {
                Ok(()) => final(self).observed() == old(self).observed() + seq![0x1Au8, offset]
                    + data@ && final(self).spi.cs_deasserted() && final(self).cs_drives() == old(self).cs_drives() + seq![false, true] && final(self).busy_pin.samples()
                    == old(self).busy_pin.samples().push(false),
                Err(e) => match e {
                    SX1280Error::Busy => final(self).observed() == old(self).observed()
                        && final(self).busy_pin.samples() == old(self).busy_pin.samples().push(
                        true,
                    ),
                    SX1280Error::PinError => final(self).observed() == old(self).observed(),
                    SX1280Error::SpiTransactionError(se) => se == SpiError::PinError
                        && (final(self).cs_drives() == old(self).cs_drives() || final(self).cs_drives() == old(self).cs_drives().push(false))
                        && final(self).busy_pin.samples() == old(self).busy_pin.samples().push(false),
                    SX1280Error::SpiError(_) => final(self).spi.cs_deasserted()
                        && final(self).cs_drives() == old(self).cs_drives() + seq![false, true]
                        && final(self).busy_pin.samples() == old(self).busy_pin.samples().push(false),
                    _ => false,
                },
            },
    {
        match self.ensure_not_busy() {
            Ok(()) => {},
            Err(e) => {
                return Err(e);
            },
        }
        let mut header: Vec<u8> = Vec::new();
        header.push(0x1A);
        header.push(offset);
        let trx = match self.spi.start_transaction(&mut self.delay) {
            Ok(t) => t,
            Err(se) => {
                return Err(SX1280Error::SpiTransactionError(se));
            },
        };
        match self.spi.write(&trx, &header) {
            Ok(()) => {},
            Err(bf) => {
                proof {
                    lemma_assert_deassert_pair(old(self).cs_drives());
                }
                return Err(self.close_after_fault(trx, bf));
            },
        }
        match self.spi.write(&trx, data) {
            Ok(()) => {},
            Err(bf) => {
                proof {
                    lemma_assert_deassert_pair(old(self).cs_drives());
                }
                return Err(self.close_after_fault(trx, bf));
            },
        }
        match self.spi.end_transaction(trx) {
            Ok(()) => {},
            Err(se) => {
                return Err(SX1280Error::SpiTransactionError(se));
            },
        }
        proof {
            lemma_assert_deassert_pair(old(self).cs_drives());
            assert(self.observed() =~= old(self).observed() + seq![0x1Au8, offset] + data@);
        }
        Ok(())
    }

    /// Read `data.len()` raw bytes from the radio's data buffer at
    /// `offset` into `data`. No value interpretation.
    pub fn read_buffer(&mut self, offset: u8, data: &mut Vec<u8>) -> (r: Result<(), SX1280Error>)
        requires
            old(self).wf(),
        ensures
            final(self).wf(),
            final(self).reset_pin == old(self).reset_pin,
            match r {
                Ok(()) => final(data)@.len() == old(data)@.len() && final(self).observed() == old(
                    self,
                ).observed() + seq![0x1Bu8, offset, 0u8] + zero_bytes(old(data)@.len()) && final(self).spi.cs_deasserted() && final(self).cs_drives() == old(self).cs_drives() + seq![false, true] && final(self).busy_pin.samples() == old(
                    self,
                ).busy_pin.samples().push(false),
                Err(e) => match e {
                    SX1280Error::Busy => final(self).observed() == old(self).observed()
                        && final(self).busy_pin.samples() == old(self).busy_pin.samples().push(
                        true,
                    ),
                    SX1280Error::PinError => final(self).observed() == old(self).observed(),
                    SX1280Error::SpiTransactionError(se) => se == SpiError::PinError
                        && (final(self).cs_drives() == old(self).cs_drives() || final(self).cs_drives() == old(self).cs_drives().push(false))
                        && final(self).busy_pin.samples() == old(self).busy_pin.samples().push(false),
                    SX1280Error::SpiError(_) => final(self).spi.cs_deasserted()
                        && final(self).cs_drives() == old(self).cs_drives() + seq![false, true]
                        && final(self).busy_pin.samples() == old(self).busy_pin.samples().push(false),
                    _ => false,
                },
            },
    {
        match self.ensure_not_busy() {
            Ok(()) => {},
            Err(e) => {
                return Err(e);
            },
        }
        let mut header: Vec<u8> = Vec::new();
        header.push(0x1B);
        header.push(offset);
        header.push(0x00);
        let trx = match self.spi.start_transaction(&mut self.delay) {
            Ok(t) => t,
            Err(se) => {
                return Err(SX1280Error::SpiTransactionError(se));
            },
        };
        match self.spi.write(&trx, &header) {
            Ok(()) => {},
            Err(bf) => {
                proof {
                    lemma_assert_deassert_pair(old(self).cs_drives());
                }
                return Err(self.close_after_fault(trx, bf));
            },
        }
        match self.spi.read(&trx, data) {
            Ok(()) => {},
            Err(bf) => {
                proof {
                    lemma_assert_deassert_pair(old(self).cs_drives());
                }
                return Err(self.close_after_fault(trx, bf));
            },
        }
        match self.spi.end_transaction(trx) {
            Ok(()) => {},
            Err(se) => {
                return Err(SX1280Error::SpiTransactionError(se));
            },
        }
        proof {
            lemma_assert_deassert_pair(old(self).cs_drives());
            assert(self.observed() =~= old(self).observed() + seq![0x1Bu8, offset, 0u8]
                + zero_bytes(old(data)@.len()));
        }
        Ok(())
    }
}

/// The wire frame of one interrupt-status poll: the opcode and the three
/// zero bytes the response is exchanged against.
pub open spec fn irq_poll_frame() -> Seq<u8> {
    seq![0x15u8, 0u8, 0u8, 0u8]
}

/// `n` consecutive interrupt-status polls on the wire.
pub open spec fn irq_poll_frames(n: nat) -> Seq<u8>
    decreases n,
{
    if n == 0 {
        Seq::empty()
    } else {
        irq_poll_frames((n - 1) as nat) + irq_poll_frame()
    }
}

/// The wire frame that clears the flags of `irq`.
pub open spec fn clear_irq_frame(irq: SX1280Interrupt) -> Seq<u8> {
    seq![0x97u8] + irq.be_bytes_spec()
}

/// Everything an interrupt wait of `n` polls leaves on the wire: the polls,
/// then the clear frame when one was sent.
pub open spec fn irq_wait_trace(n: nat, cleared: bool, irq: SX1280Interrupt) -> Seq<u8> {
    if cleared {
        irq_poll_frames(n) + clear_irq_frame(irq)
    } else {
        irq_poll_frames(n)
    }
}

impl<
    BUS: ByteBus,
    CS: DigitalOutput,
    BUSY: DigitalInput,
    RESET: DigitalOutput,
    D: Delay,
    MODE: SX1280ModeValid,
> SX1280<BUS, CS, BUSY, RESET, D, MODE> {
    /// Poll the interrupt status until it intersects `irq`: read the flags,
    /// wait for busy to clear, repeat. With `clear` set, the requested
    /// flags are cleared before returning, bracketed by busy waits. The
    /// whole loop is bounded by `timeout + 1` polls; the chip is polled at
    /// least once, and a chip busy at entry is reported before anything
    /// reaches the bus.
    pub fn wait_for_irq(&mut self, irq: SX1280Interrupt, clear: bool, timeout: u64) -> (r: Result<
        (),
        SX1280Error,
    >)
        requires
            old(self).wf(),
        ensures
            final(self).wf(),
            final(self).reset_pin == old(self).reset_pin,
            r matches Err(e) ==> !(e matches SX1280Error::RegisterError(_)) && e
                != SX1280Error::Other,
            r is Ok ==> exists|n: nat|
                1 <= n <= timeout + 1 && final(self).observed() == old(self).observed()
                    + #[trigger] irq_wait_trace(n, clear, irq),
            (r matches Err(e) && e == SX1280Error::Timeout) ==> exists|n: nat, c: bool|
                1 <= n <= timeout + 1 && final(self).observed() == old(self).observed()
                    + #[trigger] irq_wait_trace(n, c, irq),
            (r matches Err(e) && e == SX1280Error::Busy) ==> final(self).busy_pin.samples().len()
                > old(self).busy_pin.samples().len() && final(self).busy_pin.samples().last()
                == true,
            (r matches Err(e) && e == SX1280Error::Busy && final(self).busy_pin.samples().len()
                == old(self).busy_pin.samples().len() + 1) ==> final(self).observed() == old(
                self,
            ).observed(),
    {
        match self.ensure_not_busy() {
            Ok(()) => {},
            Err(e) => {
                return Err(e);
            },
        }
        let mut polls: u64 = 0;
        loop
            invariant
                self.wf(),
                self.reset_pin == old(self).reset_pin,
                polls <= timeout,
                self.observed() == old(self).observed() + irq_poll_frames(polls as nat),
                self.busy_pin.samples().len() > old(self).busy_pin.samples().len(),
            ensures
                self.wf(),
                self.reset_pin == old(self).reset_pin,
            decreases timeout - polls,
        {
            let irqs = match self.command(GetIrqStatusCommand) {
                Ok(irqs) => irqs,
                Err(e) => {
                    return Err(e);
                },
            };
            proof {
                assert(wire_frame::<MODE, GetIrqStatusCommand>(GetIrqStatusCommand)
                    =~= irq_poll_frame());
                assert(self.observed() =~= old(self).observed() + irq_poll_frames(
                    (polls + 1) as nat,
                ));
            }
            if irqs.intersects(irq) {
                if clear {
                    match self.wait_for_busy(0) {
                        Ok(()) => {},
                        Err(e) => {
                            proof {
                                assert(self.observed() == old(self).observed() + irq_wait_trace(
                                    (polls + 1) as nat,
                                    false,
                                    irq,
                                ));
                            }
                            return Err(e);
                        },
                    }
                    match self.command(ClearIrqCommand(irq)) {
                        Ok(_) => {},
                        Err(e) => {
                            return Err(e);
                        },
                    }
                    proof {
                        assert(wire_frame::<MODE, ClearIrqCommand>(ClearIrqCommand(irq))
                            =~= clear_irq_frame(irq));
                        assert(self.observed() =~= old(self).observed() + irq_wait_trace(
                            (polls + 1) as nat,
                            true,
                            irq,
                        ));
                    }
                    match self.wait_for_busy(0) {
                        Ok(()) => {},
                        Err(e) => {
                            return Err(e);
                        },
                    }
                } else {
                    proof {
                        assert(self.observed() == old(self).observed() + irq_wait_trace(
                            (polls + 1) as nat,
                            false,
                            irq,
                        ));
                    }
                }
                return Ok(());
            }
            if polls >= timeout {
                proof {
                    assert(self.observed() == old(self).observed() + irq_wait_trace(
                        (polls + 1) as nat,
                        false,
                        irq,
                    ));
                }
                return Err(SX1280Error::Timeout);
            }
            polls = polls + 1;
            match self.wait_for_busy(0) {
                Ok(()) => {},
                Err(e) => {
                    proof {
                        assert(self.observed() == old(self).observed() + irq_wait_trace(
                            polls as nat,
                            false,
                            irq,
                        ));
                    }
                    return Err(e);
                },
            }
        }
    }
}

impl<
    BUS: ByteBus,
    CS: DigitalOutput,
    BUSY: DigitalInput,
    RESET: DigitalOutput,
    D: Delay,
> SX1280<BUS, CS, BUSY, RESET, D, ModeUninitialized> {
    /// Construct a handle from a bus arbiter, a busy input, a reset output
    /// and a delay source. The handle starts in `ModeUninitialized`; the
    /// reset line is driven to its released (high) level.
    pub fn new(spi: SpiDevice<BUS, CS>, busy: BUSY, reset: RESET, delay: D) -> (r: Result<
        Self,
        SX1280Error,
    >)
        ensures
            match r {
                Ok(d) => d.spi == spi && d.busy_pin == busy && d.delay == delay
                    && d.reset_pin.level() && d.reset_pin.drives() == reset.drives().push(true),
                Err(e) => e == SX1280Error::PinError,
            },
    {
        let mut reset = reset;
        match reset.set_high() {
            Ok(()) => {},
            Err(_) => {
                return Err(SX1280Error::PinError);
            },
        }
        Ok(SX1280 { spi, busy_pin: busy, reset_pin: reset, delay, _mode: PhantomData })
    }
}

} // verus!
