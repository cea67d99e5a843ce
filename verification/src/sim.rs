//! In-memory implementations of the capability contracts in [`crate::hal`].
//!
//! [`SimChipBus`] models one transceiver well enough to exercise the driver
//! without hardware: it frames the driver's transactions out of the call
//! sequence, keeps a 256-byte data buffer, register bytes and the interrupt
//! flags, and hands transmitted payloads out so a test can carry them to a
//! second chip's receiver. [`SimPin`], [`SimBusyPin`] and [`SimDelay`] stand
//! in for the GPIO lines and the scheduler's delays.

use vstd::prelude::*;
use crate::hal::{BusFault, ByteBus, Delay, DigitalInput, DigitalOutput, PinFault};

verus! {

/// An output line that remembers its level and never faults.
pub struct SimPin {
    pub high: bool,
    pub driven: Ghost<Seq<bool>>,
}

impl SimPin {
    pub fn new() -> (r: Self)
        ensures
            r.high,
            r.driven@ == Seq::<bool>::empty(),
    {
        SimPin { high: true, driven: Ghost(Seq::empty()) }
    }
}

impl DigitalOutput for SimPin {
    open spec fn level(&self) -> bool {
        self.high
    }

    open spec fn drives(&self) -> Seq<bool> {
        self.driven@
    }

    fn set_high(&mut self) -> (r: Result<(), PinFault>) {
        self.high = true;
        proof {
            self.driven@ = self.driven@.push(true);
        }
        Ok(())
    }

    fn set_low(&mut self) -> (r: Result<(), PinFault>) {
        self.high = false;
        proof {
            self.driven@ = self.driven@.push(false);
        }
        Ok(())
    }
}

/// An output line stuck at the high level: driving it low faults. Useful to
/// exercise the driver's pin-fault paths.
pub struct SimStuckHighPin {
    pub driven: Ghost<Seq<bool>>,
}

impl SimStuckHighPin {
    pub fn new() -> (r: Self)
        ensures
            r.driven@ == Seq::<bool>::empty(),
    {
        SimStuckHighPin { driven: Ghost(Seq::empty()) }
    }
}

impl DigitalOutput for SimStuckHighPin {
    open spec fn level(&self) -> bool {
        true
    }

    open spec fn drives(&self) -> Seq<bool> {
        self.driven@
    }

    fn set_high(&mut self) -> (r: Result<(), PinFault>) {
        proof {
            self.driven@ = self.driven@.push(true);
        }
        Ok(())
    }

    fn set_low(&mut self) -> (r: Result<(), PinFault>) {
        Err(PinFault)
    }
}

/// A busy input that reads high for a chosen number of samples, then low
/// forever.
pub struct SimBusyPin {
    pub high_samples: u32,
    pub taken: Ghost<Seq<bool>>,
}

impl SimBusyPin {
    pub fn new(high_samples: u32) -> (r: Self)
        ensures
            r.high_samples == high_samples,
    {
        SimBusyPin { high_samples, taken: Ghost(Seq::empty()) }
    }
}

impl DigitalInput for SimBusyPin {
    open spec fn samples(&self) -> Seq<bool> {
        self.taken@
    }

    fn is_high(&mut self) -> (r: Result<bool, PinFault>) {
        let level = if self.high_samples > 0 {
            self.high_samples = self.high_samples - 1;
            true
        } else {
            false
        };
        proof {
            self.taken@ = self.taken@.push(level);
        }
        Ok(level)
    }
}

/// A delay source that only counts what it was asked to wait.
pub struct SimDelay {
    pub elapsed_us: u64,
}

impl SimDelay {
    pub fn new() -> (r: Self)
        ensures
            r.elapsed_us == 0,
    {
        SimDelay { elapsed_us: 0 }
    }
}

impl Delay for SimDelay {
    fn delay_us(&mut self, us: u64) {
        if self.elapsed_us <= u64::MAX - us {
            self.elapsed_us = self.elapsed_us + us;
        } else {
            self.elapsed_us = u64::MAX;
        }
    }

    fn delay_ms(&mut self, ms: u64) {
        let us = if ms <= u64::MAX / 1000 {
            ms * 1000
        } else {
            u64::MAX
        };
        self.delay_us(us);
    }
}

/// Where the modeled chip is within one framed exchange.
#[derive(Clone, Copy, Debug, PartialEq, Eq, Structural)]
pub enum SimPhase {
    /// Between frames.
    Idle,
    /// An opcode arrived; the argument bytes come next.
    CmdOpen(u8),
    /// A command executed; its response waits in `pending_resp`.
    CmdResp,
    /// A register write header arrived for this address; the value bytes
    /// come next.
    RegValue(u16),
    /// A register read header arrived for this address; the next read call
    /// takes the value.
    RegRead(u16),
    /// A buffer write header arrived for this offset; the payload comes
    /// next.
    BufWrite(u8),
    /// A buffer read header arrived for this offset; the next read call
    /// takes the bytes.
    BufRead(u8),
}

/// One modeled transceiver attached to the bus.
pub struct SimChipBus {
    /// Every byte the driver drove onto the wire.
    pub log: Vec<u8>,
    /// The chip's 256-byte data buffer.
    pub mem: Vec<u8>,
    /// Register bytes, keyed by address.
    pub regs: Vec<(u16, u8)>,
    /// The interrupt flags.
    pub irq: u16,
    pub rx_base: u8,
    pub tx_base: u8,
    /// The payload length from the last packet-parameter setup.
    pub payload_len: u8,
    /// The packet type code last selected.
    pub packet_type: u8,
    /// Whether the receiver is armed.
    pub rx_armed: bool,
    /// The length of the last delivered payload.
    pub last_rx_len: u8,
    /// The payload of the last transmission, until a test takes it.
    pub outgoing: Option<Vec<u8>>,
    /// The status byte echoed while an opcode goes out.
    pub status_byte: u8,
    /// When `Some(n)`: the n-th next bus operation faults (1 is the next
    /// one).
    pub fail_countdown: Option<u32>,
    pub phase: SimPhase,
    pub pending_resp: Vec<u8>,
}

impl SimChipBus {
    pub fn new() -> (r: Self)
        ensures
            r.log@.len() == 0,
    {
        let mut mem: Vec<u8> = Vec::new();
        let mut i: usize = 0;
        while i < 256
            invariant
                i <= 256,
                mem@.len() == i,
            decreases 256 - i,
        {
            mem.push(0);
            i = i + 1;
        }
        SimChipBus {
            log: Vec::new(),
            mem,
            regs: Vec::new(),
            irq: 0,
            rx_base: 0,
            tx_base: 0,
            payload_len: 0,
            packet_type: 0,
            rx_armed: false,
            last_rx_len: 0,
            outgoing: None,
            status_byte: 0x44,
            fail_countdown: None,
            phase: SimPhase::Idle,
            pending_resp: Vec::new(),
        }
    }

    /// Arrange for the n-th next bus operation to fault.
    pub fn fail_after(&mut self, n: u32)
        ensures
            final(self).log == old(self).log,
    {
        self.fail_countdown = Some(n);
    }

    /// Take the payload of the last transmission off the air.
    pub fn take_transmitted(&mut self) -> (r: Option<Vec<u8>>)
        ensures
            final(self).log == old(self).log,
            r == old(self).outgoing,
            final(self).outgoing is None,
    {
        self.outgoing.take()
    }

    /// Put a payload on the air into this chip's receiver: it lands in the
    /// data buffer at the receive base address and raises the receive-done
    /// flag.
    pub fn deliver(&mut self, payload: &Vec<u8>)
        ensures
            final(self).log == old(self).log,
            final(self).irq == (old(self).irq | crate::commands::IRQ_RX_DONE),
            !final(self).rx_armed,
    {
        let mut i: usize = 0;
        while i < payload.len()
            invariant
                self.log == old(self).log,
                self.irq == old(self).irq,
                i <= payload@.len(),
            decreases payload@.len() - i,
        {
            let idx = ((self.rx_base as usize) + (i % 256)) % 256;
            if idx < self.mem.len() {
                self.mem.set(idx, payload[i]);
            }
            i = i + 1;
        }
        self.last_rx_len = if payload.len() > 255 {
            255
        } else {
            payload.len() as u8
        };
        self.irq = self.irq | crate::commands::IRQ_RX_DONE;
        self.rx_armed = false;
    }

    /// The byte stored at a register address (zero when never written).
    pub fn reg_value(&self, addr: u16) -> (r: u8) {
        let mut i: usize = 0;
        while i < self.regs.len()
            invariant
                i <= self.regs@.len(),
            decreases self.regs@.len() - i,
        {
            let (a, v) = self.regs[i];
            if a == addr {
                return v;
            }
            i = i + 1;
        }
        0
    }

    fn set_reg(&mut self, addr: u16, value: u8)
        ensures
            final(self).log == old(self).log,
    {
        let mut i: usize = 0;
        while i < self.regs.len()
            invariant
                self.log == old(self).log,
                i <= self.regs@.len(),
            decreases self.regs@.len() - i,
        {
            let (a, _) = self.regs[i];
            if a == addr {
                self.regs.set(i, (addr, value));
                return ;
            }
            i = i + 1;
        }
        self.regs.push((addr, value));
    }

    /// Whether this operation was chosen to fault; counts the operation.
    fn tick_fault(&mut self) -> (r: bool)
        ensures
            final(self).log == old(self).log,
    {
        match self.fail_countdown {
            Some(n) => {
                if n <= 1 {
                    self.fail_countdown = None;
                    true
                } else {
                    self.fail_countdown = Some(n - 1);
                    false
                }
            },
            None => false,
        }
    }

    fn log_bytes(&mut self, words: &Vec<u8>)
        ensures
            final(self).log@ == old(self).log@ + words@,
    {
        let mut i: usize = 0;
        while i < words.len()
            invariant
                i <= words@.len(),
                self.log@ == old(self).log@ + words@.take(i as int),
            decreases words@.len() - i,
        {
            self.log.push(words[i]);
            i = i + 1;
            proof {
                assert(self.log@ =~= old(self).log@ + words@.take(i as int));
            }
        }
        proof {
            assert(words@.take(words@.len() as int) =~= words@);
        }
    }

    /// Run one command once its argument bytes are in.
    fn execute(&mut self, opcode: u8, args: &Vec<u8>)
        ensures
            final(self).log == old(self).log,
    {
        self.pending_resp = Vec::new();
        if opcode == 0x8A {
            // Packet type select.
            if args.len() >= 1 {
                self.packet_type = args[0];
            }
        } else if opcode == 0x8F {
            // Buffer base addresses, transmit base first.
            if args.len() >= 2 {
                self.tx_base = args[0];
                self.rx_base = args[1];
            }
        } else if opcode == 0x8C {
            // LoRa packet parameters; the third byte is the payload length.
            if args.len() >= 3 {
                self.payload_len = args[2];
            }
        } else if opcode == 0x83 {
            // Transmit: the payload leaves the buffer at the transmit base.
            let mut payload: Vec<u8> = Vec::new();
            let mut i: usize = 0;
            while i < self.payload_len as usize
                invariant
                    self.log == old(self).log,
                    i <= self.payload_len,
                decreases self.payload_len as int - i,
            {
                let idx = (self.tx_base as usize + i) % 256;
                if idx < self.mem.len() {
                    payload.push(self.mem[idx]);
                } else {
                    payload.push(0);
                }
                i = i + 1;
            }
            self.outgoing = Some(payload);
            self.irq = self.irq | crate::commands::IRQ_TX_DONE;
        } else if opcode == 0x82 {
            // Receive: arm the receiver.
            self.rx_armed = true;
        } else if opcode == 0x15 {
            // Interrupt status: one padding byte, then the flags big-endian.
            let mut resp: Vec<u8> = Vec::new();
            resp.push(0);
            resp.push((self.irq / 256) as u8);
            resp.push((self.irq % 256) as u8);
            self.pending_resp = resp;
        } else if opcode == 0x97 {
            // Clear the requested flags.
            if args.len() >= 2 {
                let mask: u16 = (args[0] as u16) * 256 + (args[1] as u16);
                self.irq = self.irq & !mask;
            }
        } else if opcode == 0x17 {
            // Receive buffer status: padding, payload length, start pointer.
            let mut resp: Vec<u8> = Vec::new();
            resp.push(0);
            resp.push(self.last_rx_len);
            resp.push(self.rx_base);
            self.pending_resp = resp;
        }
    }

    /// Interpret one `write` call against the current phase.
    fn process_write(&mut self, words: &Vec<u8>)
        ensures
            final(self).log == old(self).log,
    {
        let phase = self.phase;
        match phase {
            SimPhase::Idle => {
                if words.len() == 3 && words[0] == 0x18 {
                    let addr: u16 = (words[1] as u16) * 256 + (words[2] as u16);
                    self.phase = SimPhase::RegValue(addr);
                } else if words.len() == 4 && words[0] == 0x19 {
                    let addr: u16 = (words[1] as u16) * 256 + (words[2] as u16);
                    self.phase = SimPhase::RegRead(addr);
                } else if words.len() == 2 && words[0] == 0x1A {
                    self.phase = SimPhase::BufWrite(words[1]);
                } else if words.len() == 3 && words[0] == 0x1B {
                    self.phase = SimPhase::BufRead(words[1]);
                }
            },
            SimPhase::CmdOpen(opcode) => {
                self.execute(opcode, words);
                self.phase = SimPhase::CmdResp;
            },
            SimPhase::RegValue(addr) => {
                if words.len() >= 1 {
                    self.set_reg(addr, words[0]);
                }
                self.phase = SimPhase::Idle;
            },
            SimPhase::BufWrite(offset) => {
                let mut i: usize = 0;
                while i < words.len()
                    invariant
                        self.log == old(self).log,
                        i <= words@.len(),
                    decreases words@.len() - i,
                {
                    let idx = ((offset as usize) + (i % 256)) % 256;
                    if idx < self.mem.len() {
                        self.mem.set(idx, words[i]);
                    }
                    i = i + 1;
                }
                self.phase = SimPhase::Idle;
            },
            _ => {
                self.phase = SimPhase::Idle;
            },
        }
    }
}

impl ByteBus for SimChipBus {
    open spec fn observed(&self) -> Seq<u8> {
        self.log@
    }

    fn write(&mut self, words: &Vec<u8>) -> (r: Result<(), BusFault>) {
        if self.tick_fault() {
            return Err(BusFault);
        }
        self.log_bytes(words);
        self.process_write(words);
        Ok(())
    }

    fn read(&mut self, words: &mut Vec<u8>) -> (r: Result<(), BusFault>) {
        if self.tick_fault() {
            return Err(BusFault);
        }
        let n = words.len();
        let zeros = crate::hal::zero_vec(n);
        self.log_bytes(&zeros);
        let ghost logged = self.log@;
        let phase = self.phase;
        let mut source: Vec<u8> = Vec::new();
        match phase {
            SimPhase::RegRead(addr) => {
                source.push(self.reg_value(addr));
            },
            SimPhase::BufRead(offset) => {
                let mut i: usize = 0;
                while i < n
                    invariant
                        self.log@ == logged,
                    decreases n - i,
                {
                    let idx = ((offset as usize) + (i % 256)) % 256;
                    if idx < self.mem.len() {
                        source.push(self.mem[idx]);
                    } else {
                        source.push(0);
                    }
                    i = i + 1;
                }
            },
            _ => {},
        }
        let mut i: usize = 0;
        while i < n
            invariant
                self.log@ == logged,
                words@.len() == n,
            decreases n - i,
        {
            let value = if i < source.len() {
                source[i]
            } else {
                0
            };
            words.set(i, value);
            i = i + 1;
        }
        self.phase = SimPhase::Idle;
        Ok(())
    }

    fn transfer_in_place(&mut self, words: &mut Vec<u8>) -> (r: Result<(), BusFault>) {
        if self.tick_fault() {
            return Err(BusFault);
        }
        self.log_bytes(words);
        let ghost logged = self.log@;
        let phase = self.phase;
        let in_resp = matches!(phase, SimPhase::CmdResp);
        if words.len() == 0 {
            // An empty exchange: a command with no response bytes.
            if in_resp {
                self.phase = SimPhase::Idle;
            }
            return Ok(());
        }
        if in_resp && words.len() > 1 {
            // The response exchange of the pending command.
            let mut i: usize = 0;
            let n = words.len();
            while i < n
                invariant
                    self.log@ == logged,
                    words@.len() == n,
                decreases n - i,
            {
                let value = if i < self.pending_resp.len() {
                    self.pending_resp[i]
                } else {
                    0
                };
                words.set(i, value);
                i = i + 1;
            }
            self.phase = SimPhase::Idle;
        } else {
            // The opcode exchange: echo the status byte.
            let opcode = words[0];
            words.set(0, self.status_byte);
            self.phase = SimPhase::CmdOpen(opcode);
        }
        Ok(())
    }
}

} // verus!
