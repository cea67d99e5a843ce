//! Capability contracts for the hardware the driver runs against.
//!
//! Board bring-up supplies, per radio instance, one configured byte bus and
//! three GPIO lines (chip-select output, busy input, reset output), plus a
//! delay source. The driver makes no further assumptions about their
//! electrical configuration; everything it relies on is written down here as
//! trait contracts.

use vstd::prelude::*;

verus! {

/// Fault reported by a GPIO line.
#[derive(Clone, Copy, Debug, PartialEq, Eq, Structural)]
pub struct PinFault;

/// Fault reported by the underlying byte bus.
#[derive(Clone, Copy, Debug, PartialEq, Eq, Structural)]
pub struct BusFault;

/// A sequence of `n` zero bytes, as clocked out on the wire while the
/// interface reads.
pub open spec fn zero_bytes(n: nat) -> Seq<u8> {
    Seq::new(n, |i: int| 0u8)
}

/// A buffer of `n` zero bytes.
pub fn zero_vec(n: usize) -> (r: Vec<u8>)
    ensures
        r@ == zero_bytes(n as nat),
{
    let mut v: Vec<u8> = Vec::new();
    let mut i: usize = 0;
    while i < n
        invariant
            i <= n,
            v@ == zero_bytes(i as nat),
        decreases n - i,
    {
        v.push(0);
        i = i + 1;
        proof {
            assert(v@ =~= zero_bytes(i as nat));
        }
    }
    v
}

/// A push-pull output line, such as a chip-select or reset pin. `drives`
/// abstracts the levels the line has been driven to, oldest first, so a
/// caller's contract can pin down a pulse or that a level was driven
/// exactly once; a drive that faulted is not recorded.
pub trait DigitalOutput: Sized {
    /// The level the line is currently driven to; `true` is high.
    spec fn level(&self) -> bool;

    /// Every level the line has been driven to so far.
    spec fn drives(&self) -> Seq<bool>;

    fn set_high(&mut self) -> (r: Result<(), PinFault>)
        ensures
            r is Ok ==> final(self).level() && final(self).drives() == old(self).drives().push(
                true,
            ),
            r is Err ==> final(self).drives() == old(self).drives(),
    ;

    fn set_low(&mut self) -> (r: Result<(), PinFault>)
        ensures
            r is Ok ==> !final(self).level() && final(self).drives() == old(self).drives().push(
                false,
            ),
            r is Err ==> final(self).drives() == old(self).drives(),
    ;
}

/// An input line, such as the chip's busy output. Which level comes back is
/// decided by the environment; `samples` abstracts the levels read so far,
/// so a caller's contract can say what it saw without claiming what the
/// line will do.
pub trait DigitalInput: Sized {
    /// Every level this line has been sampled at, oldest first.
    spec fn samples(&self) -> Seq<bool>;

    fn is_high(&mut self) -> (r: Result<bool, PinFault>)
        ensures
            r matches Ok(b) ==> final(self).samples() == old(self).samples().push(b),
            r is Err ==> final(self).samples() == old(self).samples(),
    ;
}

/// A source of blocking (or, under a cooperative scheduler, suspending)
/// delays. How long the task is actually suspended is up to the scheduler,
/// so the contract promises nothing.
pub trait Delay: Sized {
    fn delay_us(&mut self, us: u64);

    fn delay_ms(&mut self, ms: u64);
}

/// A byte-oriented full-duplex bus (clock-idle-low, most-significant-bit
/// first). `observed` abstracts the traffic the interface has driven onto
/// the wire, oldest byte first; while the interface reads it drives zero
/// bytes. Bytes clocked *in* come from the chip and are decided by the
/// environment, so only their count is promised. On a fault, how much of
/// the buffer reached the wire is unknown.
pub trait ByteBus: Sized {
    /// Every byte the interface has driven onto the wire so far.
    spec fn observed(&self) -> Seq<u8>;

    fn write(&mut self, words: &Vec<u8>) -> (r: Result<(), BusFault>)
        ensures
            r is Ok ==> final(self).observed() == old(self).observed() + words@,
    ;

    fn read(&mut self, words: &mut Vec<u8>) -> (r: Result<(), BusFault>)
        ensures
            r is Ok ==> final(self).observed() == old(self).observed() + zero_bytes(old(words)@.len()),
            r is Ok ==> final(words)@.len() == old(words)@.len(),
    ;

    fn transfer_in_place(&mut self, words: &mut Vec<u8>) -> (r: Result<(), BusFault>)
        ensures
            r is Ok ==> final(self).observed() == old(self).observed() + old(words)@,
            r is Ok ==> final(words)@.len() == old(words)@.len(),
    ;
}

} // verus!
