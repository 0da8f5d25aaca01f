//! The two hardware interrupts the kernel handles, and what their handlers decide.
use vstd::prelude::*;
use crate::pic::{ChainedPics, PortWrite, PIC_1_OFFSET, eoi_sequence};
use crate::ticks::{TickCounter, next_count, second_boundary};

verus! {

/// The fixed vector table: the timer on line 0 and the keyboard on line 1 of
/// the master controller.
#[derive(Clone, Copy, Debug, PartialEq, Eq, Structural)]
pub enum InterruptIndex {
    Timer,
    Keyboard,
}

impl InterruptIndex {
    /// Interrupt line on the master controller.
    pub open spec fn line(self) -> u8 {
        match self {
            InterruptIndex::Timer => 0,
            InterruptIndex::Keyboard => 1,
        }
    }

    /// Vector number: the master's offset plus the line.
    pub fn as_u8(self) -> (r: u8)
        ensures
            r == PIC_1_OFFSET + self.line(),
    {
        match self {
            InterruptIndex::Timer => PIC_1_OFFSET,
            InterruptIndex::Keyboard => PIC_1_OFFSET + 1,
        }
    }

    pub fn as_usize(self) -> (r: usize)
        ensures
            r == PIC_1_OFFSET + self.line(),
    {
        self.as_u8() as usize
    }

    pub fn irq(self) -> (r: u8)
        ensures
            r == self.line(),
    {
        match self {
            InterruptIndex::Timer => 0,
            InterruptIndex::Keyboard => 1,
        }
    }
}

/// What the timer handler does once it has counted the tick: advance the
/// clock by one second or not, then write the acknowledgment.
pub struct TimerResponse {
    pub advance_clock: bool,
    pub eoi: Vec<PortWrite>,
}

/// Timer interrupt: count the tick; every thousandth tick the clock advances;
/// the timer's line is acknowledged once.
pub fn timer_interrupt(ticks: &mut TickCounter, pics: &ChainedPics) -> (r: TimerResponse)
    ensures
        final(ticks)@ == next_count(old(ticks)@),
        r.advance_clock == second_boundary(final(ticks)@),
        r.eoi@ == eoi_sequence(InterruptIndex::Timer.line()),
{
    let advance_clock = ticks.tick();
    let eoi = pics.notify_end_of_interrupt(InterruptIndex::Timer.irq());
    TimerResponse { advance_clock, eoi }
}

/// Keyboard interrupt, after the one scancode byte has been read and
/// discarded: the keyboard's line is acknowledged once.
pub fn keyboard_interrupt(pics: &ChainedPics) -> (eoi: Vec<PortWrite>)
    ensures
        eoi@ == eoi_sequence(InterruptIndex::Keyboard.line()),
{
    pics.notify_end_of_interrupt(InterruptIndex::Keyboard.irq())
}

} // verus!
