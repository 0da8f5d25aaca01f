//! Programming of the interval timer for a tick of about one millisecond.
use vstd::prelude::*;
use crate::pic::{PortWrite, write_of};

verus! {

pub const PIT_COMMAND: u16 = 0x43;
pub const PIT_CHANNEL_0: u16 = 0x40;
/// Channel 0, low byte then high byte, rate generator.
pub const PIT_MODE: u8 = 0x34;
/// Reload value for 1193182 Hz / 1000.
pub const PIT_RELOAD: u16 = 1193;

/// The port writes that set the timer to fire at about 1 kHz: the mode, then
/// the reload value low byte first.
pub fn init_pit() -> (writes: Vec<PortWrite>)
    ensures
        writes@ == seq![
            write_of(PIT_COMMAND, PIT_MODE),
            write_of(PIT_CHANNEL_0, (PIT_RELOAD % 256) as u8),
            write_of(PIT_CHANNEL_0, (PIT_RELOAD / 256) as u8),
        ],
{
    let low: u8 = (PIT_RELOAD % 256) as u8;
    let high: u8 = (PIT_RELOAD / 256) as u8;
    let mut writes: Vec<PortWrite> = Vec::new();
    writes.push(PortWrite { port: PIT_COMMAND, value: PIT_MODE });
    writes.push(PortWrite { port: PIT_CHANNEL_0, value: low });
    writes.push(PortWrite { port: PIT_CHANNEL_0, value: high });
    writes
}

} // verus!
