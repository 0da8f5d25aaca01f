//! Runtime core of a small bare-metal kernel: calendar clock, tick counting,
//! interrupt-controller protocol, a cooperative executor and a line shell.
use vstd::prelude::*;

pub mod datetime;
pub mod executor;
pub mod ticks;
pub mod pic;
pub mod pit;
pub mod interrupts;
pub mod text;
pub mod line;
pub mod commands;
pub mod shell;
pub mod gpio;
pub mod fat;

verus! {

} // verus!
