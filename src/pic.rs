//! Protocol of the two cascaded legacy interrupt controllers, expressed as the
//! exact sequence of port writes that the caller performs.
use vstd::prelude::*;

verus! {

/// First vector of the master controller, clear of the CPU's exceptions 0..=31.
pub const PIC_1_OFFSET: u8 = 32;
/// First vector of the slave controller.
pub const PIC_2_OFFSET: u8 = PIC_1_OFFSET + 8;

pub const MASTER_COMMAND: u16 = 0x20;
pub const MASTER_DATA: u16 = 0x21;
pub const SLAVE_COMMAND: u16 = 0xA0;
pub const SLAVE_DATA: u16 = 0xA1;

/// Initialization command word 1: start initialization, expect word 4.
pub const ICW1_INIT: u8 = 0x11;
/// Initialization command word 4: 8086/88 mode.
pub const ICW4_8086: u8 = 0x01;
/// Master's cascade word: the slave sits on line 2 (bit 2).
pub const CASCADE_ON_LINE_2: u8 = 4;
/// Slave's cascade identity.
pub const SLAVE_IDENTITY: u8 = 2;
/// End-of-interrupt command.
pub const END_OF_INTERRUPT: u8 = 0x20;

/// One byte written to one I/O port.
#[derive(Clone, Copy, Debug, PartialEq, Eq, Structural)]
pub struct PortWrite {
    pub port: u16,
    pub value: u8,
}

pub open spec fn write_of(port: u16, value: u8) -> PortWrite {
    PortWrite { port, value }
}

/// Acknowledgment of an interrupt on line `irq`: a line of the slave (8 and
/// up) is cleared on the slave first, and the master is always told last.
pub open spec fn eoi_sequence(irq: u8) -> Seq<PortWrite> {
    if irq >= 8 {
        seq![write_of(SLAVE_COMMAND, END_OF_INTERRUPT), write_of(MASTER_COMMAND, END_OF_INTERRUPT)]
    } else {
        seq![write_of(MASTER_COMMAND, END_OF_INTERRUPT)]
    }
}

/// The master/slave controller pair with the vector offsets it is programmed with.
pub struct ChainedPics {
    pub offset1: u8,
    pub offset2: u8,
}

impl ChainedPics {
    pub fn new(offset1: u8, offset2: u8) -> (r: ChainedPics)
        ensures
            r.offset1 == offset1,
            r.offset2 == offset2,
    {
        ChainedPics { offset1, offset2 }
    }

    /// The initialization sequence: init command to both, vector offsets,
    /// cascade wiring, then the operating mode, master before slave each time.
    pub fn initialize(&self) -> (writes: Vec<PortWrite>)
        ensures
            writes@ == seq![
                write_of(MASTER_COMMAND, ICW1_INIT),
                write_of(SLAVE_COMMAND, ICW1_INIT),
                write_of(MASTER_DATA, self.offset1),
                write_of(SLAVE_DATA, self.offset2),
                write_of(MASTER_DATA, CASCADE_ON_LINE_2),
                write_of(SLAVE_DATA, SLAVE_IDENTITY),
                write_of(MASTER_DATA, ICW4_8086),
                write_of(SLAVE_DATA, ICW4_8086),
            ],
    {
        let mut writes: Vec<PortWrite> = Vec::new();
        writes.push(PortWrite { port: MASTER_COMMAND, value: ICW1_INIT });
        writes.push(PortWrite { port: SLAVE_COMMAND, value: ICW1_INIT });
        writes.push(PortWrite { port: MASTER_DATA, value: self.offset1 });
        writes.push(PortWrite { port: SLAVE_DATA, value: self.offset2 });
        writes.push(PortWrite { port: MASTER_DATA, value: CASCADE_ON_LINE_2 });
        writes.push(PortWrite { port: SLAVE_DATA, value: SLAVE_IDENTITY });
        writes.push(PortWrite { port: MASTER_DATA, value: ICW4_8086 });
        writes.push(PortWrite { port: SLAVE_DATA, value: ICW4_8086 });
        writes
    }

    /// The acknowledgment for a handled interrupt on line `irq`.
    pub fn notify_end_of_interrupt(&self, irq: u8) -> (writes: Vec<PortWrite>)
        ensures
            writes@ == eoi_sequence(irq),
    {
        let mut writes: Vec<PortWrite> = Vec::new();
        if irq >= 8 {
            writes.push(PortWrite { port: SLAVE_COMMAND, value: END_OF_INTERRUPT });
        }
        writes.push(PortWrite { port: MASTER_COMMAND, value: END_OF_INTERRUPT });
        writes
    }
}

/// For a line of the slave the slave is acknowledged before the master, and
/// for a line of the master only the master is acknowledged, once.
pub proof fn lemma_eoi_order(irq: u8)
    ensures
        irq >= 8 ==> {
            &&& eoi_sequence(irq).len() == 2
            &&& eoi_sequence(irq)[0].port == SLAVE_COMMAND
            &&& eoi_sequence(irq)[1].port == MASTER_COMMAND
        },
        irq < 8 ==> {
            &&& eoi_sequence(irq).len() == 1
            &&& eoi_sequence(irq)[0].port == MASTER_COMMAND
        },
        forall|i: int|
            0 <= i < eoi_sequence(irq).len() ==> #[trigger] eoi_sequence(irq)[i].value
                == END_OF_INTERRUPT,
{
}

} // verus!
