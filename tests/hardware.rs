use minikernel::gpio::Gpio;
use minikernel::interrupts::{keyboard_interrupt, timer_interrupt, InterruptIndex};
use minikernel::pic::{ChainedPics, PortWrite, PIC_1_OFFSET, PIC_2_OFFSET};
use minikernel::pit::init_pit;
use minikernel::ticks::TickCounter;

fn w(port: u16, value: u8) -> PortWrite {
    PortWrite { port, value }
}

#[test]
fn eoi_for_slave_line_clears_slave_first() {
    let pics = ChainedPics::new(PIC_1_OFFSET, PIC_2_OFFSET);
    for irq in 8u8..=15 {
        assert_eq!(pics.notify_end_of_interrupt(irq), vec![w(0xA0, 0x20), w(0x20, 0x20)]);
    }
    assert_eq!(pics.notify_end_of_interrupt(255), vec![w(0xA0, 0x20), w(0x20, 0x20)]);
}

#[test]
fn eoi_for_master_line_only_master() {
    let pics = ChainedPics::new(PIC_1_OFFSET, PIC_2_OFFSET);
    for irq in 0u8..8 {
        assert_eq!(pics.notify_end_of_interrupt(irq), vec![w(0x20, 0x20)]);
    }
}

#[test]
fn pic_initialization_sequence() {
    let pics = ChainedPics::new(32, 40);
    assert_eq!(
        pics.initialize(),
        vec![
            w(0x20, 0x11),
            w(0xA0, 0x11),
            w(0x21, 32),
            w(0xA1, 40),
            w(0x21, 4),
            w(0xA1, 2),
            w(0x21, 0x01),
            w(0xA1, 0x01),
        ]
    );
}

#[test]
fn pit_programmed_for_one_kilohertz() {
    assert_eq!(init_pit(), vec![w(0x43, 0x34), w(0x40, 0xA9), w(0x40, 0x04)]);
}

#[test]
fn interrupt_vectors() {
    assert_eq!(InterruptIndex::Timer.as_u8(), 32);
    assert_eq!(InterruptIndex::Keyboard.as_u8(), 33);
    assert_eq!(InterruptIndex::Keyboard.as_usize(), 33);
    assert_eq!(InterruptIndex::Timer.irq(), 0);
    assert_eq!(InterruptIndex::Keyboard.irq(), 1);
}

#[test]
fn timer_interrupt_counts_and_acknowledges_once() {
    let pics = ChainedPics::new(PIC_1_OFFSET, PIC_2_OFFSET);
    let mut ticks = TickCounter::new();
    for i in 1..=1000usize {
        let r = timer_interrupt(&mut ticks, &pics);
        assert_eq!(r.advance_clock, i == 1000);
        assert_eq!(r.eoi, vec![w(0x20, 0x20)]);
    }
    assert_eq!(ticks.value(), 1000);
}

#[test]
fn keyboard_interrupt_acknowledges_master() {
    let pics = ChainedPics::new(PIC_1_OFFSET, PIC_2_OFFSET);
    assert_eq!(keyboard_interrupt(&pics), vec![w(0x20, 0x20)]);
}

fn blank_gpio() -> Gpio {
    Gpio { fsel: [0; 6], set: [0; 2], clr: [0; 2], lev: [0; 2] }
}

#[test]
fn gpio_set_mode_touches_only_the_pin_field() {
    let mut g = blank_gpio();
    g.fsel[1] = 0xFFFF_FFFF;
    g.set_mode(13, 0b001);
    assert_eq!(g.fsel[1], 0xFFFF_FFFF & !(0b111 << 9) | (0b001 << 9));
    g.set_mode(0, 0xFF);
    assert_eq!(g.fsel[0], 0b111);
}

#[test]
fn gpio_write_and_read() {
    let mut g = blank_gpio();
    g.write(35, true);
    assert_eq!(g.set, [0, 1 << 3]);
    g.write(2, false);
    assert_eq!(g.clr, [1 << 2, 0]);
    g.lev = [1 << 5, 1 << 31];
    assert!(g.read(5));
    assert!(!g.read(6));
    assert!(g.read(63));
}
