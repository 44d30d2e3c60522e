use tuiba_core::memory::interrupt::Interrupt;
use tuiba_core::memory::timers::Timers;

#[test]
fn counts_with_prescaler_and_reloads_on_overflow() {
    let mut t = Timers::new();
    t.set_reload(0, 0xFFF0);
    t.set_control(0, 0x80 | 1); // enable, /64
    assert_eq!(t.counter(0), 0xFFF0);
    assert_eq!(t.step(63), 0);
    assert_eq!(t.counter(0), 0xFFF0);
    t.step(1);
    assert_eq!(t.counter(0), 0xFFF1);
    // 15 more ticks overflow: 0xFFF1 + 15 -> wraps to reload
    assert_eq!(t.step(15 * 64), 0, "IRQ bit not set");
    assert_eq!(t.counter(0), 0xFFF0);
}

#[test]
fn overflow_raises_irq_and_cascades() {
    let mut t = Timers::new();
    t.set_reload(0, 0xFFFF);
    t.set_control(0, 0x80 | 0x40); // enable, IRQ, /1
    t.set_reload(1, 0xFFFE);
    t.set_control(1, 0x80 | 0x40 | 0x04); // enable, IRQ, cascade
    assert_eq!(t.step(1), 0b01);
    assert_eq!(t.counter(1), 0xFFFF, "cascaded once");
    assert_eq!(t.step(1), 0b11);
    assert_eq!(Timers::interrupt(1), Interrupt::Timer1);
    assert_eq!(t.counter(1), 0xFFFE);
}

#[test]
fn disabled_timer_does_not_count() {
    let mut t = Timers::new();
    t.set_reload(2, 10);
    t.step(1000);
    assert_eq!(t.counter(2), 0);
    t.set_control(2, 0x80);
    assert_eq!(t.counter(2), 10);
    t.step(5);
    assert_eq!(t.counter(2), 15);
    t.set_control(2, 0x00);
    t.step(5);
    assert_eq!(t.counter(2), 15);
}

#[test]
fn large_step_handles_multiple_overflows() {
    let mut t = Timers::new();
    t.set_reload(3, 0xFF00);
    t.set_control(3, 0x80 | 0x40);
    assert_eq!(t.step(0x100 * 3 + 5), 0b1000);
    assert_eq!(t.counter(3), 0xFF05);
}
