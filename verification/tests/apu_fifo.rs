use tuiba_core::apu::fifo::Fifo;

#[test]
fn samples_come_out_in_order_and_the_last_one_sticks() {
    let mut fifo = Fifo::new();
    fifo.push(&[1, 2, 0xFF]);
    assert_eq!(fifo.sample(), 0);
    assert!(fifo.pop());
    assert_eq!(fifo.sample(), 1);
    fifo.pop();
    fifo.pop();
    assert_eq!(fifo.sample(), -1);
    assert!(fifo.is_empty());
    fifo.pop();
    assert_eq!(fifo.sample(), -1, "repeats when starved");
}

#[test]
fn refill_is_requested_at_half_full() {
    let mut fifo = Fifo::new();
    fifo.push(&[0; 32]);
    assert_eq!(fifo.len(), 32);
    for expected in 0..15 {
        assert!(!fifo.pop(), "pop {expected}: still above threshold");
    }
    assert!(fifo.pop(), "16 left");
    fifo.push(&[0; 16]);
    assert_eq!(fifo.len(), 32);
    fifo.push(&[0; 4]);
    assert_eq!(fifo.len(), 32, "overflow dropped");
}

#[test]
fn wraps_around_the_ring() {
    let mut fifo = Fifo::new();
    fifo.push(&[0; 30]);
    for _ in 0..30 {
        fifo.pop();
    }
    fifo.push(&[7, 8, 9, 10]);
    fifo.pop();
    fifo.pop();
    fifo.pop();
    fifo.pop();
    assert_eq!(fifo.sample(), 10);
    fifo.reset();
    assert_eq!(fifo.sample(), 0);
    assert!(fifo.is_empty());
}
