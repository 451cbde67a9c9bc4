use chipsand::timer::Timer;
use chipsand::Interrupt;

#[test]
fn test_timer() {
    let mut timer = Timer::new();
    timer.write_word(0xFF07, 0b101);
    assert_eq!(timer.timer_enabled, true);
    assert_eq!(timer.read_word(0xFF07), 0b11111101);
    timer.write_word(0xFF07, 0b0);
    assert_eq!(timer.timer_enabled, false);
    timer.write_word(0xFF07, 0b111);
}

#[test]
fn slowest_clock_counts_once_per_1024_clocks() {
    let mut timer = Timer::new();
    timer.write_word(0xFF07, 0b100);
    timer.write_word(0xFF04, 0);
    for _ in 0..255 {
        timer.tick();
        assert_eq!(timer.tima, 0);
    }
    timer.tick();
    assert_eq!(timer.tima, 1);
    assert_eq!(timer.read_word(0xFF04), 4);
}

#[test]
fn fastest_clock_counts_every_four_cycles() {
    let mut timer = Timer::new();
    timer.write_word(0xFF04, 0);
    timer.write_word(0xFF07, 0b101);
    for _ in 0..16 {
        timer.tick();
    }
    assert_eq!(timer.tima, 4);
}

#[test]
fn div_write_counts_an_edge_when_input_was_high() {
    let mut timer = Timer::new();
    timer.write_word(0xFF04, 0);
    timer.write_word(0xFF07, 0b100);
    for _ in 0..128 {
        timer.tick();
    }
    assert!(timer.delayed_edge);
    assert_eq!(timer.tima, 0);
    timer.write_word(0xFF04, 0x55);
    assert_eq!(timer.read_word(0xFF04), 0);
    timer.tick();
    assert_eq!(timer.tima, 1);
}

#[test]
fn div_write_with_input_low_counts_nothing() {
    let mut timer = Timer::new();
    timer.write_word(0xFF04, 0);
    timer.write_word(0xFF07, 0b100);
    for _ in 0..10 {
        timer.tick();
    }
    timer.write_word(0xFF04, 0);
    timer.tick();
    assert_eq!(timer.tima, 0);
}

#[test]
fn overflow_reloads_from_tma_one_cycle_later() {
    let mut timer = Timer::new();
    timer.write_word(0xFF04, 0);
    timer.write_word(0xFF06, 0x80);
    timer.write_word(0xFF05, 0xFF);
    timer.write_word(0xFF07, 0b101);
    for _ in 0..3 {
        assert_eq!(timer.tick(), Interrupt::NoInterrupt);
    }
    assert_eq!(timer.tick(), Interrupt::NoInterrupt);
    assert_eq!(timer.tima, 0);
    assert!(timer.tima_reload);
    assert_eq!(timer.tick(), Interrupt::TIMER);
    assert_eq!(timer.tima, 0x80);
}

#[test]
fn tima_write_cancels_reload() {
    let mut timer = Timer::new();
    timer.write_word(0xFF04, 0);
    timer.write_word(0xFF06, 0x80);
    timer.write_word(0xFF05, 0xFF);
    timer.write_word(0xFF07, 0b101);
    for _ in 0..4 {
        timer.tick();
    }
    assert!(timer.tima_reload);
    timer.write_word(0xFF05, 0x10);
    assert_eq!(timer.tick(), Interrupt::NoInterrupt);
    assert_eq!(timer.tima, 0x10);
}

#[test]
fn control_register_reads_with_high_bits_set() {
    let mut timer = Timer::new();
    assert_eq!(timer.read_word(0xFF07), 0xF8);
    timer.write_word(0xFF07, 0b110);
    assert_eq!(timer.read_word(0xFF07), 0xFE);
    timer.write_word(0xFF06, 0x42);
    assert_eq!(timer.read_word(0xFF06), 0x42);
}
