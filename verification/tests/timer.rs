use generic_timer::convert::micros_to_ticks;
use generic_timer::convert::ticks_to_micros;
use generic_timer::convert::ticks_to_micros_checked;
use generic_timer::interrupt::timer_pending;
use generic_timer::interrupt::CoreInterrupt;
use generic_timer::timer::BasicTimer;
use generic_timer::timer::GenericTimer;

/// The counter frequency of the target board, in Hz.
const FREQ: u64 = 62_500_000;

const ALL_SOURCES: [CoreInterrupt; 12] = [
    CoreInterrupt::CNTPSIRQ,
    CoreInterrupt::CNTPNSIRQ,
    CoreInterrupt::CNTHPIRQ,
    CoreInterrupt::CNTVIRQ,
    CoreInterrupt::Mailbox0,
    CoreInterrupt::Mailbox1,
    CoreInterrupt::Mailbox2,
    CoreInterrupt::Mailbox3,
    CoreInterrupt::Gpu,
    CoreInterrupt::Pmu,
    CoreInterrupt::AxiOutstanding,
    CoreInterrupt::LocalTimer,
];

#[test]
fn interrupt_bits_are_pinned() {
    let expected: [u32; 12] = [0, 1, 2, 3, 4, 5, 6, 7, 8, 9, 10, 11];
    for (i, src) in ALL_SOURCES.iter().enumerate() {
        assert_eq!(src.bit(), expected[i]);
        assert_eq!(src.mask(), 1u32 << expected[i]);
    }
}

#[test]
fn tick_in_writes_the_formula_value() {
    let cases: [(u32, u32); 5] = [
        (0, 0),
        (1, 62),
        (1000, 62_500),
        (1_000_000, 62_500_000),
        (u32::MAX, 2_147_483_585),
    ];
    for (us, expected) in cases {
        let mut t = GenericTimer::new(FREQ);
        t.tick_in(us);
        assert_eq!(t.comparator(), expected);
    }
}

#[test]
fn tick_in_round_trip_matches_formula() {
    let mut t = GenericTimer::new(FREQ);
    for us in [0u32, 1, 2, 16, 1000, 65_536, 1_000_000, 100_000_000, u32::MAX] {
        t.tick_in(us);
        let formula = ((FREQ as u128 * us as u128) / 1_000_000) as u32;
        assert_eq!(t.comparator(), formula);
    }
}

#[test]
fn tick_in_truncates_to_comparator_width() {
    // 5 GHz for one second asks for 5_000_000_000 ticks, which does not fit
    // the 32-bit comparator; the register keeps the low 32 bits.
    let mut t = GenericTimer::new(5_000_000_000);
    t.tick_in(1_000_000);
    assert_eq!(t.comparator(), 705_032_704);
}

#[test]
fn read_literal_cases() {
    let mut t = GenericTimer::new(FREQ);
    assert_eq!(t.read(), 0);
    t.set_counter(62_500_000);
    assert_eq!(t.read(), 1_000_000);
    t.set_counter(1);
    assert_eq!(t.read(), 0);
}

#[test]
fn read_is_monotonic_in_the_counter() {
    let mut t = GenericTimer::new(FREQ);
    let mut last: u64 = 0;
    for count in [0u64, 1, 2, 62, 63, 1000, 62_499_999, 62_500_000, 1 << 40, 1 << 56] {
        t.set_counter(count);
        let now = t.read();
        assert!(now >= last);
        last = now;
    }
}

#[test]
fn read_twice_without_counter_change_is_equal() {
    let mut t = GenericTimer::new(FREQ);
    t.set_counter(123_456_789);
    assert_eq!(t.read(), t.read());
}

#[test]
fn is_pending_does_not_mutate() {
    let mut t = GenericTimer::new(FREQ);
    t.set_irq_source(0, 0xABC);
    let first = t.is_pending();
    let second = t.is_pending();
    assert_eq!(first, second);
    assert_eq!(t.irq_source(0), 0xABC);
}

#[test]
fn init_enables_exactly_the_nonsecure_physical_timer() {
    let mut t = GenericTimer::new(FREQ);
    t.set_irq_control(1, 0xDEAD);
    t.set_irq_control(2, 0xBEEF);
    t.set_irq_control(3, 0xF00D);
    t.set_irq_source(0, 0x5);
    t.tick_in(10);
    let comparator_before = t.comparator();
    t.init();
    assert_eq!(t.irq_control(0), 0b10);
    assert_eq!(t.control(), 1);
    // Nothing but core 0's enable mask and the control register moved.
    assert_eq!(t.irq_control(1), 0xDEAD);
    assert_eq!(t.irq_control(2), 0xBEEF);
    assert_eq!(t.irq_control(3), 0xF00D);
    assert_eq!(t.irq_source(0), 0x5);
    assert_eq!(t.comparator(), comparator_before);
}

#[test]
fn init_from_reset_keeps_other_bits_clear() {
    let mut t = GenericTimer::new(FREQ);
    t.init();
    let mask = t.irq_control(0);
    assert_eq!(mask, CoreInterrupt::CNTPNSIRQ.mask());
    assert_eq!(mask & !CoreInterrupt::CNTPNSIRQ.mask(), 0);
}

#[test]
fn pending_reads_only_the_timer_bit() {
    for src in ALL_SOURCES {
        let mut t = GenericTimer::new(FREQ);
        t.set_irq_source(0, src.mask());
        let expect = src.bit() == CoreInterrupt::CNTPNSIRQ.bit();
        assert_eq!(t.is_pending(), expect);
    }
    let mut t = GenericTimer::new(FREQ);
    t.set_irq_source(0, 0xFFF);
    assert!(t.is_pending());
    t.set_irq_source(0, 0xFFD);
    assert!(!t.is_pending());
    assert!(timer_pending(0x2));
    assert!(!timer_pending(0x0));
}

#[test]
fn conversion_checked_rejects_oversized_readings() {
    assert_eq!(ticks_to_micros_checked(u64::MAX, 1), None);
    assert_eq!(ticks_to_micros_checked(62_500_000, FREQ), Some(1_000_000));
    assert_eq!(ticks_to_micros(62_500_000, FREQ), 1_000_000);
}

#[test]
fn conversion_with_zero_frequency_arms_at_zero() {
    assert_eq!(micros_to_ticks(1000, 0), 0);
}

#[test]
fn accessors_reflect_reset_state() {
    let t = GenericTimer::new(FREQ);
    assert_eq!(t.frequency(), FREQ);
    assert_eq!(t.counter(), 0);
    assert_eq!(t.control(), 0);
    assert_eq!(t.comparator(), 0);
    for core in 0..4 {
        assert_eq!(t.irq_control(core), 0);
        assert_eq!(t.irq_source(core), 0);
    }
}
