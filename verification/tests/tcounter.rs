use freqmeter::TCounter;

#[test]
fn fresh_counter_reads_raw_register() {
    let c = TCounter::new();
    assert_eq!(c.clock_cycles(0, false), 0);
    assert_eq!(c.clock_cycles(5, false), 5);
    assert_eq!(c.clock_cycles(65535, false), 65535);
}

#[test]
fn tally_weights_in_at_the_counter_range() {
    let mut c = TCounter::new();
    c.overflow_tick();
    assert_eq!(c.clock_cycles(3, false), 65536 + 3);
    c.overflow_tick();
    assert_eq!(c.clock_cycles(0, false), 2 * 65536);
}

#[test]
fn pending_overflow_counts_as_one_more() {
    let c = TCounter::new();
    // The register has just wrapped to 0 but the interrupt has not run yet:
    // the sample already reads as one full period.
    assert_eq!(c.clock_cycles(0, true), 65536);
    assert_eq!(c.clock_cycles(7, true), 65536 + 7);
}

#[test]
fn samples_monotonic_across_wraparound() {
    // A sequence of samples around a register wraparound with a pending,
    // unserviced overflow: later samples never go backwards, and each equals
    // the true tick count of its instant.
    let mut c = TCounter::new();
    let s1 = c.clock_cycles(65534, false);
    let s2 = c.clock_cycles(65535, false);
    // wrapped, interrupt still pending
    let s3 = c.clock_cycles(0, true);
    let s4 = c.clock_cycles(2, true);
    // interrupt has now run
    c.overflow_tick();
    let s5 = c.clock_cycles(3, false);
    assert_eq!(s1, 65534);
    assert_eq!(s2, 65535);
    assert_eq!(s3, 65536);
    assert_eq!(s4, 65538);
    assert_eq!(s5, 65539);
    assert!(s1 <= s2);
    assert!(s2 <= s3);
    assert!(s3 <= s4);
    assert!(s4 <= s5);
}
