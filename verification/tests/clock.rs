use vcpu::cpu::Clock;

#[test]
fn first_poll_always_grants() {
    let mut clock = Clock::new(1000, 1024);
    assert!(clock.should_execute_next_cycle(500));
    // Immediately polling again inside the same period grants nothing.
    assert!(!clock.should_execute_next_cycle(501));
}

#[test]
fn a_thousand_cycles_in_a_simulated_second() {
    // Target 1000 cycles per second, polled every 100 microseconds over a
    // simulated one-second window.
    let mut clock = Clock::new(1000, 1024);
    let mut granted: u64 = 0;
    let mut now: u64 = 0;
    while now < 1_000_000_000 {
        if clock.should_execute_next_cycle(now) {
            granted += 1;
        }
        now += 100_000;
    }
    assert!((990..=1010).contains(&granted), "granted {granted} cycles");
}

#[test]
fn coarse_polling_still_approximates_the_target() {
    // Polling only every 7 milliseconds: owed cycles are paid out on later
    // polls, so the total still lands near 1000.
    let mut clock = Clock::new(1000, 1024);
    let mut granted: u64 = 0;
    let mut now: u64 = 0;
    while now < 1_000_000_000 {
        while clock.should_execute_next_cycle(now) {
            granted += 1;
            if granted > 2000 {
                break;
            }
        }
        now += 7_000_000;
    }
    assert!((900..=1100).contains(&granted), "granted {granted} cycles");
}

#[test]
fn backlog_beyond_the_buffer_is_dropped() {
    // After a long stall, at most the buffered number of owed cycles can
    // be paid out before the controller is caught up to the present.
    let mut clock = Clock::new(1_000_000, 4);
    assert!(clock.should_execute_next_cycle(0));
    // Ten seconds later: ten million periods owed, but only four kept.
    let now: u64 = 10_000_000_000;
    let mut paid: u64 = 0;
    while clock.should_execute_next_cycle(now) {
        paid += 1;
        assert!(paid < 100, "the backlog was not bounded");
    }
    assert!(paid <= 6, "paid {paid} cycles after the stall");
}

#[test]
fn period_is_one_second_over_the_frequency() {
    let clock = Clock::new(1000, 1024);
    assert_eq!(clock.period_nanos, 1_000_000);
    let clock = Clock::new(1, 16);
    assert_eq!(clock.period_nanos, 1_000_000_000);
}

#[test]
fn time_standing_still_grants_nothing_after_the_first_cycle() {
    let mut clock = Clock::new(1000, 1024);
    assert!(clock.should_execute_next_cycle(42));
    for _ in 0..10 {
        assert!(!clock.should_execute_next_cycle(42));
    }
    // Even a clock that runs backwards never panics, it just withholds.
    assert!(!clock.should_execute_next_cycle(0));
}
