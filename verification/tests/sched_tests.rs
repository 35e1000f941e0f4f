use loadgen::report::error_rate_hundredths;
use loadgen::sched::{clamp_rate, tick_period_micros, Phase, Scheduler};

#[test]
fn rate_zero_is_clamped_to_one() {
    assert_eq!(clamp_rate(0), 1);
    assert_eq!(clamp_rate(1), 1);
    assert_eq!(clamp_rate(5), 5);
    assert_eq!(clamp_rate(10_000), 10_000);
}

#[test]
fn rate_zero_gives_the_same_period_as_rate_one() {
    assert_eq!(tick_period_micros(0), tick_period_micros(1));
    assert_eq!(tick_period_micros(0), 1_000_000);
}

#[test]
fn rate_five_ticks_every_200_milliseconds() {
    assert_eq!(tick_period_micros(5), 200_000);
}

#[test]
fn ten_ticks_spawn_exactly_ten_dispatch_units() {
    let mut sched = Scheduler::new(5);
    assert_eq!(sched.period_micros, 200_000);
    let mut spawned = 0u64;
    for _ in 0..10 {
        if sched.on_tick() {
            spawned += 1;
        }
    }
    assert_eq!(spawned, 10);
    assert_eq!(sched.ticks_issued, 10);
}

#[test]
fn interrupt_stops_new_ticks() {
    let mut sched = Scheduler::new(100);
    assert!(sched.on_tick());
    sched.on_interrupt();
    assert_eq!(sched.phase, Phase::Draining);
    assert!(!sched.on_tick());
    assert!(!sched.on_tick());
    assert_eq!(sched.ticks_issued, 1);
}

#[test]
fn repeated_interrupts_have_no_further_effect() {
    let mut sched = Scheduler::new(1);
    sched.on_interrupt();
    let phase_after_first = sched.phase;
    sched.on_interrupt();
    sched.on_interrupt();
    assert_eq!(sched.phase, phase_after_first);
    assert_eq!(sched.phase, Phase::Draining);
}

#[test]
fn shutdown_walks_the_phases_in_order() {
    let mut sched = Scheduler::new(10);
    assert_eq!(sched.phase, Phase::Running);
    // Out-of-order events do nothing.
    sched.on_reported();
    sched.on_terminated();
    assert_eq!(sched.phase, Phase::Running);
    sched.on_interrupt();
    assert_eq!(sched.phase, Phase::Draining);
    sched.on_reported();
    assert_eq!(sched.phase, Phase::Reported);
    sched.on_terminated();
    assert_eq!(sched.phase, Phase::Terminated);
    // A late interrupt does not resurrect the run.
    sched.on_interrupt();
    assert_eq!(sched.phase, Phase::Terminated);
}

#[test]
fn error_rate_is_zero_when_nothing_was_counted() {
    assert_eq!(error_rate_hundredths(0, 0), 0);
}

#[test]
fn error_rate_truncates_to_hundredths() {
    assert_eq!(error_rate_hundredths(4, 1), 2500); // 25.00%
    assert_eq!(error_rate_hundredths(3, 1), 3333); // 33.33%
    assert_eq!(error_rate_hundredths(8, 8), 10000); // 100.00%
    assert_eq!(error_rate_hundredths(1000, 1), 10); // 0.10%
}
