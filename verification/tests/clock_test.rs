use xilem_baseview::clock::{nanos_between, Clock};
use xilem_baseview::geometry::PhysicalSize;

#[test]
fn no_time_passes_backwards() {
    assert_eq!(nanos_between(10, 9), 0);
    assert_eq!(nanos_between(9, 10), 1);
}

#[test]
fn the_clock_does_not_run_backwards() {
    let clock = Clock::start();
    let first = clock.nanos();
    let second = clock.nanos();
    assert!(first <= second);
}

#[test]
fn the_clock_counts_from_its_start() {
    let outer = std::time::Instant::now();
    let clock = Clock::start();
    let inner = std::time::Instant::now();
    while inner.elapsed().as_millis() < 5 {}
    let passed = clock.nanos();
    assert!(passed >= 5_000_000);
    assert!(passed <= outer.elapsed().as_nanos());
}

#[test]
fn sizes_have_at_least_one_pixel() {
    let zero = PhysicalSize { width: 0, height: 0 };
    assert_eq!(zero.at_least_one(), PhysicalSize { width: 1, height: 1 });
    let some = PhysicalSize { width: 3, height: u32::MAX };
    assert_eq!(some.at_least_one(), some);
}
