use opengl3_hooks::clock::FrameClock;

#[test]
fn clock_counts_from_its_first_reading() {
    let mut clock = FrameClock::new();
    assert!(clock.is_unset());
    clock.start(100);
    assert!(!clock.is_unset());
    assert_eq!(clock.tick(130), 30);
    assert_eq!(clock.tick(130), 0);
    assert_eq!(clock.tick(200), 70);
}

#[test]
fn clock_is_started_once() {
    let mut clock = FrameClock::new();
    clock.start(100);
    clock.start(120);
    assert_eq!(clock.tick(150), 50);
}

#[test]
fn clock_does_not_count_backwards() {
    let mut clock = FrameClock::new();
    clock.start(u64::MAX);
    assert_eq!(clock.tick(5), 0);
    assert_eq!(clock.tick(u64::MAX), u64::MAX - 5);
}

#[test]
fn times_add_up() {
    let mut clock = FrameClock::new();
    clock.start(1_000);
    let readings = [1_000u64, 17_666, 17_667, 34_333, 50_000];
    let total: u64 = readings.iter().map(|now| clock.tick(*now)).sum();
    assert_eq!(total, 49_000);
}
