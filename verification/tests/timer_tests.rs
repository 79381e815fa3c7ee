use chip8::timer::Timer;

#[test]
fn timer_value_decreases_at_correct_rate() {
    let mut timer = Timer::with_cpu_rate(60 * 2);
    timer.set(1);

    timer.tick();
    assert_eq!(1, timer.get());

    timer.tick();
    assert_eq!(0, timer.get());
}

#[test]
fn timer_set_restarts_the_subtick_interval() {
    let mut timer = Timer::with_cpu_rate(60 * 2);
    timer.set(2);
    timer.tick();

    timer.set(1);
    timer.tick();
    assert_eq!(1, timer.get(), "a partially elapsed interval must not carry over");
    timer.tick();
    assert_eq!(0, timer.get());
}

#[test]
fn timer_stays_at_zero() {
    let mut timer = Timer::with_cpu_rate(60);
    timer.tick();
    timer.tick();
    assert_eq!(0, timer.get());
}
