use blinky::clock::delay;
use blinky::clock::Clock;
use blinky::device::{Config, Device, Event, InitFault, LogLine};
use blinky::pin::{Level, OutputLine};

fn max_clock() -> Config {
    Config { cpu_clock_hz: 240_000_000 }
}

#[test]
fn line_starts_low() {
    let line = OutputLine::new();
    assert_eq!(line.level, Level::Low);
    assert!(!line.is_high());
}

#[test]
fn line_holds_last_level_set() {
    let mut line = OutputLine::new();
    line.set_high();
    assert_eq!(line.level, Level::High);
    assert!(line.is_high());
    line.set_low();
    assert_eq!(line.level, Level::Low);
    assert!(!line.is_high());
}

#[test]
fn clock_starts_at_zero_and_only_advances() {
    let mut c = Clock::new();
    assert_eq!(c.now(), 0);
    c.tick(250);
    assert_eq!(c.now(), 250);
    c.tick(0);
    assert_eq!(c.now(), 250);
}

#[test]
fn delay_with_unit_tick_is_exact() {
    let mut c = Clock::new();
    delay(&mut c, 1000, 1);
    assert_eq!(c.now(), 1000);
}

#[test]
fn delay_never_undershoots_with_coarse_tick() {
    let mut c = Clock::new();
    delay(&mut c, 1000, 7);
    assert!(c.now() >= 1000);
    assert!(c.now() < 1007);
    assert_eq!(c.now(), 1001);
}

#[test]
fn delay_of_zero_returns_at_once() {
    let mut c = Clock::new();
    c.tick(42);
    delay(&mut c, 0, 1);
    assert_eq!(c.now(), 42);
}

#[test]
fn init_when_hardware_ready_gives_fresh_low_device() {
    let d = Device::init(max_clock(), true).unwrap();
    assert_eq!(d.line.level, Level::Low);
    assert!(d.events.is_empty());
    assert!(!d.halted);
    assert_eq!(d.clock.now_ms, 0);
    assert_eq!(d.cfg.cpu_clock_hz, 240_000_000);
}

#[test]
fn init_when_hardware_fails_returns_the_fault() {
    let r = Device::init(max_clock(), false);
    assert!(matches!(r, Err(InitFault)));
}

#[test]
fn run_when_hardware_fails_returns_the_fault() {
    let r = Device::run(max_clock(), false, 3, 1000);
    assert!(r.is_err());
}

#[test]
fn greeting_comes_before_any_transition_and_line_is_still_low() {
    let mut d = Device::init(max_clock(), true).unwrap();
    d.start();
    assert_eq!(d.events, vec![Event { at_ms: 0, log: LogLine::Hello }]);
    assert_eq!(d.line.level, Level::Low);
}

#[test]
fn log_texts_are_the_exact_literals() {
    assert_eq!(LogLine::Hello.text(), "Hello World");
    assert_eq!(LogLine::High.text(), "LED HIGH");
    assert_eq!(LogLine::Low.text(), "LED LOW");
}

#[test]
fn one_iteration_logs_high_then_low_on_time() {
    let mut d = Device::init(max_clock(), true).unwrap();
    d.start();
    d.blink_iteration(1000);
    assert_eq!(
        d.events,
        vec![
            Event { at_ms: 0, log: LogLine::Hello },
            Event { at_ms: 0, log: LogLine::High },
            Event { at_ms: 1000, log: LogLine::Low },
        ]
    );
    assert_eq!(d.line.level, Level::Low);
    assert_eq!(d.clock.now_ms, 2000);
}

#[test]
fn led_lines_alternate_strictly() {
    let d = Device::run(max_clock(), true, 5, 1000).unwrap();
    assert_eq!(d.events.len(), 11);
    let mut j: usize = 1;
    while j < d.events.len() {
        let want = if j % 2 == 1 { LogLine::High } else { LogLine::Low };
        assert_eq!(d.events[j].log, want);
        if j + 1 < d.events.len() {
            assert_ne!(d.events[j].log, d.events[j + 1].log);
        }
        j += 1;
    }
}

#[test]
fn each_high_line_is_followed_by_a_low_line_one_interval_later() {
    let d = Device::run(max_clock(), true, 4, 1000).unwrap();
    let mut k: usize = 0;
    while k < 4 {
        let high = d.events[2 * k + 1];
        let low = d.events[2 * k + 2];
        assert_eq!(high.log, LogLine::High);
        assert_eq!(low.log, LogLine::Low);
        assert_eq!(low.at_ms - high.at_ms, 1000);
        assert!(low.at_ms - high.at_ms >= 1000);
        k += 1;
    }
}

#[test]
fn log_sequence_is_exactly_hello_then_high_low_pairs() {
    let d = Device::run(max_clock(), true, 2, 1000).unwrap();
    let texts: Vec<&str> = d.events.iter().map(|e| e.log.text()).collect();
    assert_eq!(texts, vec!["Hello World", "LED HIGH", "LED LOW", "LED HIGH", "LED LOW"]);
    let times: Vec<u64> = d.events.iter().map(|e| e.at_ms).collect();
    assert_eq!(times, vec![0, 0, 1000, 2000, 3000]);
}

#[test]
fn five_seconds_of_output_match_the_expected_timeline() {
    let d = Device::run(max_clock(), true, 3, 1000).unwrap();
    let first_five: Vec<&str> = d.events.iter().take(5).map(|e| e.log.text()).collect();
    assert_eq!(first_five, vec!["Hello World", "LED HIGH", "LED LOW", "LED HIGH", "LED LOW"]);
    assert_eq!(d.level_at(0), Level::High);
    assert_eq!(d.level_at(500), Level::High);
    assert_eq!(d.level_at(999), Level::High);
    assert_eq!(d.level_at(1000), Level::Low);
    assert_eq!(d.level_at(1500), Level::Low);
    assert_eq!(d.level_at(2500), Level::High);
    assert_eq!(d.level_at(3500), Level::Low);
    assert_eq!(d.level_at(4500), Level::High);
}

#[test]
fn level_is_low_before_any_transition() {
    let mut d = Device::init(max_clock(), true).unwrap();
    assert_eq!(d.level_at(0), Level::Low);
    assert_eq!(d.level_at(10_000), Level::Low);
    d.start();
    assert_eq!(d.level_at(0), Level::Low);
}

#[test]
fn a_fault_freezes_pin_and_log_forever() {
    let mut d = Device::run(max_clock(), true, 2, 1000).unwrap();
    let events_before = d.events.clone();
    let level_before = d.line.level;
    let time_before = d.clock.now_ms;
    d.panic();
    assert!(d.halted);
    d.blink_iteration(1000);
    d.start();
    d.blink_iteration(1000);
    assert_eq!(d.events, events_before);
    assert_eq!(d.line.level, level_before);
    assert_eq!(d.clock.now_ms, time_before);
    assert!(d.halted);
}

#[test]
fn run_with_no_iterations_only_greets() {
    let d = Device::run(max_clock(), true, 0, 1000).unwrap();
    assert_eq!(d.events, vec![Event { at_ms: 0, log: LogLine::Hello }]);
    assert_eq!(d.line.level, Level::Low);
    assert_eq!(d.clock.now_ms, 0);
}
