use pomodoro::clock::{Clock, ClockState, Remaining, NANOS_PER_SEC, RELAX_SECS, WORK_SECS};
use pomodoro::countdown::push_decimal;
use pomodoro::run::{command_of, frame_text, Command, RunLoop};

const WORK: u128 = WORK_SECS * NANOS_PER_SEC;
const RELAX: u128 = RELAX_SECS * NANOS_PER_SEC;

fn fresh() -> Clock {
    Clock { time: std::time::Instant::now(), start: 0, state: ClockState::Work }
}

fn fresh_loop() -> RunLoop {
    RunLoop { clock: fresh(), running: true }
}

fn left(r: Remaining) -> i128 {
    if r.overdue {
        -(r.nanos as i128)
    } else {
        r.nanos as i128
    }
}

#[test]
fn labels_are_exact() {
    assert_eq!(ClockState::Work.label(), "Time to Work");
    assert_eq!(ClockState::Relax.label(), "Time to Relax");
}

#[test]
fn phase_lengths() {
    assert_eq!(ClockState::Work.duration_nanos(), 1_499_000_000_000);
    assert_eq!(ClockState::Relax.duration_nanos(), 899_000_000_000);
}

#[test]
fn start_is_fresh_work_phase() {
    let c = Clock::start();
    assert_eq!(c.state, ClockState::Work);
    assert_eq!(c.start, 0);
    let r = c.left();
    assert!(!r.overdue);
    assert!(r.nanos <= WORK);
    assert!(r.nanos > WORK - 60 * NANOS_PER_SEC);
}

#[test]
fn fresh_clock_counts_down_during_work() {
    let mut c = fresh();
    for e in [0u128, 1, 187_900_000_000, WORK - 1] {
        assert_eq!(left(c.left_at(e)), (WORK - e) as i128);
        c.tick_at(e);
        assert_eq!(c.state, ClockState::Work);
        assert_eq!(c.start, 0);
    }
}

#[test]
fn expired_work_moves_to_relax_on_check() {
    let mut c = fresh();
    let e = WORK + 200_000_000;
    assert_eq!(left(c.left_at(e)), -200_000_000);
    c.tick_at(e);
    assert_eq!(c.state, ClockState::Relax);
    assert_eq!(c.start, e);
    assert_eq!(left(c.left_at(e)), RELAX as i128);
    assert_eq!(left(c.left_at(e + 5 * NANOS_PER_SEC)), (RELAX - 5 * NANOS_PER_SEC) as i128);
}

#[test]
fn check_at_exact_end_advances() {
    let mut c = fresh();
    assert!(c.left_at(WORK).is_up());
    c.tick_at(WORK);
    assert_eq!(c.state, ClockState::Relax);
}

#[test]
fn switches_alternate() {
    let mut c = fresh();
    for n in 1u128..=7 {
        c.reset_at(n * NANOS_PER_SEC);
        let want = if n % 2 == 1 { ClockState::Relax } else { ClockState::Work };
        assert_eq!(c.state, want);
    }
    let mut d = fresh();
    d.reset();
    assert_eq!(d.state, ClockState::Relax);
    d.reset();
    assert_eq!(d.state, ClockState::Work);
}

#[test]
fn switch_restarts_full_phase() {
    let mut c = fresh();
    c.reset_at(10 * NANOS_PER_SEC);
    assert_eq!(c.state, ClockState::Relax);
    assert_eq!(left(c.left_at(10 * NANOS_PER_SEC)), RELAX as i128);
    c.reset_at(600 * NANOS_PER_SEC);
    assert_eq!(c.state, ClockState::Work);
    assert_eq!(left(c.left_at(600 * NANOS_PER_SEC)), WORK as i128);
}

#[test]
fn earlier_reading_keeps_start() {
    let mut c = fresh();
    c.reset_at(50);
    c.reset_at(20);
    assert_eq!(c.start, 50);
    assert_eq!(c.state, ClockState::Work);
    assert_eq!(left(c.left_at(20)), WORK as i128);
}

#[test]
fn countdown_of_187_9_seconds() {
    let r = Remaining { overdue: false, nanos: 187_900_000_000 };
    assert_eq!(r.countdown(), "3:7");
}

#[test]
fn countdown_of_0_4_seconds_then_advance() {
    let r = Remaining { overdue: false, nanos: 400_000_000 };
    assert_eq!(r.countdown(), "0:0");
    let mut l = fresh_loop();
    assert_eq!(l.countdown_at(WORK - 400_000_000), "0:0");
    assert_eq!(l.clock.state, ClockState::Work);
    assert_eq!(l.countdown_at(WORK), "14:59");
    assert_eq!(l.clock.state, ClockState::Relax);
}

#[test]
fn countdown_without_padding() {
    assert_eq!(Remaining { overdue: false, nanos: WORK }.countdown(), "24:59");
    assert_eq!(Remaining { overdue: false, nanos: 60 * NANOS_PER_SEC }.countdown(), "1:0");
    assert_eq!(Remaining { overdue: false, nanos: 0 }.countdown(), "0:0");
    assert_eq!(Remaining { overdue: false, nanos: 3_600 * NANOS_PER_SEC }.countdown(), "60:0");
}

#[test]
fn countdown_of_overdue_spans() {
    assert_eq!(Remaining { overdue: true, nanos: 187_900_000_000 }.countdown(), "-3:-7");
    assert_eq!(Remaining { overdue: true, nanos: 30 * NANOS_PER_SEC }.countdown(), "0:-30");
    assert_eq!(Remaining { overdue: true, nanos: 120 * NANOS_PER_SEC }.countdown(), "-2:0");
    assert_eq!(Remaining { overdue: true, nanos: 500_000_000 }.countdown(), "0:0");
}

#[test]
fn is_up_on_zero_and_overdue() {
    assert!(Remaining { overdue: false, nanos: 0 }.is_up());
    assert!(Remaining { overdue: true, nanos: 1 }.is_up());
    assert!(!Remaining { overdue: false, nanos: 1 }.is_up());
}

#[test]
fn decimal_digits() {
    let mut s = String::from("x");
    push_decimal(&mut s, 0);
    assert_eq!(s, "x0");
    let mut s = String::new();
    push_decimal(&mut s, 1_234_509);
    assert_eq!(s, "1234509");
    let mut s = String::new();
    push_decimal(&mut s, u128::MAX);
    assert_eq!(s, u128::MAX.to_string());
}

#[test]
fn largest_reading_is_overdue() {
    let c = fresh();
    let r = c.left_at(u128::MAX);
    assert!(r.overdue);
    assert_eq!(r.nanos, u128::MAX - WORK);
}

#[test]
fn keys_map_to_commands() {
    assert_eq!(command_of('q'), Command::Quit);
    assert_eq!(command_of(' '), Command::Toggle);
    assert_eq!(command_of('Q'), Command::Ignore);
    assert_eq!(command_of('x'), Command::Ignore);
}

#[test]
fn space_right_after_start_gives_relax() {
    let mut l = RunLoop::new();
    l.on_key(' ');
    assert!(l.running);
    assert_eq!(l.clock.state, ClockState::Relax);
    let r = l.clock.left();
    assert!(!r.overdue);
    assert!(r.nanos <= RELAX);
    assert!(r.nanos > RELAX - 60 * NANOS_PER_SEC);
}

#[test]
fn space_at_a_reading_restarts_relax() {
    let mut l = fresh_loop();
    l.on_key_at(' ', 3 * NANOS_PER_SEC);
    assert_eq!(l.clock.state, ClockState::Relax);
    assert_eq!(left(l.clock.left_at(3 * NANOS_PER_SEC)), RELAX as i128);
}

#[test]
fn q_stops_the_loop() {
    let mut l = fresh_loop();
    l.on_key_at('q', 5);
    assert!(!l.running);
    assert_eq!(l.clock.state, ClockState::Work);
    assert_eq!(l.clock.start, 0);
    let mut m = RunLoop::new();
    m.on_key('q');
    assert!(!m.running);
}

#[test]
fn other_keys_change_nothing() {
    let mut l = fresh_loop();
    l.on_key_at('a', 5);
    assert!(l.running);
    assert_eq!(l.clock.state, ClockState::Work);
    assert_eq!(l.clock.start, 0);
}

#[test]
fn frame_text_joins_label_and_drawing() {
    assert_eq!(frame_text("Time to Work", "ab\ncd"), "Time to Work\nab\ncd");
    assert_eq!(frame_text("", ""), "\n");
}

#[test]
fn frame_draws_the_countdown_in_block_font() {
    let mut l = fresh_loop();
    let f = l.frame_at(WORK - 187_900_000_000);
    assert!(f.starts_with("Time to Work\n"));
    let drawing = &f["Time to Work\n".len()..];
    assert_ne!(drawing, "24:59");
    assert!(drawing.contains('█'));
    assert!(drawing.lines().count() > 1);
}

#[test]
fn frame_after_expiry_shows_relax() {
    let mut l = fresh_loop();
    let f = l.frame_at(WORK + 1);
    assert_eq!(l.clock.state, ClockState::Relax);
    assert!(f.starts_with("Time to Relax\n"));
    let mut m = RunLoop::new();
    let g = m.frame();
    assert!(g.starts_with("Time to Work\n"));
}
