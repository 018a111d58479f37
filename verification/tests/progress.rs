use std::time::Duration;

use engine::progress::{
    LogLevel, LogWrite, ProgressCadence, ProgressStyle, ProgressWrite, Verbosity,
};

#[test]
fn each_verbosity_prints_what_it_promises() {
    assert!(!Verbosity::Quiet.prints(LogLevel::Info));
    assert!(!Verbosity::Quiet.prints(LogLevel::Debug));
    assert!(Verbosity::Normal.prints(LogLevel::Info));
    assert!(!Verbosity::Normal.prints(LogLevel::Debug));
    assert!(Verbosity::Verbose.prints(LogLevel::Info));
    assert!(Verbosity::Verbose.prints(LogLevel::Debug));
    assert!(!Verbosity::Quiet.draws_progress());
    assert!(Verbosity::Normal.draws_progress());
    assert!(Verbosity::Verbose.draws_progress());
    assert_eq!(Verbosity::default(), Verbosity::Normal);
}

#[test]
fn levels_and_styles_are_named() {
    assert_eq!(LogLevel::Info.as_str(), "info");
    assert_eq!(LogLevel::Debug.as_str(), "debug");
    assert_eq!(ProgressStyle::of_terminal(true), ProgressStyle::InPlace);
    assert_eq!(ProgressStyle::of_terminal(false), ProgressStyle::Plain);
}

#[test]
fn a_plain_reporter_draws_once_per_tenth_of_the_run() {
    let mut cadence = ProgressCadence::new(ProgressStyle::Plain, Verbosity::Normal);
    let mut lines = 0;
    for steps_done in 1..1000_u64 {
        let percent = u32::try_from(steps_done * 100 / 1000).unwrap();
        if cadence.observes(steps_done, 1000, Duration::ZERO, percent) {
            assert_eq!(cadence.draw(Duration::ZERO, percent, 40, false), ProgressWrite::Line);
            lines += 1;
        }
    }
    assert_eq!(lines, 9);
    assert!(!cadence.observes(1000, 1000, Duration::ZERO, 100));
    assert_eq!(cadence.draw(Duration::ZERO, 100, 40, true), ProgressWrite::Line);
}

#[test]
fn an_in_place_bar_redraws_five_times_a_second_and_pads_its_tail() {
    let mut cadence = ProgressCadence::new(ProgressStyle::InPlace, Verbosity::Normal);
    assert!(cadence.observes(1, 10, Duration::ZERO, 10));
    assert_eq!(
        cadence.draw(Duration::ZERO, 10, 30, false),
        ProgressWrite::Redraw { padding: 0, end_line: false }
    );
    assert!(!cadence.observes(2, 10, Duration::from_millis(199), 20));
    assert!(cadence.observes(2, 10, Duration::from_millis(200), 20));
    assert_eq!(
        cadence.draw(Duration::from_millis(200), 20, 25, false),
        ProgressWrite::Redraw { padding: 5, end_line: false }
    );
    assert_eq!(
        cadence.log(LogLevel::Info),
        LogWrite::Line { erase_width: 25 }
    );
    assert_eq!(cadence.log(LogLevel::Info), LogWrite::Line { erase_width: 0 });
    assert_eq!(cadence.log(LogLevel::Debug), LogWrite::Silent);
    assert_eq!(
        cadence.draw(Duration::from_millis(900), 100, 20, true),
        ProgressWrite::Redraw { padding: 0, end_line: true }
    );
}

#[test]
fn a_quiet_reporter_draws_nothing() {
    let mut cadence = ProgressCadence::new(ProgressStyle::InPlace, Verbosity::Quiet);
    assert!(!cadence.observes(1, 10, Duration::ZERO, 10));
    assert_eq!(cadence.log(LogLevel::Info), LogWrite::Silent);
}

#[test]
fn a_plain_reporter_never_blanks_a_bar() {
    let mut cadence = ProgressCadence::new(ProgressStyle::Plain, Verbosity::Verbose);
    assert!(cadence.observes(5, 10, Duration::ZERO, 50));
    assert_eq!(cadence.draw(Duration::ZERO, 50, 60, false), ProgressWrite::Line);
    assert_eq!(cadence.log(LogLevel::Debug), LogWrite::Line { erase_width: 0 });
    assert_eq!(cadence.style(), ProgressStyle::Plain);
}
