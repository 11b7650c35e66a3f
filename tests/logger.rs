use moto_rt_core::logger::{init_logging, log_record, log_user, LogInitError, MaxLevel};

#[test]
fn user_line_layout() {
    let line = log_user("init", 12345, 3, "hello");
    assert_eq!(line, b" 12:345  3: USER   init: hello\n\r".to_vec());
}

#[test]
fn user_line_pads_small_values() {
    let line = log_user("t", 5, 0, "");
    assert_eq!(line, b"  0:005  0: USER   t: \n\r".to_vec());
}

#[test]
fn user_line_keeps_wide_values() {
    let line = log_user("x", 1234567, 123, "m");
    assert_eq!(line, b"1234:567 123: USER   x: m\n\r".to_vec());
}

#[test]
fn record_line_layout() {
    let line = log_record(61002, 1, "INFO", "kernel::mm", 42, "ready");
    assert_eq!(line, b" 61:002  1: INFO   kernel::mm:42 - ready\n\r".to_vec());
}

#[test]
fn record_line_long_level() {
    let line = log_record(999, 12, "WARNING", "t", 0, "x");
    assert_eq!(line, b"  0:999 12: WARNING t:0 - x\n\r".to_vec());
}

struct Quiet;

impl log::Log for Quiet {
    fn enabled(&self, _metadata: &log::Metadata) -> bool {
        false
    }
    fn log(&self, _record: &log::Record) {}
    fn flush(&self) {}
}

static QUIET: Quiet = Quiet;

#[test]
fn logging_setup() {
    assert_eq!(init_logging(log::set_logger(&QUIET), false), Ok(MaxLevel::Info));
    assert_eq!(log::max_level(), log::LevelFilter::Info);
    assert_eq!(
        init_logging(log::set_logger(&QUIET), true),
        Err(LogInitError::AlreadyRegistered)
    );
    assert_eq!(log::max_level(), log::LevelFilter::Info);
}

#[test]
fn debug_builds_log_debug() {
    assert_eq!(init_logging(Ok(()), true), Ok(MaxLevel::Debug));
    assert_eq!(log::max_level(), log::LevelFilter::Debug);
}
