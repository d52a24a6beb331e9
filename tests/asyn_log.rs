use dragon::asyn_log::{
    file_name, format_line, format_record, level_enabled, level_token, normalize_dir, push_decimal,
    Level, LevelFilter, LogCfg, Logger, Timestamp, CHANNEL_CAPACITY,
};
use dragon::rotation::Rotator;

#[test]
fn test_start() {
    let mut cfg = LogCfg::new();
    cfg.dir = String::from("./tests/");
    cfg.file_max_size = 10;
    cfg.file_max_count = 3;
    let logger = Logger::new(cfg);
    assert!(logger.file_sink_enabled());
    assert_eq!(logger.cfg.dir, "./tests/");
    assert_eq!(logger.log_file(0), "./tests/dragon.log.0");
}

#[test]
fn test_roll_file() {
    let mut cfg = LogCfg::new();
    cfg.dir = String::from("./tests/");
    cfg.file_max_size = 10;
    cfg.file_max_count = 3;
    let logger = Logger::new(cfg);
    let mut rotator = logger.rotator(0);
    for _ in 0..4 {
        rotator.current_bytes = 10;
        assert!(rotator.needs_rotation());
        assert_eq!(rotator.rename_plan(), vec![1, 0]);
        rotator.rotated();
        assert_eq!(rotator.current_bytes, 0);
    }
}

#[test]
fn test_log() {
    let ts = Timestamp { year: 2024, month: 1, day: 1, hour: 0, minute: 0, second: 0, millis: 0 };
    let a = format_record(&ts, 5, Level::Info, "test_log", "hello");
    assert_eq!(a, "2024-01-01 00:00:00.000 5 [I]-[test_log] hello\n");
    let b = format_record(&ts, 5, Level::Error, "test_log", "world");
    assert_eq!(b, "2024-01-01 00:00:00.000 5 [E]-[test_log] world\n");
}

#[test]
fn formatter_exact_literal() {
    let r = format_line("2024-01-01 00:00:00.000", 42, Level::Info, "T", "hello");
    assert_eq!(r, "2024-01-01 00:00:00.000 42 [I]-[T] hello\n");
}

#[test]
fn formatter_is_deterministic() {
    let ts = Timestamp { year: 2024, month: 1, day: 1, hour: 0, minute: 0, second: 0, millis: 0 };
    let a = format_record(&ts, 9, Level::Info, "T", "hello");
    let b = format_record(&ts, 9, Level::Info, "T", "hello");
    assert_eq!(a, b);
    assert_eq!(a, "2024-01-01 00:00:00.000 9 [I]-[T] hello\n");
}

#[test]
fn timestamp_fields_are_zero_padded() {
    let ts = Timestamp { year: 5, month: 3, day: 9, hour: 4, minute: 5, second: 6, millis: 7 };
    let r = format_record(&ts, 0, Level::Trace, "", "");
    assert_eq!(r, "0005-03-09 04:05:06.007 0 [T]-[] \n");
    let leap = Timestamp { year: 2024, month: 2, day: 29, hour: 23, minute: 59, second: 59, millis: 999 };
    let r = format_record(&leap, 1, Level::Warn, "x", "y");
    assert_eq!(r, "2024-02-29 23:59:59.999 1 [W]-[x] y\n");
}

#[test]
fn level_tokens_and_filter() {
    assert_eq!(level_token(Level::Error), 'E');
    assert_eq!(level_token(Level::Warn), 'W');
    assert_eq!(level_token(Level::Info), 'I');
    assert_eq!(level_token(Level::Debug), 'D');
    assert_eq!(level_token(Level::Trace), 'T');
    assert!(level_enabled(Level::Error, LevelFilter::Info));
    assert!(level_enabled(Level::Info, LevelFilter::Info));
    assert!(!level_enabled(Level::Debug, LevelFilter::Info));
    assert!(!level_enabled(Level::Error, LevelFilter::Off));
    assert!(level_enabled(Level::Trace, LevelFilter::Trace));
    let logger = Logger::new(LogCfg::new());
    assert!(logger.enabled(Level::Warn));
    assert!(!logger.enabled(Level::Trace));
}

#[test]
fn directory_is_normalized() {
    assert_eq!(normalize_dir("./logs"), "./logs/");
    assert_eq!(normalize_dir("./logs/"), "./logs/");
    assert_eq!(normalize_dir(""), "");
    let logger = Logger::new(LogCfg::new());
    assert!(!logger.file_sink_enabled());
    assert_eq!(logger.cfg.level, LevelFilter::Info);
    assert_eq!(logger.cfg.file_max_size, 1048576);
    assert_eq!(logger.cfg.file_max_count, 3);
    assert!(!logger.cfg.enable_console);
}

#[test]
fn file_names_carry_the_index() {
    assert_eq!(file_name("./logs/", 0), "./logs/dragon.log.0");
    assert_eq!(file_name("./logs/", 2), "./logs/dragon.log.2");
    assert_eq!(file_name("", 1234), "dragon.log.1234");
}

#[test]
fn decimal_text() {
    let mut s = String::from("n=");
    push_decimal(&mut s, 0);
    assert_eq!(s, "n=0");
    let mut s = String::new();
    push_decimal(&mut s, u64::MAX);
    assert_eq!(s, "18446744073709551615");
}

#[test]
fn rotation_after_crossing_the_limit() {
    let mut r = Rotator::new(10, 3, 0);
    assert!(!r.record_write(6));
    assert_eq!(r.current_bytes, 6);
    assert!(r.record_write(6));
    assert_eq!(r.current_bytes, 12);
    assert_eq!(r.rename_plan(), vec![1, 0]);
    r.rotated();
    assert_eq!(r.current_bytes, 0);
    assert!(!r.needs_rotation());
}

#[test]
fn rotation_seeded_at_limit_is_due() {
    let r = Rotator::new(10, 3, 10);
    assert!(r.needs_rotation());
    let r = Rotator::new(10, 3, 9);
    assert!(!r.needs_rotation());
}

#[test]
fn rename_plans_by_count() {
    assert_eq!(Rotator::new(1, 1, 0).rename_plan(), Vec::<usize>::new());
    assert_eq!(Rotator::new(1, 0, 0).rename_plan(), Vec::<usize>::new());
    assert_eq!(Rotator::new(1, 2, 0).rename_plan(), vec![0]);
    assert_eq!(Rotator::new(1, 5, 0).rename_plan(), vec![3, 2, 1, 0]);
}

#[test]
fn byte_count_saturates() {
    let mut r = Rotator::new(usize::MAX, 3, usize::MAX - 1);
    assert!(r.record_write(5));
    assert_eq!(r.current_bytes, usize::MAX);
}

#[test]
fn channel_capacity_is_fixed() {
    assert_eq!(CHANNEL_CAPACITY, 1024);
}
