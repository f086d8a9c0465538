use mw_logger::{Level, LevelFilter, LogLevel, UnsupportedLevel};

const LEVELS: [Level; 6] =
    [Level::Fatal, Level::Error, Level::Warn, Level::Info, Level::Debug, Level::Trace];

const LOG_LEVELS: [LogLevel; 7] = [
    LogLevel::Off,
    LogLevel::Fatal,
    LogLevel::Error,
    LogLevel::Warn,
    LogLevel::Info,
    LogLevel::Debug,
    LogLevel::Verbose,
];

#[test]
fn every_severity_survives_the_round_trip() {
    for level in LEVELS {
        assert_eq!(Level::from(LogLevel::from(level)), level);
        assert_eq!(Level::from_code(LogLevel::from(level).code()), Ok(level));
    }
}

#[test]
fn every_engine_level_but_off_survives_the_round_trip() {
    for log_level in LOG_LEVELS {
        if log_level != LogLevel::Off {
            assert_eq!(LogLevel::from(Level::from(log_level)), log_level);
        }
    }
}

#[test]
fn codes_are_the_numbers_zero_to_six() {
    assert_eq!(LogLevel::Off.code(), 0);
    assert_eq!(LogLevel::Fatal.code(), 1);
    assert_eq!(LogLevel::Error.code(), 2);
    assert_eq!(LogLevel::Warn.code(), 3);
    assert_eq!(LogLevel::Info.code(), 4);
    assert_eq!(LogLevel::Debug.code(), 5);
    assert_eq!(LogLevel::Verbose.code(), 6);
}

#[test]
fn a_code_decodes_to_the_level_it_encodes() {
    for log_level in LOG_LEVELS {
        assert_eq!(LogLevel::from_code(log_level.code()), Some(log_level));
    }
    assert_eq!(LogLevel::from_code(7), None);
    assert_eq!(LogLevel::from_code(255), None);
}

#[test]
fn severities_map_to_engine_levels_by_name() {
    assert_eq!(LogLevel::from(Level::Fatal), LogLevel::Fatal);
    assert_eq!(LogLevel::from(Level::Error), LogLevel::Error);
    assert_eq!(LogLevel::from(Level::Warn), LogLevel::Warn);
    assert_eq!(LogLevel::from(Level::Info), LogLevel::Info);
    assert_eq!(LogLevel::from(Level::Debug), LogLevel::Debug);
    assert_eq!(LogLevel::from(Level::Trace), LogLevel::Verbose);
}

#[test]
fn the_disabled_code_is_no_severity_of_a_record() {
    assert_eq!(Level::from_code(0), Err(UnsupportedLevel::Disabled));
}

#[test]
fn an_unknown_code_is_reported_with_its_byte() {
    assert_eq!(Level::from_code(7), Err(UnsupportedLevel::Unknown(7)));
    assert_eq!(Level::from_code(200), Err(UnsupportedLevel::Unknown(200)));
}

#[test]
fn record_codes_decode_to_their_severities() {
    assert_eq!(Level::from_code(1), Ok(Level::Fatal));
    assert_eq!(Level::from_code(2), Ok(Level::Error));
    assert_eq!(Level::from_code(3), Ok(Level::Warn));
    assert_eq!(Level::from_code(4), Ok(Level::Info));
    assert_eq!(Level::from_code(5), Ok(Level::Debug));
    assert_eq!(Level::from_code(6), Ok(Level::Trace));
}

#[test]
fn engine_levels_map_to_filters_by_name() {
    assert_eq!(LevelFilter::from(LogLevel::Off), LevelFilter::Off);
    assert_eq!(LevelFilter::from(LogLevel::Fatal), LevelFilter::Fatal);
    assert_eq!(LevelFilter::from(LogLevel::Error), LevelFilter::Error);
    assert_eq!(LevelFilter::from(LogLevel::Warn), LevelFilter::Warn);
    assert_eq!(LevelFilter::from(LogLevel::Info), LevelFilter::Info);
    assert_eq!(LevelFilter::from(LogLevel::Debug), LevelFilter::Debug);
    assert_eq!(LevelFilter::from(LogLevel::Verbose), LevelFilter::Trace);
}

#[test]
fn levels_are_ordered_from_off_to_verbose() {
    for pair in LOG_LEVELS.windows(2) {
        assert!(pair[0] < pair[1]);
        assert!(pair[1] > pair[0]);
        assert!(pair[1] >= pair[0]);
        assert!(!(pair[0] >= pair[1]));
    }
    assert!(LogLevel::Info >= LogLevel::Info);
    assert!(LogLevel::Info <= LogLevel::Info);
}

#[test]
fn the_order_of_levels_is_the_order_of_their_codes() {
    for a in LOG_LEVELS {
        for b in LOG_LEVELS {
            assert_eq!(a < b, a.code() < b.code());
            assert_eq!(a >= b, a.code() >= b.code());
            assert_eq!(a.partial_cmp(&b), a.code().partial_cmp(&b.code()));
            assert_eq!(a.cmp(&b), a.code().cmp(&b.code()));
        }
    }
}
