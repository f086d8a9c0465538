use mw_logger::{
    Argument, Context, DefaultLogger, DisplayHint, EngineCall, FormatSpec, Level, LevelFilter,
    LogLevel, LogOutcome, Metadata, MwLogger, MwLoggerBuilder, NonAscii, Record, SetLoggerError,
    Value,
};

const LEVELS: [Level; 6] =
    [Level::Fatal, Level::Error, Level::Warn, Level::Info, Level::Debug, Level::Trace];

const LOG_LEVELS: [LogLevel; 7] = [
    LogLevel::Off,
    LogLevel::Fatal,
    LogLevel::Error,
    LogLevel::Warn,
    LogLevel::Info,
    LogLevel::Debug,
    LogLevel::Verbose,
];

fn record(context: &str, level: Level) -> Record {
    Record::new(Metadata::new(context, level), "app::engine", "src/engine.rs", 42)
}

fn text(s: &str) -> Argument {
    Argument::new(Value::Str(s.to_string()))
}

fn bytes(s: &str) -> EngineCall {
    EngineCall::Str(s.as_bytes().to_vec())
}

fn begin(context: &str, level: LogLevel) -> EngineCall {
    EngineCall::Start { context: Context::from(context), level }
}

fn count_stops(calls: &[EngineCall]) -> usize {
    calls.iter().filter(|call| matches!(call, EngineCall::Stop)).count()
}

fn count_starts(calls: &[EngineCall]) -> usize {
    calls.iter().filter(|call| matches!(call, EngineCall::Start { .. })).count()
}

fn numbers() -> Record {
    record("DFLT", Level::Error)
        .arg(Argument::new(Value::F32(123.4f32.to_bits())))
        .arg(Argument::new(Value::I32(111)))
        .arg(Argument::new(Value::Bool(true)))
        .arg(Argument::with_spec(
            Value::I8(-63),
            FormatSpec::new().display_hint(DisplayHint::LowerHex),
        ))
}

#[test]
fn a_debug_statement_under_an_info_threshold_makes_no_call() {
    let logger = MwLoggerBuilder::new().build();
    let statement = record("DFLT", Level::Debug).arg(text("hidden"));
    for acquired in [true, false] {
        let outcome = logger.log(&statement, LogLevel::Info, acquired);
        assert_eq!(outcome, LogOutcome { calls: Vec::new(), failure: None });
        assert_eq!(count_starts(&outcome.calls), 0);
    }
    assert!(!logger.enabled(&statement.metadata, LogLevel::Info));
}

#[test]
fn an_error_statement_under_an_info_threshold_is_one_record_of_four_values() {
    let logger = MwLoggerBuilder::new().build();
    let statement = numbers();
    assert!(logger.enabled(&statement.metadata, LogLevel::Info));
    let outcome = logger.log(&statement, LogLevel::Info, true);
    assert_eq!(outcome.failure, None);
    assert_eq!(
        outcome.calls,
        vec![
            begin("DFLT", LogLevel::Error),
            EngineCall::F32(123.4f32.to_bits()),
            EngineCall::I32(111),
            EngineCall::Bool(true),
            EngineCall::Hex8(0xc1),
            EngineCall::Stop,
        ]
    );
    assert_eq!(count_starts(&outcome.calls), 1);
    assert_eq!(count_stops(&outcome.calls), 1);
    assert_eq!(outcome.calls.iter().filter(|call| call.is_emission()).count(), 4);
}

#[test]
fn with_the_file_alone_the_prefix_is_the_file_in_brackets() {
    let logger = MwLoggerBuilder::new()
        .show_module(false)
        .show_file(true)
        .show_line(false)
        .build();
    let statement = record("DFLT", Level::Error).arg(text("message ")).arg(Argument::new(
        Value::U16(7),
    ));
    let outcome = logger.log(&statement, LogLevel::Verbose, true);
    assert_eq!(outcome.failure, None);
    assert_eq!(
        outcome.calls,
        vec![
            begin("DFLT", LogLevel::Error),
            bytes("["),
            bytes("src/engine.rs"),
            bytes("]"),
            bytes("message "),
            EngineCall::U16(7),
            EngineCall::Stop,
        ]
    );
}

#[test]
fn without_a_flag_there_is_no_prefix() {
    let logger = MwLoggerBuilder::new().build();
    let outcome = logger.log(&record("DFLT", Level::Error).arg(text("m")), LogLevel::Error, true);
    assert_eq!(
        outcome.calls,
        vec![begin("DFLT", LogLevel::Error), bytes("m"), EngineCall::Stop]
    );
}

#[test]
fn the_prefix_holds_what_is_shown_in_order_with_colons_between() {
    let expect = |module: bool, file: bool, line: bool, prefix: Vec<EngineCall>| {
        let logger = MwLoggerBuilder::new()
            .show_module(module)
            .show_file(file)
            .show_line(line)
            .build();
        let outcome = logger.log(&record("DFLT", Level::Info), LogLevel::Info, true);
        let mut calls = vec![begin("DFLT", LogLevel::Info)];
        calls.extend(prefix);
        calls.push(EngineCall::Stop);
        assert_eq!(outcome, LogOutcome { calls, failure: None });
    };
    expect(true, false, false, vec![bytes("["), bytes("app::engine"), bytes("]")]);
    expect(false, false, true, vec![bytes("["), EngineCall::U32(42), bytes("]")]);
    expect(
        true,
        true,
        false,
        vec![bytes("["), bytes("app::engine"), bytes(":"), bytes("src/engine.rs"), bytes("]")],
    );
    expect(
        true,
        false,
        true,
        vec![bytes("["), bytes("app::engine"), bytes(":"), EngineCall::U32(42), bytes("]")],
    );
    expect(
        false,
        true,
        true,
        vec![bytes("["), bytes("src/engine.rs"), bytes(":"), EngineCall::U32(42), bytes("]")],
    );
    expect(
        true,
        true,
        true,
        vec![
            bytes("["),
            bytes("app::engine"),
            bytes(":"),
            bytes("src/engine.rs"),
            bytes(":"),
            EngineCall::U32(42),
            bytes("]"),
        ],
    );
}

#[test]
fn a_statement_passes_exactly_when_the_threshold_is_at_least_its_level() {
    let logger = MwLoggerBuilder::new().build();
    for threshold in LOG_LEVELS {
        for level in LEVELS {
            let statement = record("DFLT", level);
            let passes = threshold.code() >= LogLevel::from(level).code();
            assert_eq!(logger.enabled(&statement.metadata, threshold), passes);
            let outcome = logger.log(&statement, threshold, true);
            assert_eq!(!outcome.calls.is_empty(), passes);
        }
    }
    assert!(logger.enabled(&record("DFLT", Level::Info).metadata, LogLevel::Info));
    assert!(!logger.enabled(&record("DFLT", Level::Fatal).metadata, LogLevel::Off));
}

#[test]
fn a_declined_record_is_the_request_to_start_and_nothing_else() {
    let logger = MwLoggerBuilder::new().show_module(true).show_line(true).build();
    let outcome = logger.log(&numbers(), LogLevel::Info, false);
    assert_eq!(
        outcome,
        LogOutcome { calls: vec![begin("DFLT", LogLevel::Error)], failure: None }
    );
}

#[test]
fn the_record_is_started_for_the_context_of_the_statement() {
    let logger = MwLoggerBuilder::new().context("MINE").build();
    let outcome = logger.log(&record("OTHER", Level::Warn), LogLevel::Warn, true);
    assert_eq!(outcome.calls, vec![begin("OTHE", LogLevel::Warn), EngineCall::Stop]);
    assert_eq!(logger.context(), "MINE");
}

#[test]
fn a_value_that_cannot_be_written_is_left_out_and_the_record_goes_on() {
    let logger = MwLoggerBuilder::new().build();
    let other = FormatSpec::new().display_hint(DisplayHint::Other);
    let statement = record("DFLT", Level::Error)
        .arg(Argument::new(Value::U8(1)))
        .arg(Argument::with_spec(Value::U8(2), other))
        .arg(Argument::with_spec(Value::Bool(true), other))
        .arg(Argument::with_spec(Value::I64(3), other))
        .arg(Argument::new(Value::U8(4)));
    let outcome = logger.log(&statement, LogLevel::Error, true);
    assert_eq!(outcome.failure, None);
    assert_eq!(
        outcome.calls,
        vec![
            begin("DFLT", LogLevel::Error),
            EngineCall::U8(1),
            EngineCall::Bool(true),
            EngineCall::U8(4),
            EngineCall::Stop,
        ]
    );
}

#[test]
fn a_string_outside_ascii_ends_the_statement_and_the_record_is_still_finished() {
    let logger = MwLoggerBuilder::new().show_line(true).build();
    let statement = record("DFLT", Level::Error)
        .arg(Argument::new(Value::U8(1)))
        .arg(text("gr\u{fc}n"))
        .arg(Argument::new(Value::U8(2)));
    let outcome = logger.log(&statement, LogLevel::Error, true);
    assert_eq!(outcome.failure, Some(NonAscii::Text));
    assert_eq!(
        outcome.calls,
        vec![
            begin("DFLT", LogLevel::Error),
            bytes("["),
            EngineCall::U32(42),
            bytes("]"),
            EngineCall::U8(1),
            EngineCall::Stop,
        ]
    );
    assert_eq!(count_stops(&outcome.calls), 1);
}

#[test]
fn a_string_outside_ascii_fails_on_a_declined_record_too() {
    let logger = MwLoggerBuilder::new().build();
    let statement = record("DFLT", Level::Error).arg(text("\u{e9}"));
    let outcome = logger.log(&statement, LogLevel::Error, false);
    assert_eq!(
        outcome,
        LogOutcome { calls: vec![begin("DFLT", LogLevel::Error)], failure: Some(NonAscii::Text) }
    );
}

#[test]
fn a_string_outside_ascii_below_the_threshold_is_never_looked_at() {
    let logger = MwLoggerBuilder::new().build();
    let statement = record("DFLT", Level::Trace).arg(text("\u{e9}"));
    let outcome = logger.log(&statement, LogLevel::Debug, true);
    assert_eq!(outcome, LogOutcome { calls: Vec::new(), failure: None });
}

#[test]
fn a_file_name_outside_ascii_fails_in_the_prefix() {
    let logger = MwLoggerBuilder::new().show_module(true).show_file(true).build();
    let statement =
        Record::new(Metadata::new("DFLT", Level::Error), "app", "src/\u{fc}.rs", 1).arg(text("m"));
    let outcome = logger.log(&statement, LogLevel::Error, true);
    assert_eq!(outcome.failure, Some(NonAscii::Text));
    assert_eq!(
        outcome.calls,
        vec![
            begin("DFLT", LogLevel::Error),
            bytes("["),
            bytes("app"),
            bytes(":"),
            EngineCall::Stop,
        ]
    );
}

#[test]
fn what_is_not_shown_may_be_outside_ascii() {
    let logger = MwLoggerBuilder::new().show_line(true).build();
    let statement =
        Record::new(Metadata::new("DFLT", Level::Error), "\u{e4}pp", "src/\u{fc}.rs", 1);
    let outcome = logger.log(&statement, LogLevel::Error, true);
    assert_eq!(outcome.failure, None);
    assert_eq!(
        outcome.calls,
        vec![
            begin("DFLT", LogLevel::Error),
            bytes("["),
            EngineCall::U32(1),
            bytes("]"),
            EngineCall::Stop,
        ]
    );
}

#[test]
fn a_context_outside_ascii_fails_before_any_call() {
    let logger = MwLoggerBuilder::new().build();
    let statement = record("\u{c9}COL", Level::Fatal).arg(text("m"));
    for threshold in LOG_LEVELS {
        let outcome = logger.log(&statement, threshold, true);
        assert_eq!(
            outcome,
            LogOutcome { calls: Vec::new(), failure: Some(NonAscii::Context) }
        );
    }
}

#[test]
fn every_started_record_is_finished_once_if_the_engine_agreed() {
    let other = FormatSpec::new().display_hint(DisplayHint::Other);
    let statements = [
        record("DFLT", Level::Fatal),
        numbers(),
        record("DFLT", Level::Fatal).arg(text("\u{e9}")).arg(text("after")),
        record("DFLT", Level::Fatal).arg(Argument::with_spec(Value::U8(1), other)),
    ];
    for show in [false, true] {
        let logger = MwLoggerBuilder::new()
            .show_module(show)
            .show_file(show)
            .show_line(show)
            .build();
        for statement in &statements {
            let agreed = logger.log(statement, LogLevel::Verbose, true);
            assert_eq!(count_starts(&agreed.calls), 1);
            assert_eq!(count_stops(&agreed.calls), 1);
            assert!(matches!(agreed.calls.first(), Some(EngineCall::Start { .. })));
            assert_eq!(agreed.calls.last(), Some(&EngineCall::Stop));
            let inner = &agreed.calls[1..agreed.calls.len() - 1];
            assert!(inner.iter().all(|call| call.is_emission()));

            let declined = logger.log(statement, LogLevel::Verbose, false);
            assert_eq!(declined.calls.len(), 1);
            assert_eq!(count_stops(&declined.calls), 0);
            assert_eq!(declined.failure, agreed.failure);
        }
    }
}

#[test]
fn a_new_builder_is_for_dflt_and_shows_nothing() {
    let logger = MwLoggerBuilder::new().build();
    assert_eq!(logger.context(), "DFLT");
    assert_eq!(logger, MwLoggerBuilder::default().build());
    assert_eq!(
        logger,
        MwLoggerBuilder::new()
            .context("DFLT")
            .show_module(false)
            .show_file(false)
            .show_line(false)
            .build()
    );
    assert_eq!(MwLoggerBuilder::new().config_to_export(false), None);
}

#[test]
fn the_builder_keeps_the_label_as_it_is_given() {
    assert_eq!(MwLoggerBuilder::new().context("ALFA").build().context(), "ALFA");
    assert_eq!(
        MwLoggerBuilder::new().context("a long label").build().context(),
        "a long label"
    );
    assert_eq!(MwLoggerBuilder::new().context("A").context("B").build().context(), "B");
}

#[test]
fn each_flag_of_the_builder_is_set_on_its_own() {
    let base = MwLoggerBuilder::new().build();
    let module = MwLoggerBuilder::new().show_module(true).build();
    let file = MwLoggerBuilder::new().show_file(true).build();
    let line = MwLoggerBuilder::new().show_line(true).build();
    assert_ne!(module, base);
    assert_ne!(file, base);
    assert_ne!(line, base);
    assert_ne!(module, file);
    assert_ne!(file, line);
    assert_eq!(MwLoggerBuilder::new().show_file(true).show_file(false).build(), base);
    assert_eq!(
        MwLoggerBuilder::new().show_line(true).show_module(true).build(),
        MwLoggerBuilder::new().show_module(true).show_line(true).build()
    );
}

#[test]
fn the_configuration_file_is_exported_only_into_an_empty_environment() {
    let builder = MwLoggerBuilder::new().config("/etc/logging.json".to_string());
    assert_eq!(builder.config_to_export(false), Some("/etc/logging.json"));
    assert_eq!(builder.config_to_export(true), None);
}

#[test]
fn an_empty_or_missing_configuration_path_is_never_exported() {
    let empty = MwLoggerBuilder::new().config(String::new());
    assert_eq!(empty.config_to_export(false), None);
    assert_eq!(empty.config_to_export(true), None);
    let none = MwLoggerBuilder::new();
    assert_eq!(none.config_to_export(false), None);
    assert_eq!(none.config_to_export(true), None);
}

#[test]
fn the_environment_is_seeded_at_most_once() {
    let mut environment: Option<String> = None;
    for path in ["first.json", "second.json", "third.json"] {
        let builder = MwLoggerBuilder::new().config(path.to_string());
        if let Some(export) = builder.config_to_export(environment.is_some()) {
            environment = Some(export.to_string());
        }
    }
    assert_eq!(environment.as_deref(), Some("first.json"));
}

#[test]
fn the_configuration_path_does_not_change_the_logger() {
    assert_eq!(
        MwLoggerBuilder::new().config("a.json".to_string()).build(),
        MwLoggerBuilder::new().build()
    );
}

#[test]
fn the_first_default_logger_is_registered() {
    let mut default = DefaultLogger::new();
    assert_eq!(default.logger(), None);
    let (max_level, registered) = MwLoggerBuilder::new()
        .context("ONE")
        .set_as_default_logger(LogLevel::Info, &mut default);
    assert_eq!(max_level, LevelFilter::Info);
    assert_eq!(registered, Ok(()));
    assert_eq!(default.logger().map(MwLogger::context), Some("ONE"));
}

#[test]
fn the_second_default_logger_is_refused_and_the_first_stays() {
    let mut default = DefaultLogger::new();
    let first = MwLoggerBuilder::new().context("ONE").show_file(true);
    let second = MwLoggerBuilder::new().context("TWO");
    assert_eq!(first.set_as_default_logger(LogLevel::Info, &mut default).1, Ok(()));
    let (max_level, registered) = second.set_as_default_logger(LogLevel::Debug, &mut default);
    assert_eq!(registered, Err(SetLoggerError));
    assert_eq!(max_level, LevelFilter::Debug);
    assert_eq!(
        default.logger(),
        Some(&MwLoggerBuilder::new().context("ONE").show_file(true).build())
    );
    let third = MwLoggerBuilder::new().build();
    assert_eq!(default.set(third), Err(SetLoggerError));
    assert_eq!(default.logger().map(MwLogger::context), Some("ONE"));
}

#[test]
fn the_maximum_level_comes_from_the_level_of_the_engine() {
    let expected = [
        (LogLevel::Off, LevelFilter::Off),
        (LogLevel::Fatal, LevelFilter::Fatal),
        (LogLevel::Error, LevelFilter::Error),
        (LogLevel::Warn, LevelFilter::Warn),
        (LogLevel::Info, LevelFilter::Info),
        (LogLevel::Debug, LevelFilter::Debug),
        (LogLevel::Verbose, LevelFilter::Trace),
    ];
    for (threshold, filter) in expected {
        let mut default = DefaultLogger::new();
        let done = MwLoggerBuilder::new().set_as_default_logger(threshold, &mut default);
        assert_eq!(done, (filter, Ok(())));
    }
}

#[test]
fn flushing_does_nothing() {
    let logger = MwLoggerBuilder::new().context("ALFA").show_file(true).build();
    let before = logger.clone();
    logger.flush();
    assert_eq!(logger, before);
}

#[test]
fn a_record_holds_its_values_in_the_order_they_were_added() {
    let statement = numbers();
    assert_eq!(statement.metadata, Metadata::new("DFLT", Level::Error));
    assert_eq!(statement.module, "app::engine");
    assert_eq!(statement.file, "src/engine.rs");
    assert_eq!(statement.line, 42);
    assert_eq!(statement.args.len(), 4);
    assert_eq!(statement.args[1], Argument::new(Value::I32(111)));
    assert_eq!(statement.args[3].spec.get_display_hint(), DisplayHint::LowerHex);
    assert_eq!(statement.args[0].spec.get_display_hint(), DisplayHint::NoHint);
}

#[test]
fn the_builder_shows_its_label() {
    assert_eq!(MwLoggerBuilder::new().label(), "DFLT");
    assert_eq!(MwLoggerBuilder::new().context("ALFA-ROMEO").label(), "ALFA-ROMEO");
}
