//! The logger and its builder: what a log statement comes to, from the
//! filter to the last call of its record.

use crate::context::{tag_of, NonAscii};
use crate::engine::{calls_view, Call, EngineCall};
use crate::fmt::{emission, DisplayHint, FormatSpec, Value};
use crate::level::{Level, LevelFilter, LogLevel};
use crate::record::{Argument, Metadata, Record};
use crate::stream::{LogStream, Slot, SlotState};
use crate::writer::MwLogWriter;
use vstd::prelude::*;
use vstd::std_specs::convert::FromSpec;
use vstd::string::StringExecFnsIsAscii;
use vstd::utf8::{encode_utf8, is_ascii_chars};

verus! {

/// The configuration of a logger as a mathematical value: the label of its
/// context, and for the module, the file and the line of a statement
/// whether they are written in front of the message.
pub struct LoggerConfig {
    pub context: Seq<char>,
    pub show_module: bool,
    pub show_file: bool,
    pub show_line: bool,
}

/// The configuration of a builder as a mathematical value: that of the
/// logger to build, and the path of a configuration file if one was given.
pub struct BuilderConfig {
    pub logger: LoggerConfig,
    pub config_path: Option<Seq<char>>,
}

/// The configuration that a new builder starts with.
pub open spec fn default_config() -> BuilderConfig {
    BuilderConfig {
        logger: LoggerConfig {
            context: "DFLT"@,
            show_module: false,
            show_file: false,
            show_line: false,
        },
        config_path: None,
    }
}

/// The path that is exported as the engine's configuration file: the one
/// given to the builder, unless none or an empty one was given, and
/// unless the environment names a configuration file already.
pub open spec fn config_to_seed(already_set: bool, config_path: Option<Seq<char>>) -> Option<
    Seq<char>,
> {
    match config_path {
        Some(path) => if already_set || path.len() == 0 {
            None
        } else {
            Some(path)
        },
        None => None,
    }
}

/// The configuration file that the environment names after a builder with
/// `config_path` has seeded it.
pub open spec fn seeded_environment(
    environment: Option<Seq<char>>,
    config_path: Option<Seq<char>>,
) -> Option<Seq<char>> {
    match config_to_seed(environment is Some, config_path) {
        Some(path) => Some(path),
        None => environment,
    }
}

/// Builder of an [`MwLogger`].
pub struct MwLoggerBuilder {
    context: String,
    show_module: bool,
    show_file: bool,
    show_line: bool,
    config_path: Option<String>,
}

/// The logger: the configuration of the bridge for one context.
#[derive(Clone, Debug, PartialEq, Eq, Hash)]
pub struct MwLogger {
    context: String,
    show_module: bool,
    show_file: bool,
    show_line: bool,
}

impl View for MwLoggerBuilder {
    type V = BuilderConfig;

    closed spec fn view(&self) -> BuilderConfig {
        BuilderConfig {
            logger: LoggerConfig {
                context: self.context@,
                show_module: self.show_module,
                show_file: self.show_file,
                show_line: self.show_line,
            },
            config_path: match self.config_path {
                Some(path) => Some(path@),
                None => None,
            },
        }
    }
}

impl View for MwLogger {
    type V = LoggerConfig;

    closed spec fn view(&self) -> LoggerConfig {
        LoggerConfig {
            context: self.context@,
            show_module: self.show_module,
            show_file: self.show_file,
            show_line: self.show_line,
        }
    }
}

impl Default for MwLoggerBuilder {
    /// The builder of a logger for the context `DFLT` that writes nothing
    /// in front of a message.
    fn default() -> (builder: MwLoggerBuilder)
        ensures
            builder@ == default_config(),
    {
        MwLoggerBuilder {
            context: "DFLT".to_owned(),
            show_module: false,
            show_file: false,
            show_line: false,
            config_path: None,
        }
    }
}

impl MwLoggerBuilder {
    /// A builder with the default configuration.
    pub fn new() -> (builder: MwLoggerBuilder)
        ensures
            builder@ == default_config(),
    {
        MwLoggerBuilder {
            context: "DFLT".to_owned(),
            show_module: false,
            show_file: false,
            show_line: false,
            config_path: None,
        }
    }

    /// Sets the label of the context.
    ///
    /// The label is kept as it is given. What the engine sees of it is
    /// decided when a record is started.
    pub fn context(self, context: &str) -> (builder: MwLoggerBuilder)
        ensures
            builder@ == (BuilderConfig {
                logger: LoggerConfig { context: context@, ..self@.logger },
                ..self@
            }),
    {
        let mut builder = self;
        builder.context = context.to_owned();
        builder
    }

    /// The label of the context as it stands.
    pub fn label(&self) -> (context: &str)
        ensures
            context@ == self@.logger.context,
    {
        self.context.as_str()
    }

    /// Sets whether the module of a statement is written in front of its
    /// message.
    pub fn show_module(self, show_module: bool) -> (builder: MwLoggerBuilder)
        ensures
            builder@ == (BuilderConfig {
                logger: LoggerConfig { show_module, ..self@.logger },
                ..self@
            }),
    {
        let mut builder = self;
        builder.show_module = show_module;
        builder
    }

    /// Sets whether the file of a statement is written in front of its
    /// message.
    pub fn show_file(self, show_file: bool) -> (builder: MwLoggerBuilder)
        ensures
            builder@ == (BuilderConfig {
                logger: LoggerConfig { show_file, ..self@.logger },
                ..self@
            }),
    {
        let mut builder = self;
        builder.show_file = show_file;
        builder
    }

    /// Sets whether the line of a statement is written in front of its
    /// message.
    pub fn show_line(self, show_line: bool) -> (builder: MwLoggerBuilder)
        ensures
            builder@ == (BuilderConfig {
                logger: LoggerConfig { show_line, ..self@.logger },
                ..self@
            }),
    {
        let mut builder = self;
        builder.show_line = show_line;
        builder
    }

    /// Sets the path of the engine's configuration file, for the case
    /// that the environment names none.
    pub fn config(self, config_path: String) -> (builder: MwLoggerBuilder)
        ensures
            builder@ == (BuilderConfig { config_path: Some(config_path@), ..self@ }),
    {
        let mut builder = self;
        builder.config_path = Some(config_path);
        builder
    }

    /// The path to export as the engine's configuration file, given
    /// whether the environment names one already.
    ///
    /// What the environment holds is never replaced, so the first path
    /// that is exported stays for good.
    pub fn config_to_export(&self, already_set: bool) -> (path: Option<&str>)
        ensures
            match path {
                Some(p) => config_to_seed(already_set, self@.config_path) == Some(p@),
                None => config_to_seed(already_set, self@.config_path) is None,
            },
    {
        match &self.config_path {
            Some(path) => {
                let path = path.as_str();
                if already_set || path.is_empty() {
                    None
                } else {
                    Some(path)
                }
            },
            None => None,
        }
    }

    /// Builds the logger and makes it the default logger of the process.
    ///
    /// `threshold` is the level that the engine holds for the context of
    /// the builder right now; the threshold of the facade that comes from
    /// it is handed back, to be set for the whole process. The logger is
    /// registered in `default` unless a default logger is there already:
    /// then the registration fails and the earlier logger stays.
    pub fn set_as_default_logger(self, threshold: LogLevel, default: &mut DefaultLogger) -> (done: (
        LevelFilter,
        Result<(), SetLoggerError>,
    ))
        ensures
            done.0 == LevelFilter::from_spec(threshold),
            (final(default)@, done.1) == registration(old(default)@, self@.logger),
    {
        let logger = self.build();
        let max_level = LevelFilter::from(threshold);
        (max_level, default.set(logger))
    }

    /// Builds the logger.
    pub fn build(self) -> (logger: MwLogger)
        ensures
            logger@ == self@.logger,
    {
        MwLogger {
            context: self.context,
            show_module: self.show_module,
            show_file: self.show_file,
            show_line: self.show_line,
        }
    }
}

impl MwLogger {
    /// The label of the logger's context.
    pub fn context(&self) -> (context: &str)
        ensures
            context@ == self@.context,
    {
        self.context.as_str()
    }

    /// Whether a statement passes the filter, given the level that the
    /// engine holds for the statement's context right now.
    ///
    /// The statement passes if and only if the engine's level is at least
    /// the level under which the statement would be filed.
    pub fn enabled(&self, metadata: &Metadata, threshold: LogLevel) -> (enabled: bool)
        ensures
            enabled == passes(threshold, metadata.level),
    {
        threshold >= LogLevel::from(metadata.level)
    }

    /// Does nothing: every record is flushed when its slot is released.
    pub fn flush(&self) {
    }

    /// Writes what stands in front of the message.
    fn write_prefix(&self, writer: &mut MwLogWriter, record: &Record) -> (failed: bool)
        ensures
            (final(writer)@, failed) == run(
                old(writer)@,
                prefix_steps(self@, record.module@, record.file@, record.line),
            ),
    {
        let ghost start = writer@;
        let ghost open = text_step(seq!['[']);
        let ghost colon = text_step(seq![':']);
        let ghost close = text_step(seq![']']);
        let ghost module = text_step(record.module@);
        let ghost file = text_step(record.file@);
        let ghost line = value_step(Value::U32(record.line), DisplayHint::NoHint);
        let ghost mut done: Seq<Step> = Seq::empty();
        let mut failed = false;
        if self.show_module || self.show_file || self.show_line {
            proof {
                reveal_strlit("[");
                reveal_strlit(":");
                reveal_strlit("]");
                assert("["@ =~= seq!['[']);
                assert(":"@ =~= seq![':']);
                assert("]"@ =~= seq![']']);
            }
            failed = write_text(writer, "[", failed);
            proof {
                lemma_run_push(start, done, open);
                done = done.push(open);
            }
            if self.show_module {
                failed = write_text(writer, record.module.as_str(), failed);
                proof {
                    lemma_run_push(start, done, module);
                    done = done.push(module);
                }
                if self.show_file || self.show_line {
                    failed = write_text(writer, ":", failed);
                    proof {
                        lemma_run_push(start, done, colon);
                        done = done.push(colon);
                    }
                }
            }
            if self.show_file {
                failed = write_text(writer, record.file.as_str(), failed);
                proof {
                    lemma_run_push(start, done, file);
                    done = done.push(file);
                }
                if self.show_line {
                    failed = write_text(writer, ":", failed);
                    proof {
                        lemma_run_push(start, done, colon);
                        done = done.push(colon);
                    }
                }
            }
            if self.show_line {
                let number = Argument::new(Value::U32(record.line));
                failed = write_argument(writer, &number, failed);
                proof {
                    lemma_run_push(start, done, line);
                    done = done.push(line);
                }
            }
            failed = write_text(writer, "]", failed);
            proof {
                lemma_run_push(start, done, close);
                done = done.push(close);
            }
        }
        assert(done =~= prefix_steps(self@, record.module@, record.file@, record.line));
        failed
    }

    /// What a log statement comes to.
    ///
    /// `threshold` is the level that the engine holds for the context of
    /// the statement right now. `acquired` is what the engine answers when
    /// it is asked to start the record; it is looked at only if the record
    /// is started.
    ///
    /// A statement below the threshold comes to nothing. Any other
    /// statement starts a record; if the engine agrees, the prefix and the
    /// values of the statement are written in order, and the record is
    /// finished whatever happened on the way. A value that cannot be
    /// written in its format is left out. A string outside ASCII, in the
    /// context or among the values, is a failure: nothing is written from
    /// it on, and it is reported beside the calls.
    pub fn log(&self, record: &Record, threshold: LogLevel, acquired: bool) -> (outcome:
        LogOutcome)
        ensures
            outcome@ == attempt(self@, *record, threshold, acquired),
    {
        let metadata = &record.metadata;
        if !metadata.context.is_ascii() {
            let outcome = LogOutcome { calls: Vec::new(), failure: Some(NonAscii::Context) };
            assert(outcome@.trace =~= Seq::<Call>::empty());
            return outcome;
        }
        if !self.enabled(metadata, threshold) {
            let outcome = LogOutcome { calls: Vec::new(), failure: None };
            assert(outcome@.trace =~= Seq::<Call>::empty());
            return outcome;
        }
        let log_level = LogLevel::from(metadata.level);
        let log_stream = LogStream::new(metadata.context.as_str(), log_level, acquired);
        let mut writer = MwLogWriter::new(log_stream);
        let ghost start = writer@;
        let ghost prefix = prefix_steps(self@, record.module@, record.file@, record.line);
        let ghost values = value_steps(record.args@);

        let mut failed = self.write_prefix(&mut writer, record);

        let mut i: usize = 0;
        proof {
            assert(values.take(0) =~= Seq::<Step>::empty());
            assert(prefix + values.take(0) =~= prefix);
        }
        while i < record.args.len() && !failed
            invariant
                i <= record.args.len(),
                values == value_steps(record.args@),
                values.len() == record.args.len(),
                (writer@, failed) == run(start, prefix + values.take(i as int)),
            decreases record.args.len() - i,
        {
            failed = write_argument(&mut writer, &record.args[i], failed);
            proof {
                lemma_run_push(start, prefix + values.take(i as int), values[i as int]);
                assert((prefix + values.take(i as int)).push(values[i as int]) =~= prefix
                    + values.take(i + 1));
            }
            i += 1;
        }
        proof {
            let all = prefix + values;
            assert(all.take(prefix.len() + i) =~= prefix + values.take(i as int));
            if failed {
                lemma_failure_is_final(start, all, prefix.len() + i);
            } else {
                assert(all.take(prefix.len() + i) =~= all);
            }
        }
        let log_stream = writer.finish();
        let failure = if failed {
            Some(NonAscii::Text)
        } else {
            None
        };
        LogOutcome { calls: log_stream.into_calls(), failure }
    }
}

/// Writes a piece of text, unless something failed before or the text is
/// not ASCII.
fn write_text(writer: &mut MwLogWriter, text: &str, failed: bool) -> (now_failed: bool)
    ensures
        (final(writer)@, now_failed) == advance((old(writer)@, failed), text_step(text@)),
{
    if failed || !text.is_ascii() {
        return true;
    }
    let _ = writer.write_str(text, &FormatSpec::new());
    false
}

/// Writes a value in its format, unless something failed before or the
/// value is a string that is not ASCII. A value that cannot be written in
/// its format is left out, which is no failure.
fn write_argument(writer: &mut MwLogWriter, argument: &Argument, failed: bool) -> (now_failed:
    bool)
    ensures
        (final(writer)@, now_failed) == advance(
            (old(writer)@, failed),
            value_step(argument.value, argument.spec.hint()),
        ),
{
    if failed || !argument.value.is_ascii() {
        return true;
    }
    let _ = writer.write_value(&argument.value, &argument.spec);
    false
}

/// What a log statement came to: the calls to make into the engine, in
/// order, and the failure that ended the statement early, if any.
///
/// The calls are to be made whether or not there is a failure. The first
/// call, if there is one, is the request to start the record, and the
/// answer to it is the `acquired` that the statement was run with.
#[derive(Clone, Debug, PartialEq, Eq, Hash)]
pub struct LogOutcome {
    pub calls: Vec<EngineCall>,
    pub failure: Option<NonAscii>,
}

/// A [`LogOutcome`] as a mathematical value.
pub struct Attempt {
    pub trace: Seq<Call>,
    pub failure: Option<NonAscii>,
}

impl View for LogOutcome {
    type V = Attempt;

    open spec fn view(&self) -> Attempt {
        Attempt { trace: calls_view(self.calls@), failure: self.failure }
    }
}

/// What writing one piece of a statement comes to.
pub enum Step {
    /// The piece goes to the engine by this call.
    Emit(Call),
    /// The piece cannot be written in its format and is left out.
    Dropped,
    /// The piece is a string outside ASCII: the statement ends here.
    Fatal,
}

/// The step for a piece of text.
pub open spec fn text_step(text: Seq<char>) -> Step {
    if is_ascii_chars(text) {
        Step::Emit(Call::Str(encode_utf8(text)))
    } else {
        Step::Fatal
    }
}

/// The step for a value with a hint.
pub open spec fn value_step(value: Value, hint: DisplayHint) -> Step {
    if !value.spec_is_ascii() {
        Step::Fatal
    } else {
        match emission(value, hint) {
            Some(call) => Step::Emit(call),
            None => Step::Dropped,
        }
    }
}

/// The steps for the values of a statement, value by value.
pub open spec fn value_steps(args: Seq<Argument>) -> Seq<Step> {
    args.map_values(|argument: Argument| value_step(argument.value, argument.spec.hint()))
}

/// The steps for what stands in front of a message.
///
/// If none of the three is shown there is no prefix. Else the prefix is an
/// opening bracket, those of module, file and line that are shown, in
/// this order and with a colon between two neighbours, and a closing
/// bracket.
pub open spec fn prefix_steps(
    config: LoggerConfig,
    module: Seq<char>,
    file: Seq<char>,
    line: u32,
) -> Seq<Step> {
    let colon = seq![text_step(seq![':'])];
    if !config.show_module && !config.show_file && !config.show_line {
        Seq::empty()
    } else {
        seq![text_step(seq!['['])] + (if config.show_module {
            seq![text_step(module)]
        } else {
            Seq::empty()
        }) + (if config.show_module && (config.show_file || config.show_line) {
            colon
        } else {
            Seq::empty()
        }) + (if config.show_file {
            seq![text_step(file)]
        } else {
            Seq::empty()
        }) + (if config.show_file && config.show_line {
            colon
        } else {
            Seq::empty()
        }) + (if config.show_line {
            seq![value_step(Value::U32(line), DisplayHint::NoHint)]
        } else {
            Seq::empty()
        }) + seq![text_step(seq![']'])]
    }
}

/// All steps of a statement: the prefix, then the values.
pub open spec fn steps(config: LoggerConfig, record: Record) -> Seq<Step> {
    prefix_steps(config, record.module@, record.file@, record.line) + value_steps(record.args@)
}

/// A slot, and whether the statement has failed, after one more step.
/// After a failure nothing changes any more.
pub open spec fn advance(state: (Slot, bool), step: Step) -> (Slot, bool) {
    if state.1 {
        state
    } else {
        match step {
            Step::Emit(call) => (state.0.emit(call), false),
            Step::Dropped => state,
            Step::Fatal => (state.0, true),
        }
    }
}

/// A slot, and whether the statement has failed, after all of `steps` in
/// order.
pub open spec fn run(slot: Slot, steps: Seq<Step>) -> (Slot, bool)
    decreases steps.len(),
{
    if steps.len() == 0 {
        (slot, false)
    } else {
        advance(run(slot, steps.drop_last()), steps.last())
    }
}

/// What a log statement comes to, see [`MwLogger::log`].
pub open spec fn attempt(
    config: LoggerConfig,
    record: Record,
    threshold: LogLevel,
    acquired: bool,
) -> Attempt {
    let level = LogLevel::from_spec(record.metadata.level);
    if !is_ascii_chars(record.metadata.context@) {
        Attempt { trace: Seq::empty(), failure: Some(NonAscii::Context) }
    } else if !passes(threshold, record.metadata.level) {
        Attempt { trace: Seq::empty(), failure: None }
    } else {
        let start = Slot::start(tag_of(encode_utf8(record.metadata.context@)), level, acquired);
        let end = run(start, steps(config, record));
        Attempt {
            trace: end.0.release().trace,
            failure: if end.1 {
                Some(NonAscii::Text)
            } else {
                None
            },
        }
    }
}

/// Running one more step is advancing by it.
proof fn lemma_run_push(slot: Slot, steps: Seq<Step>, step: Step)
    ensures
        run(slot, steps.push(step)) == advance(run(slot, steps), step),
{
    assert(steps.push(step).drop_last() =~= steps);
}

/// Once a statement has failed, no later step changes anything.
proof fn lemma_failure_is_final(slot: Slot, steps: Seq<Step>, k: int)
    requires
        0 <= k <= steps.len(),
        run(slot, steps.take(k)).1,
    ensures
        run(slot, steps) == run(slot, steps.take(k)),
    decreases steps.len() - k,
{
    if k < steps.len() {
        lemma_run_push(slot, steps.take(k), steps[k]);
        assert(steps.take(k).push(steps[k]) =~= steps.take(k + 1));
        lemma_failure_is_final(slot, steps, k + 1);
    } else {
        assert(steps.take(k) =~= steps);
    }
}

/// The place of the default logger of the process: empty at first, and
/// filled at most once.
///
/// Its view is the configuration of the logger that it holds, if any.
pub struct DefaultLogger {
    logger: Option<MwLogger>,
}

/// A default logger is registered already.
#[derive(Clone, Copy, Debug, PartialEq, Eq, Structural, Hash)]
pub struct SetLoggerError;

/// The place of the default logger after an attempt to register `logger`,
/// and what the attempt came to: an empty place takes the logger, a
/// filled place keeps the one it has and refuses.
pub open spec fn registration(default: Option<LoggerConfig>, logger: LoggerConfig) -> (
    Option<LoggerConfig>,
    Result<(), SetLoggerError>,
) {
    match default {
        None => (Some(logger), Ok(())),
        Some(_) => (default, Err(SetLoggerError)),
    }
}

impl View for DefaultLogger {
    type V = Option<LoggerConfig>;

    closed spec fn view(&self) -> Option<LoggerConfig> {
        match self.logger {
            Some(logger) => Some(logger@),
            None => None,
        }
    }
}

impl DefaultLogger {
    /// The empty place.
    pub fn new() -> (default: DefaultLogger)
        ensures
            default@ is None,
    {
        DefaultLogger { logger: None }
    }

    /// The default logger, if one is registered.
    pub fn logger(&self) -> (logger: Option<&MwLogger>)
        ensures
            match logger {
                Some(l) => self@ == Some(l@),
                None => self@ is None,
            },
    {
        self.logger.as_ref()
    }

    /// Registers `logger` as the default logger, once.
    pub fn set(&mut self, logger: MwLogger) -> (result: Result<(), SetLoggerError>)
        ensures
            (final(self)@, result) == registration(old(self)@, logger@),
    {
        if self.logger.is_some() {
            return Err(SetLoggerError);
        }
        self.logger = Some(logger);
        Ok(())
    }
}

/// A statement of severity `level` passes a threshold if and only if the
/// code of the threshold is at least the code under which the statement
/// is filed.
pub open spec fn passes(threshold: LogLevel, level: Level) -> bool {
    threshold.spec_code() >= LogLevel::from_spec(level).spec_code()
}

/// The calls of the steps that go to the engine, in order.
pub open spec fn emitted(steps: Seq<Step>) -> Seq<Call>
    decreases steps.len(),
{
    if steps.len() == 0 {
        Seq::empty()
    } else {
        emitted(steps.drop_last()) + match steps.last() {
            Step::Emit(call) => seq![call],
            _ => Seq::empty(),
        }
    }
}

/// Every call of the steps hands a value over.
pub open spec fn emit_values_only(steps: Seq<Step>) -> bool {
    forall|i: int|
        0 <= i < steps.len() ==> (#[trigger] steps[i] matches Step::Emit(call)
            ==> call.is_emission())
}

/// The steps of a statement never begin or finish a record: they hand
/// values over, and nothing else.
pub proof fn lemma_steps_emit_values_only(config: LoggerConfig, record: Record)
    ensures
        emit_values_only(steps(config, record)),
{
    let prefix = prefix_steps(config, record.module@, record.file@, record.line);
    let values = value_steps(record.args@);
    assert forall|i: int| 0 <= i < values.len() implies (#[trigger] values[i] matches Step::Emit(
        call,
    ) ==> call.is_emission()) by {
        crate::fmt::lemma_emission_is_emission(
            record.args@[i].value,
            record.args@[i].spec.hint(),
        );
    }
    assert forall|i: int| 0 <= i < prefix.len() implies (#[trigger] prefix[i] matches Step::Emit(
        call,
    ) ==> call.is_emission()) by {
        let step = prefix[i];
        assert(step == text_step(seq!['[']) || step == text_step(seq![':']) || step == text_step(
            seq![']'],
        ) || step == text_step(record.module@) || step == text_step(record.file@) || step
            == value_step(Value::U32(record.line), DisplayHint::NoHint));
    }
}

/// Steps keep a slot in shape and in its state; an inactive slot they
/// leave as it is.
pub proof fn lemma_run_keeps_shape(slot: Slot, steps: Seq<Step>)
    requires
        slot.wf(),
        emit_values_only(steps),
    ensures
        run(slot, steps).0.wf(),
        run(slot, steps).0.state == slot.state,
        run(slot, steps).0.trace[0] == slot.trace[0],
        !(slot.state is Active) ==> run(slot, steps).0 == slot,
    decreases steps.len(),
{
    if steps.len() > 0 {
        lemma_run_keeps_shape(slot, steps.drop_last());
        assert(steps.last() == steps[steps.len() - 1]);
    }
}

/// On an active slot the steps up to the first failure reach the engine,
/// in order and each by its call, and nothing reaches it from the failure
/// on. `k` is the place of the first failure, or the number of steps if
/// none fails.
pub proof fn lemma_run_until_failure(slot: Slot, steps: Seq<Step>, k: int)
    requires
        slot.state is Active,
        0 <= k <= steps.len(),
        forall|j: int| 0 <= j < k ==> !(#[trigger] steps[j] is Fatal),
        k < steps.len() ==> steps[k] is Fatal,
    ensures
        run(slot, steps) == (
            Slot { state: SlotState::Active, trace: slot.trace + emitted(steps.take(k)) },
            k < steps.len(),
        ),
{
    lemma_run_without_failure(slot, steps.take(k));
    if k < steps.len() {
        lemma_run_push(slot, steps.take(k), steps[k]);
        assert(steps.take(k).push(steps[k]) =~= steps.take(k + 1));
        lemma_failure_is_final(slot, steps, k + 1);
    } else {
        assert(steps.take(k) =~= steps);
    }
}

/// On an active slot steps without a failure all reach the engine.
proof fn lemma_run_without_failure(slot: Slot, steps: Seq<Step>)
    requires
        slot.state is Active,
        forall|j: int| 0 <= j < steps.len() ==> !(#[trigger] steps[j] is Fatal),
    ensures
        run(slot, steps) == (
            Slot { state: SlotState::Active, trace: slot.trace + emitted(steps) },
            false,
        ),
    decreases steps.len(),
{
    if steps.len() == 0 {
        assert(slot.trace + emitted(steps) =~= slot.trace);
    } else {
        lemma_run_without_failure(slot, steps.drop_last());
        assert(steps.last() == steps[steps.len() - 1]);
        let before = emitted(steps.drop_last());
        match steps.last() {
            Step::Emit(call) => {
                assert((slot.trace + before).push(call) =~= slot.trace + (before + seq![call]));
            },
            _ => {
                assert(before + Seq::<Call>::empty() =~= before);
            },
        }
    }
}

/// A statement below the threshold comes to no call at all, whatever the
/// engine would have answered.
pub proof fn lemma_below_threshold_is_silent(
    config: LoggerConfig,
    record: Record,
    threshold: LogLevel,
    acquired: bool,
)
    requires
        !passes(threshold, record.metadata.level),
    ensures
        attempt(config, record, threshold, acquired).trace == Seq::<Call>::empty(),
        attempt(config, record, threshold, acquired).failure is None <==> is_ascii_chars(
            record.metadata.context@,
        ),
{
}

/// A statement that passes the threshold is one record: one request to
/// start it comes first. If the engine declines, no other call is made.
/// If it agrees, the record is finished exactly once, by the last call,
/// whether or not a value was left out and whether or not the statement
/// failed on the way.
pub proof fn lemma_attempt_is_one_record(
    config: LoggerConfig,
    record: Record,
    threshold: LogLevel,
    acquired: bool,
)
    requires
        is_ascii_chars(record.metadata.context@),
        passes(threshold, record.metadata.level),
    ensures
        ({
            let trace = attempt(config, record, threshold, acquired).trace;
            &&& trace.len() >= 1
            &&& trace[0] == Call::Start {
                context: tag_of(encode_utf8(record.metadata.context@)),
                level: LogLevel::from_spec(record.metadata.level),
            }
            &&& !acquired ==> trace.len() == 1
            &&& acquired ==> trace.last() is Stop
            &&& Slot::stops(trace) == if acquired {
                1nat
            } else {
                0nat
            }
            &&& (Slot {
                state: if acquired {
                    SlotState::Released
                } else {
                    SlotState::Absent
                },
                trace,
            }).wf()
        }),
{
    let start = Slot::start(
        tag_of(encode_utf8(record.metadata.context@)),
        LogLevel::from_spec(record.metadata.level),
        acquired,
    );
    lemma_steps_emit_values_only(config, record);
    lemma_run_keeps_shape(start, steps(config, record));
    let end = run(start, steps(config, record)).0;
    crate::stream::lemma_released_exactly_once(end);
    crate::stream::lemma_released_exactly_once(end.release());
    assert(attempt(config, record, threshold, acquired).trace == end.release().trace);
    assert(end.release().trace[0] == end.trace[0]);
}

/// The record of a statement that passes the threshold and that the
/// engine agrees to start, in full: the request to start, then the calls of
/// all steps before the first failure, in order, then the call that
/// finishes the record. The statement fails if and only if a step does.
/// `k` is the place of the first failure, or the number of steps if none
/// fails.
pub proof fn lemma_attempt_in_full(
    config: LoggerConfig,
    record: Record,
    threshold: LogLevel,
    k: int,
)
    requires
        is_ascii_chars(record.metadata.context@),
        passes(threshold, record.metadata.level),
        0 <= k <= steps(config, record).len(),
        forall|j: int| 0 <= j < k ==> !(#[trigger] steps(config, record)[j] is Fatal),
        k < steps(config, record).len() ==> steps(config, record)[k] is Fatal,
    ensures
        attempt(config, record, threshold, true).trace == seq![
            Call::Start {
                context: tag_of(encode_utf8(record.metadata.context@)),
                level: LogLevel::from_spec(record.metadata.level),
            },
        ] + emitted(steps(config, record).take(k)) + seq![Call::Stop],
        attempt(config, record, threshold, true).failure == if k < steps(config, record).len() {
            Some(NonAscii::Text)
        } else {
            None
        },
{
    let start = Slot::start(
        tag_of(encode_utf8(record.metadata.context@)),
        LogLevel::from_spec(record.metadata.level),
        true,
    );
    lemma_run_until_failure(start, steps(config, record), k);
    assert(attempt(config, record, threshold, true).trace =~= start.trace + emitted(
        steps(config, record).take(k),
    ) + seq![Call::Stop]);
}

/// With only the file shown the prefix is the opening bracket, the file
/// and the closing bracket: no module, no line and no colon.
pub proof fn lemma_prefix_of_file_alone(module: Seq<char>, file: Seq<char>, line: u32)
    ensures
        prefix_steps(
            LoggerConfig {
                context: Seq::empty(),
                show_module: false,
                show_file: true,
                show_line: false,
            },
            module,
            file,
            line,
        ) == seq![text_step(seq!['[']), text_step(file), text_step(seq![']'])],
{
    let config = LoggerConfig {
        context: Seq::empty(),
        show_module: false,
        show_file: true,
        show_line: false,
    };
    assert(prefix_steps(config, module, file, line) =~= seq![
        text_step(seq!['[']),
        text_step(file),
        text_step(seq![']']),
    ]);
}

/// The brackets and the colon of the prefix reach the engine as the
/// one-byte strings `[`, `:` and `]`.
pub proof fn lemma_punctuation_bytes()
    ensures
        text_step(seq!['[']) == Step::Emit(Call::Str(seq![0x5bu8])),
        text_step(seq![':']) == Step::Emit(Call::Str(seq![0x3au8])),
        text_step(seq![']']) == Step::Emit(Call::Str(seq![0x5du8])),
{
    vstd::utf8::is_ascii_chars_encode_utf8(seq!['[']);
    vstd::utf8::is_ascii_chars_encode_utf8(seq![':']);
    vstd::utf8::is_ascii_chars_encode_utf8(seq![']']);
    assert(encode_utf8(seq!['[']) =~= seq![0x5bu8]);
    assert(encode_utf8(seq![':']) =~= seq![0x3au8]);
    assert(encode_utf8(seq![']']) =~= seq![0x5du8]);
}

/// A configuration file that the environment names is never replaced.
pub proof fn lemma_environment_wins(environment: Seq<char>, config_path: Option<Seq<char>>)
    ensures
        config_to_seed(true, config_path) is None,
        seeded_environment(Some(environment), config_path) == Some(environment),
{
}

/// The environment is seeded at most once: after one builder has named a
/// configuration file, no later builder changes it.
pub proof fn lemma_seeded_at_most_once(
    environment: Option<Seq<char>>,
    first: Option<Seq<char>>,
    second: Option<Seq<char>>,
)
    requires
        seeded_environment(environment, first) is Some,
    ensures
        seeded_environment(seeded_environment(environment, first), second) == seeded_environment(
            environment,
            first,
        ),
{
}

/// Of two registrations in a row the first succeeds on an empty place, the
/// second fails, and the first logger stays the default.
pub proof fn lemma_second_registration_fails(first: LoggerConfig, second: LoggerConfig)
    ensures
        registration(None, first) == (Some(first), Ok::<(), SetLoggerError>(())),
        registration(registration(None, first).0, second) == (
            Some(first),
            Err::<(), SetLoggerError>(SetLoggerError),
        ),
{
}

} // verus!
