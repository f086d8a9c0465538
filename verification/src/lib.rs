//! A bridge between a structured-logging facade and an external recording
//! engine.
//!
//! The crate holds the decisions of the bridge and none of its effects.
//! Every call that has to cross into the engine is produced as an
//! [`EngineCall`] value, in the order in which it has to be made, and every
//! answer of the engine comes in as a plain argument.
//!
//! - [`level`]: the severities of both sides and the codec between them.
//! - [`context`]: the four-byte tag that a context label is cut down to.
//! - [`layout`]: the check that both sides agree on the slot handle's layout.
//! - [`engine`]: the calls into the engine, as values.
//! - [`stream`]: the slot of one record and its life.
//! - [`fmt`] and [`writer`]: from a value and its display hint to the call.
//! - [`record`] and [`logger`]: from a log statement to its record.

pub mod context;
pub mod engine;
pub mod fmt;
pub mod layout;
pub mod level;
pub mod logger;
pub mod record;
pub mod stream;
pub mod writer;

pub use context::{Context, NonAscii};
pub use engine::EngineCall;
pub use fmt::{DisplayHint, FmtResult, FormatError, FormatSpec, Value};
pub use layout::{layout_check, LayoutDescriptor, LayoutError, SlotHandlePtr};
pub use level::{Level, LevelFilter, LogLevel, UnsupportedLevel};
pub use logger::{DefaultLogger, LogOutcome, MwLogger, MwLoggerBuilder, SetLoggerError};
pub use record::{Argument, Metadata, Record};
pub use stream::{LogStream, SlotState};
pub use writer::MwLogWriter;
