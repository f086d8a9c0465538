//! A log statement as the facade hands it over: where it comes from, how
//! severe it is, and the values to write.

use crate::fmt::{FormatSpec, Value};
use crate::level::Level;
use vstd::prelude::*;

verus! {

/// What the filter looks at: the context of a log statement and its
/// severity.
#[derive(Clone, Debug, PartialEq, Eq, Hash)]
pub struct Metadata {
    pub context: String,
    pub level: Level,
}

/// One value of a log statement with its format. A literal piece of the
/// message is a string value in the plain format.
#[derive(Clone, Debug, PartialEq, Eq, Hash)]
pub struct Argument {
    pub value: Value,
    pub spec: FormatSpec,
}

/// A log statement: its metadata, the place in the source that it comes
/// from, and its values in the order in which they are to be written.
#[derive(Clone, Debug, PartialEq, Eq, Hash)]
pub struct Record {
    pub metadata: Metadata,
    pub module: String,
    pub file: String,
    pub line: u32,
    pub args: Vec<Argument>,
}

impl Metadata {
    /// The metadata of a statement in `context` at `level`.
    pub fn new(context: &str, level: Level) -> (metadata: Metadata)
        ensures
            metadata.context@ == context@,
            metadata.level == level,
    {
        Metadata { context: context.to_owned(), level }
    }
}

impl Argument {
    /// A value in the plain format.
    pub fn new(value: Value) -> (argument: Argument)
        ensures
            argument.value == value,
            argument.spec.hint() == crate::fmt::DisplayHint::NoHint,
    {
        Argument { value, spec: FormatSpec::new() }
    }

    /// A value in a given format.
    pub fn with_spec(value: Value, spec: FormatSpec) -> (argument: Argument)
        ensures
            argument.value == value,
            argument.spec == spec,
    {
        Argument { value, spec }
    }
}

impl Record {
    /// A statement without values yet.
    pub fn new(metadata: Metadata, module: &str, file: &str, line: u32) -> (record: Record)
        ensures
            record.metadata == metadata,
            record.module@ == module@,
            record.file@ == file@,
            record.line == line,
            record.args@ == Seq::<Argument>::empty(),
    {
        Record {
            metadata,
            module: module.to_owned(),
            file: file.to_owned(),
            line,
            args: Vec::new(),
        }
    }

    /// The same statement with one more value at the end.
    pub fn arg(self, argument: Argument) -> (record: Record)
        ensures
            record.metadata == self.metadata,
            record.module == self.module,
            record.file == self.file,
            record.line == self.line,
            record.args@ == self.args@.push(argument),
    {
        let mut record = self;
        record.args.push(argument);
        record
    }
}

} // verus!
