//! The calls that the bridge makes into the recording engine, as values.
//!
//! The bridge decides which entry point of the engine is called with which
//! value, and in which order. It does not make the calls: it hands them
//! out as [`EngineCall`]s, one for each call, and whoever owns the
//! connection to the engine makes them in that order.

use crate::context::Context;
use crate::level::LogLevel;
use vstd::prelude::*;

verus! {

/// One call into the engine.
///
/// There is one variant for each entry point that takes part in a record.
/// Floating-point values travel as their IEEE 754 bit patterns, strings as
/// their bytes; the hex and binary entry points take unsigned values only.
#[derive(Clone, Debug, PartialEq, Eq, Hash)]
pub enum EngineCall {
    /// Begin a record for a context at a level.
    Start { context: Context, level: LogLevel },
    /// Finish the record and flush it.
    Stop,
    Bool(bool),
    /// A 32-bit float, by its bits.
    F32(u32),
    /// A 64-bit float, by its bits.
    F64(u64),
    /// An ASCII string, passed as bytes with their length.
    Str(Vec<u8>),
    I8(i8),
    I16(i16),
    I32(i32),
    I64(i64),
    U8(u8),
    U16(u16),
    U32(u32),
    U64(u64),
    Hex8(u8),
    Hex16(u16),
    Hex32(u32),
    Hex64(u64),
    Bin8(u8),
    Bin16(u16),
    Bin32(u32),
    Bin64(u64),
}

/// An [`EngineCall`] as a mathematical value: the context is its tag, a
/// string its sequence of bytes.
pub enum Call {
    Start { context: Seq<u8>, level: LogLevel },
    Stop,
    Bool(bool),
    F32(u32),
    F64(u64),
    Str(Seq<u8>),
    I8(i8),
    I16(i16),
    I32(i32),
    I64(i64),
    U8(u8),
    U16(u16),
    U32(u32),
    U64(u64),
    Hex8(u8),
    Hex16(u16),
    Hex32(u32),
    Hex64(u64),
    Bin8(u8),
    Bin16(u16),
    Bin32(u32),
    Bin64(u64),
}

impl Call {
    /// The call hands a value to the engine: it neither begins nor
    /// finishes a record.
    pub open spec fn is_emission(self) -> bool {
        !(self is Start) && !(self is Stop)
    }
}

impl View for EngineCall {
    type V = Call;

    open spec fn view(&self) -> Call {
        match *self {
            EngineCall::Start { context, level } => Call::Start { context: context@, level },
            EngineCall::Stop => Call::Stop,
            EngineCall::Bool(v) => Call::Bool(v),
            EngineCall::F32(bits) => Call::F32(bits),
            EngineCall::F64(bits) => Call::F64(bits),
            EngineCall::Str(bytes) => Call::Str(bytes@),
            EngineCall::I8(v) => Call::I8(v),
            EngineCall::I16(v) => Call::I16(v),
            EngineCall::I32(v) => Call::I32(v),
            EngineCall::I64(v) => Call::I64(v),
            EngineCall::U8(v) => Call::U8(v),
            EngineCall::U16(v) => Call::U16(v),
            EngineCall::U32(v) => Call::U32(v),
            EngineCall::U64(v) => Call::U64(v),
            EngineCall::Hex8(v) => Call::Hex8(v),
            EngineCall::Hex16(v) => Call::Hex16(v),
            EngineCall::Hex32(v) => Call::Hex32(v),
            EngineCall::Hex64(v) => Call::Hex64(v),
            EngineCall::Bin8(v) => Call::Bin8(v),
            EngineCall::Bin16(v) => Call::Bin16(v),
            EngineCall::Bin32(v) => Call::Bin32(v),
            EngineCall::Bin64(v) => Call::Bin64(v),
        }
    }
}

/// A sequence of calls as mathematical values, call by call.
pub open spec fn calls_view(calls: Seq<EngineCall>) -> Seq<Call> {
    calls.map_values(|call: EngineCall| call@)
}

impl EngineCall {
    /// Whether the call hands a value to the engine.
    pub fn is_emission(&self) -> (emission: bool)
        ensures
            emission == self@.is_emission(),
    {
        match self {
            EngineCall::Start { .. } => false,
            EngineCall::Stop => false,
            _ => true,
        }
    }
}

} // verus!
