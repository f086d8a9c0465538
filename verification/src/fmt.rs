//! Formatted values as the facade hands them over: a primitive value and
//! the way it asks to be shown.

use crate::engine::Call;
use vstd::prelude::*;
use vstd::string::StringExecFnsIsAscii;
use vstd::utf8::{encode_utf8, is_ascii_chars};

verus! {

/// How a value asks to be shown.
///
/// The tag never changes what the value is. It only selects the entry
/// point of the engine that the value is handed to.
#[derive(Clone, Copy, Debug, PartialEq, Eq, Structural, Hash)]
pub enum DisplayHint {
    NoHint,
    LowerHex,
    UpperHex,
    Binary,
    /// Any other way of showing a value; the engine has no entry point
    /// for it.
    Other,
}

/// The format of one value, as far as the bridge reads it.
#[derive(Clone, Copy, Debug, PartialEq, Eq, Structural, Hash)]
pub struct FormatSpec {
    display_hint: DisplayHint,
}

/// A value could not be written in the format that was asked for.
#[derive(Clone, Copy, Debug, PartialEq, Eq, Structural, Hash)]
pub struct FormatError;

/// What writing one value comes to.
pub type FmtResult = Result<(), FormatError>;

impl FormatSpec {
    /// The hint of the format.
    pub closed spec fn hint(self) -> DisplayHint {
        self.display_hint
    }

    /// The plain format, without a hint.
    pub fn new() -> (spec: FormatSpec)
        ensures
            spec.hint() == DisplayHint::NoHint,
    {
        FormatSpec { display_hint: DisplayHint::NoHint }
    }

    /// The same format with another hint.
    pub fn display_hint(self, display_hint: DisplayHint) -> (spec: FormatSpec)
        ensures
            spec.hint() == display_hint,
    {
        FormatSpec { display_hint }
    }

    /// The hint of the format.
    pub fn get_display_hint(&self) -> (display_hint: DisplayHint)
        ensures
            display_hint == self.hint(),
    {
        self.display_hint
    }
}

/// A primitive value. Floating-point values are held by their IEEE 754
/// bit patterns.
#[derive(Clone, Debug, PartialEq, Eq, Hash)]
pub enum Value {
    Bool(bool),
    F32(u32),
    F64(u64),
    Str(String),
    I8(i8),
    I16(i16),
    I32(i32),
    I64(i64),
    U8(u8),
    U16(u16),
    U32(u32),
    U64(u64),
}

/// The bit pattern of a signed 8-bit integer, read as unsigned: the value
/// itself if it is not negative, and the value plus 2^8 if it is.
pub open spec fn bits8(v: i8) -> u8 {
    if v < 0 {
        (v + 0x100) as u8
    } else {
        v as u8
    }
}

/// The bit pattern of a signed 16-bit integer, read as unsigned.
pub open spec fn bits16(v: i16) -> u16 {
    if v < 0 {
        (v + 0x1_0000) as u16
    } else {
        v as u16
    }
}

/// The bit pattern of a signed 32-bit integer, read as unsigned.
pub open spec fn bits32(v: i32) -> u32 {
    if v < 0 {
        (v + 0x1_0000_0000) as u32
    } else {
        v as u32
    }
}

/// The bit pattern of a signed 64-bit integer, read as unsigned.
pub open spec fn bits64(v: i64) -> u64 {
    if v < 0 {
        (v + 0x1_0000_0000_0000_0000) as u64
    } else {
        v as u64
    }
}

/// The call for an integer, by its hint: the plain entry point without a
/// hint, the hex entry point for either hex hint, the binary entry point
/// for the binary hint, and none for any other hint.
pub open spec fn integer_call(hint: DisplayHint, plain: Call, hex: Call, binary: Call) -> Option<
    Call,
> {
    match hint {
        DisplayHint::NoHint => Some(plain),
        DisplayHint::LowerHex | DisplayHint::UpperHex => Some(hex),
        DisplayHint::Binary => Some(binary),
        DisplayHint::Other => None,
    }
}

/// The call into the engine that a value with a hint comes to, if there is
/// one.
///
/// Booleans, floats and strings go to their plain entry points whatever
/// the hint. Integers go by [`integer_call`]; a signed integer reaches the
/// hex and binary entry points as its bit pattern of the same width.
pub open spec fn emission(value: Value, hint: DisplayHint) -> Option<Call> {
    match value {
        Value::Bool(v) => Some(Call::Bool(v)),
        Value::F32(bits) => Some(Call::F32(bits)),
        Value::F64(bits) => Some(Call::F64(bits)),
        Value::Str(s) => Some(Call::Str(encode_utf8(s@))),
        Value::I8(v) => integer_call(
            hint,
            Call::I8(v),
            Call::Hex8(bits8(v)),
            Call::Bin8(bits8(v)),
        ),
        Value::I16(v) => integer_call(
            hint,
            Call::I16(v),
            Call::Hex16(bits16(v)),
            Call::Bin16(bits16(v)),
        ),
        Value::I32(v) => integer_call(
            hint,
            Call::I32(v),
            Call::Hex32(bits32(v)),
            Call::Bin32(bits32(v)),
        ),
        Value::I64(v) => integer_call(
            hint,
            Call::I64(v),
            Call::Hex64(bits64(v)),
            Call::Bin64(bits64(v)),
        ),
        Value::U8(v) => integer_call(hint, Call::U8(v), Call::Hex8(v), Call::Bin8(v)),
        Value::U16(v) => integer_call(hint, Call::U16(v), Call::Hex16(v), Call::Bin16(v)),
        Value::U32(v) => integer_call(hint, Call::U32(v), Call::Hex32(v), Call::Bin32(v)),
        Value::U64(v) => integer_call(hint, Call::U64(v), Call::Hex64(v), Call::Bin64(v)),
    }
}

impl Value {
    /// The value can be handed to the engine: a string is ASCII, anything
    /// else is fine as it is.
    pub open spec fn spec_is_ascii(&self) -> bool {
        *self matches Value::Str(s) ==> is_ascii_chars(s@)
    }

    /// Whether the value can be handed to the engine.
    #[verifier::when_used_as_spec(spec_is_ascii)]
    pub fn is_ascii(&self) -> (ascii: bool)
        ensures
            ascii == self.spec_is_ascii(),
    {
        match self {
            Value::Str(s) => s.is_ascii(),
            _ => true,
        }
    }
}

/// Whatever a value comes to, it is an emission: writing values never
/// begins or finishes a record.
pub proof fn lemma_emission_is_emission(value: Value, hint: DisplayHint)
    ensures
        emission(value, hint) matches Some(call) ==> call.is_emission(),
        emission(value, hint) is None <==> hint is Other && !(value is Bool) && !(value is F32)
            && !(value is F64) && !(value is Str),
{
}

/// Either hex hint selects the same call: the case of the digits is the
/// engine's matter.
pub proof fn lemma_hex_case_is_not_told_apart(value: Value)
    ensures
        emission(value, DisplayHint::LowerHex) == emission(value, DisplayHint::UpperHex),
{
}

} // verus!
