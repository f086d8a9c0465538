//! The typed writer: it takes formatted values one by one and hands each to
//! the entry point of the engine that its type and its hint select.

use crate::engine::{Call, EngineCall};
use crate::fmt::{
    bits16, bits32, bits64, bits8, emission, DisplayHint, FmtResult, FormatError, FormatSpec,
    Value,
};
use crate::stream::{LogStream, Slot};
use vstd::prelude::*;
use vstd::string::StringSliceAdditionalSpecFns;

verus! {

/// The slot after a value with a hint was written to it: the call that the
/// value comes to is handed to the slot, and a value that comes to no call
/// leaves the slot as it was.
pub open spec fn written(slot: Slot, value: Value, hint: DisplayHint) -> Slot {
    match emission(value, hint) {
        Some(call) => slot.emit(call),
        None => slot,
    }
}

/// The same 8 bits, read as unsigned. Reading the result as signed again
/// gives the value back: nothing is extended and nothing is cut.
fn reinterpret8(v: i8) -> (bits: u8)
    ensures
        bits == bits8(v),
        bits as i8 == v,
{
    let bits = v as u8;
    assert(bits == bits8(v) && bits as i8 == v) by (bit_vector)
        requires
            bits == v as u8,
    ;
    bits
}

/// The same 16 bits, read as unsigned. Reading the result as signed again
/// gives the value back: nothing is extended and nothing is cut.
fn reinterpret16(v: i16) -> (bits: u16)
    ensures
        bits == bits16(v),
        bits as i16 == v,
{
    let bits = v as u16;
    assert(bits == bits16(v) && bits as i16 == v) by (bit_vector)
        requires
            bits == v as u16,
    ;
    bits
}

/// The same 32 bits, read as unsigned. Reading the result as signed again
/// gives the value back: nothing is extended and nothing is cut.
fn reinterpret32(v: i32) -> (bits: u32)
    ensures
        bits == bits32(v),
        bits as i32 == v,
{
    let bits = v as u32;
    assert(bits == bits32(v) && bits as i32 == v) by (bit_vector)
        requires
            bits == v as u32,
    ;
    bits
}

/// The same 64 bits, read as unsigned. Reading the result as signed again
/// gives the value back: nothing is extended and nothing is cut.
fn reinterpret64(v: i64) -> (bits: u64)
    ensures
        bits == bits64(v),
        bits as i64 == v,
{
    let bits = v as u64;
    assert(bits == bits64(v) && bits as i64 == v) by (bit_vector)
        requires
            bits == v as u64,
    ;
    bits
}

/// The writer of one record. It owns the slot of the record and inserts
/// nothing of its own between the values.
///
/// Its view is the slot.
pub struct MwLogWriter {
    log_stream: LogStream,
}

impl View for MwLogWriter {
    type V = Slot;

    closed spec fn view(&self) -> Slot {
        self.log_stream@
    }
}

impl MwLogWriter {
    /// A writer on the slot of `log_stream`.
    pub fn new(log_stream: LogStream) -> (writer: MwLogWriter)
        ensures
            writer@ == log_stream@,
    {
        MwLogWriter { log_stream }
    }

    /// Writes a boolean. The hint is not looked at.
    pub fn write_bool(&mut self, v: &bool, _spec: &FormatSpec) -> (result: FmtResult)
        ensures
            result is Ok,
            final(self)@ == written(old(self)@, Value::Bool(*v), _spec.hint()),
            old(self)@.wf() ==> final(self)@.wf(),
    {
        self.log_stream.log_bool(v);
        Ok(())
    }

    /// Writes a 32-bit float, given by its bits. The hint is not looked at.
    pub fn write_f32(&mut self, v: &u32, _spec: &FormatSpec) -> (result: FmtResult)
        ensures
            result is Ok,
            final(self)@ == written(old(self)@, Value::F32(*v), _spec.hint()),
            old(self)@.wf() ==> final(self)@.wf(),
    {
        self.log_stream.log_f32(v);
        Ok(())
    }

    /// Writes a 64-bit float, given by its bits. The hint is not looked at.
    pub fn write_f64(&mut self, v: &u64, _spec: &FormatSpec) -> (result: FmtResult)
        ensures
            result is Ok,
            final(self)@ == written(old(self)@, Value::F64(*v), _spec.hint()),
            old(self)@.wf() ==> final(self)@.wf(),
    {
        self.log_stream.log_f64(v);
        Ok(())
    }

    /// Writes a signed 8-bit integer: as it is without a hint, as its
    /// bit pattern to the hex or the binary entry point.
    pub fn write_i8(&mut self, v: &i8, spec: &FormatSpec) -> (result: FmtResult)
        ensures
            result is Ok <==> emission(Value::I8(*v), spec.hint()) is Some,
            final(self)@ == written(old(self)@, Value::I8(*v), spec.hint()),
            old(self)@.wf() ==> final(self)@.wf(),
    {
        match spec.get_display_hint() {
            DisplayHint::NoHint => self.log_stream.log_i8(v),
            DisplayHint::LowerHex | DisplayHint::UpperHex => {
                let v_u8 = reinterpret8(*v);
                self.log_stream.log_hex8(&v_u8);
            },
            DisplayHint::Binary => {
                let v_u8 = reinterpret8(*v);
                self.log_stream.log_bin8(&v_u8);
            },
            _ => return Err(FormatError),
        }
        Ok(())
    }

    /// Writes a signed 16-bit integer: as it is without a hint, as its
    /// bit pattern to the hex or the binary entry point.
    pub fn write_i16(&mut self, v: &i16, spec: &FormatSpec) -> (result: FmtResult)
        ensures
            result is Ok <==> emission(Value::I16(*v), spec.hint()) is Some,
            final(self)@ == written(old(self)@, Value::I16(*v), spec.hint()),
            old(self)@.wf() ==> final(self)@.wf(),
    {
        match spec.get_display_hint() {
            DisplayHint::NoHint => self.log_stream.log_i16(v),
            DisplayHint::LowerHex | DisplayHint::UpperHex => {
                let v_u16 = reinterpret16(*v);
                self.log_stream.log_hex16(&v_u16);
            },
            DisplayHint::Binary => {
                let v_u16 = reinterpret16(*v);
                self.log_stream.log_bin16(&v_u16);
            },
            _ => return Err(FormatError),
        }
        Ok(())
    }

    /// Writes a signed 32-bit integer: as it is without a hint, as its
    /// bit pattern to the hex or the binary entry point.
    pub fn write_i32(&mut self, v: &i32, spec: &FormatSpec) -> (result: FmtResult)
        ensures
            result is Ok <==> emission(Value::I32(*v), spec.hint()) is Some,
            final(self)@ == written(old(self)@, Value::I32(*v), spec.hint()),
            old(self)@.wf() ==> final(self)@.wf(),
    {
        match spec.get_display_hint() {
            DisplayHint::NoHint => self.log_stream.log_i32(v),
            DisplayHint::LowerHex | DisplayHint::UpperHex => {
                let v_u32 = reinterpret32(*v);
                self.log_stream.log_hex32(&v_u32);
            },
            DisplayHint::Binary => {
                let v_u32 = reinterpret32(*v);
                self.log_stream.log_bin32(&v_u32);
            },
            _ => return Err(FormatError),
        }
        Ok(())
    }

    /// Writes a signed 64-bit integer: as it is without a hint, as its
    /// bit pattern to the hex or the binary entry point.
    pub fn write_i64(&mut self, v: &i64, spec: &FormatSpec) -> (result: FmtResult)
        ensures
            result is Ok <==> emission(Value::I64(*v), spec.hint()) is Some,
            final(self)@ == written(old(self)@, Value::I64(*v), spec.hint()),
            old(self)@.wf() ==> final(self)@.wf(),
    {
        match spec.get_display_hint() {
            DisplayHint::NoHint => self.log_stream.log_i64(v),
            DisplayHint::LowerHex | DisplayHint::UpperHex => {
                let v_u64 = reinterpret64(*v);
                self.log_stream.log_hex64(&v_u64);
            },
            DisplayHint::Binary => {
                let v_u64 = reinterpret64(*v);
                self.log_stream.log_bin64(&v_u64);
            },
            _ => return Err(FormatError),
        }
        Ok(())
    }

    /// Writes an unsigned 8-bit integer to the entry point that its hint
    /// selects.
    pub fn write_u8(&mut self, v: &u8, spec: &FormatSpec) -> (result: FmtResult)
        ensures
            result is Ok <==> emission(Value::U8(*v), spec.hint()) is Some,
            final(self)@ == written(old(self)@, Value::U8(*v), spec.hint()),
            old(self)@.wf() ==> final(self)@.wf(),
    {
        match spec.get_display_hint() {
            DisplayHint::NoHint => self.log_stream.log_u8(v),
            DisplayHint::LowerHex | DisplayHint::UpperHex => self.log_stream.log_hex8(v),
            DisplayHint::Binary => self.log_stream.log_bin8(v),
            _ => return Err(FormatError),
        }
        Ok(())
    }

    /// Writes an unsigned 16-bit integer to the entry point that its hint
    /// selects.
    pub fn write_u16(&mut self, v: &u16, spec: &FormatSpec) -> (result: FmtResult)
        ensures
            result is Ok <==> emission(Value::U16(*v), spec.hint()) is Some,
            final(self)@ == written(old(self)@, Value::U16(*v), spec.hint()),
            old(self)@.wf() ==> final(self)@.wf(),
    {
        match spec.get_display_hint() {
            DisplayHint::NoHint => self.log_stream.log_u16(v),
            DisplayHint::LowerHex | DisplayHint::UpperHex => self.log_stream.log_hex16(v),
            DisplayHint::Binary => self.log_stream.log_bin16(v),
            _ => return Err(FormatError),
        }
        Ok(())
    }

    /// Writes an unsigned 32-bit integer to the entry point that its hint
    /// selects.
    pub fn write_u32(&mut self, v: &u32, spec: &FormatSpec) -> (result: FmtResult)
        ensures
            result is Ok <==> emission(Value::U32(*v), spec.hint()) is Some,
            final(self)@ == written(old(self)@, Value::U32(*v), spec.hint()),
            old(self)@.wf() ==> final(self)@.wf(),
    {
        match spec.get_display_hint() {
            DisplayHint::NoHint => self.log_stream.log_u32(v),
            DisplayHint::LowerHex | DisplayHint::UpperHex => self.log_stream.log_hex32(v),
            DisplayHint::Binary => self.log_stream.log_bin32(v),
            _ => return Err(FormatError),
        }
        Ok(())
    }

    /// Writes an unsigned 64-bit integer to the entry point that its hint
    /// selects.
    pub fn write_u64(&mut self, v: &u64, spec: &FormatSpec) -> (result: FmtResult)
        ensures
            result is Ok <==> emission(Value::U64(*v), spec.hint()) is Some,
            final(self)@ == written(old(self)@, Value::U64(*v), spec.hint()),
            old(self)@.wf() ==> final(self)@.wf(),
    {
        match spec.get_display_hint() {
            DisplayHint::NoHint => self.log_stream.log_u64(v),
            DisplayHint::LowerHex | DisplayHint::UpperHex => self.log_stream.log_hex64(v),
            DisplayHint::Binary => self.log_stream.log_bin64(v),
            _ => return Err(FormatError),
        }
        Ok(())
    }

    /// Writes an ASCII string. The hint is not looked at.
    pub fn write_str(&mut self, v: &str, _spec: &FormatSpec) -> (result: FmtResult)
        requires
            v.is_ascii(),
        ensures
            result is Ok,
            final(self)@ == old(self)@.emit(Call::Str(v.spec_bytes())),
            old(self)@.wf() ==> final(self)@.wf(),
    {
        self.log_stream.log_string(v);
        Ok(())
    }

    /// Writes a value of any of the primitive types, by the function for
    /// its type.
    ///
    /// A failure concerns this value alone: nothing was handed to the
    /// engine for it, and the record goes on.
    pub fn write_value(&mut self, value: &Value, spec: &FormatSpec) -> (result: FmtResult)
        requires
            value.is_ascii(),
        ensures
            result is Ok <==> emission(*value, spec.hint()) is Some,
            final(self)@ == written(old(self)@, *value, spec.hint()),
            old(self)@.wf() ==> final(self)@.wf(),
    {
        match value {
            Value::Bool(v) => self.write_bool(v, spec),
            Value::F32(v) => self.write_f32(v, spec),
            Value::F64(v) => self.write_f64(v, spec),
            Value::Str(v) => self.write_str(v.as_str(), spec),
            Value::I8(v) => self.write_i8(v, spec),
            Value::I16(v) => self.write_i16(v, spec),
            Value::I32(v) => self.write_i32(v, spec),
            Value::I64(v) => self.write_i64(v, spec),
            Value::U8(v) => self.write_u8(v, spec),
            Value::U16(v) => self.write_u16(v, spec),
            Value::U32(v) => self.write_u32(v, spec),
            Value::U64(v) => self.write_u64(v, spec),
        }
    }

    /// Whether values still reach the engine.
    pub fn is_active(&self) -> (active: bool)
        ensures
            active == (self@.state is Active),
    {
        self.log_stream.is_active()
    }

    /// Every call made into the engine so far, in order.
    pub fn calls(&self) -> (calls: &Vec<EngineCall>)
        ensures
            crate::engine::calls_view(calls@) == self@.trace,
    {
        self.log_stream.calls()
    }

    /// Lets go of the slot; see [`LogStream::release`].
    pub fn release(&mut self)
        ensures
            final(self)@ == old(self)@.release(),
            old(self)@.wf() ==> final(self)@.wf(),
    {
        self.log_stream.release();
    }

    /// Ends the record: lets go of the slot and hands out the stream with
    /// all its calls.
    pub fn finish(self) -> (log_stream: LogStream)
        ensures
            log_stream@ == self@.release(),
            self@.wf() ==> log_stream@.wf(),
    {
        let mut log_stream = self.log_stream;
        log_stream.release();
        log_stream
    }
}

/// A signed integer under a hex or binary hint comes to the very call that
/// the unsigned integer with the same bits comes to; without a hint it is
/// handed over as the signed value it is.
pub proof fn lemma_signed_goes_by_its_bits(v8: i8, v16: i16, v32: i32, v64: i64, hint: DisplayHint)
    requires
        hint is LowerHex || hint is UpperHex || hint is Binary,
    ensures
        emission(Value::I8(v8), hint) == emission(Value::U8(bits8(v8)), hint),
        emission(Value::I16(v16), hint) == emission(Value::U16(bits16(v16)), hint),
        emission(Value::I32(v32), hint) == emission(Value::U32(bits32(v32)), hint),
        emission(Value::I64(v64), hint) == emission(Value::U64(bits64(v64)), hint),
        emission(Value::I8(v8), DisplayHint::NoHint) == Some(Call::I8(v8)),
        emission(Value::I16(v16), DisplayHint::NoHint) == Some(Call::I16(v16)),
        emission(Value::I32(v32), DisplayHint::NoHint) == Some(Call::I32(v32)),
        emission(Value::I64(v64), DisplayHint::NoHint) == Some(Call::I64(v64)),
{
}

/// Reading a signed integer as unsigned keeps every bit: the result is the
/// integer cut to its own width, reading it as signed again gives the
/// integer back, and an integer that is not negative stays what it is.
pub proof fn lemma_bits_are_kept(v8: i8, v16: i16, v32: i32, v64: i64)
    ensures
        bits8(v8) == v8 as u8 && bits8(v8) as i8 == v8,
        bits16(v16) == v16 as u16 && bits16(v16) as i16 == v16,
        bits32(v32) == v32 as u32 && bits32(v32) as i32 == v32,
        bits64(v64) == v64 as u64 && bits64(v64) as i64 == v64,
        v8 >= 0 ==> bits8(v8) == v8,
        v16 >= 0 ==> bits16(v16) == v16,
        v32 >= 0 ==> bits32(v32) == v32,
        v64 >= 0 ==> bits64(v64) == v64,
{
    assert(bits8(v8) == v8 as u8 && bits8(v8) as i8 == v8) by (bit_vector);
    assert(bits16(v16) == v16 as u16 && bits16(v16) as i16 == v16) by (bit_vector);
    assert(bits32(v32) == v32 as u32 && bits32(v32) as i32 == v32) by (bit_vector);
    assert(bits64(v64) == v64 as u64 && bits64(v64) as i64 == v64) by (bit_vector);
}

} // verus!
