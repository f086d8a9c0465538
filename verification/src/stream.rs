//! The recording slot: one record in flight inside the engine.

use crate::context::{tag_of, Context};
use crate::engine::{calls_view, Call, EngineCall};
use crate::level::LogLevel;
use vstd::prelude::*;
use vstd::string::{StrSliceExecFns, StringSliceAdditionalSpecFns};

verus! {

/// Where a slot stands.
///
/// A slot comes into being when the engine is asked to start a record. If
/// the engine agrees the slot is `Active`, if it declines the slot is
/// `Absent`. An active slot becomes `Released` when the record is
/// finished. Nothing else ever changes.
#[derive(Clone, Copy, Debug, PartialEq, Eq, Structural, Hash)]
pub enum SlotState {
    Active,
    Absent,
    Released,
}

/// A slot as a mathematical value: its state, and every call that was made
/// into the engine on its behalf, in order.
pub struct Slot {
    pub state: SlotState,
    pub trace: Seq<Call>,
}

impl Slot {
    /// The slot after the engine was asked to start a record and answered
    /// `acquired`.
    pub open spec fn start(context: Seq<u8>, level: LogLevel, acquired: bool) -> Slot {
        Slot {
            state: if acquired {
                SlotState::Active
            } else {
                SlotState::Absent
            },
            trace: seq![Call::Start { context, level }],
        }
    }

    /// The slot after a value was handed to it: an active slot passes it
    /// on to the engine, any other slot drops it.
    pub open spec fn emit(self, call: Call) -> Slot {
        if self.state is Active {
            Slot { state: self.state, trace: self.trace.push(call) }
        } else {
            self
        }
    }

    /// The slot after it was let go: an active slot tells the engine to
    /// finish the record, any other slot does not change.
    pub open spec fn release(self) -> Slot {
        if self.state is Active {
            Slot { state: SlotState::Released, trace: self.trace.push(Call::Stop) }
        } else {
            self
        }
    }

    /// The number of `Stop` calls in a trace.
    pub open spec fn stops(trace: Seq<Call>) -> nat
        decreases trace.len(),
    {
        if trace.len() == 0 {
            0
        } else {
            Self::stops(trace.drop_last()) + if trace.last() is Stop {
                1nat
            } else {
                0nat
            }
        }
    }

    /// The shape of every slot that can come about.
    ///
    /// The trace begins with the one `Start` call. Of an absent slot that
    /// is all. Of an active slot only emissions follow. Of a released slot
    /// emissions follow, and then the one `Stop` call at the end.
    pub open spec fn wf(self) -> bool {
        &&& self.trace.len() >= 1
        &&& self.trace[0] is Start
        &&& match self.state {
            SlotState::Absent => self.trace.len() == 1,
            SlotState::Active => forall|i: int|
                1 <= i < self.trace.len() ==> (#[trigger] self.trace[i]).is_emission(),
            SlotState::Released => {
                &&& self.trace.len() >= 2
                &&& self.trace.last() is Stop
                &&& forall|i: int|
                    1 <= i < self.trace.len() - 1 ==> (#[trigger] self.trace[i]).is_emission()
            },
        }
    }
}

/// The record in flight: the slot of one log statement.
///
/// Every operation is a decision only. What has to be done to the engine
/// is appended to the calls of the stream, see [`LogStream::calls`].
pub struct LogStream {
    state: SlotState,
    calls: Vec<EngineCall>,
}

impl View for LogStream {
    type V = Slot;

    closed spec fn view(&self) -> Slot {
        Slot { state: self.state, trace: calls_view(self.calls@) }
    }
}

impl LogStream {
    /// Takes up the slot of a record for `context` at `log_level`, of which
    /// the engine said `acquired` when it was asked to start it.
    pub fn new(context: &str, log_level: LogLevel, acquired: bool) -> (stream: LogStream)
        requires
            context.is_ascii(),
        ensures
            stream@ == Slot::start(tag_of(context.spec_bytes()), log_level, acquired),
            stream@.wf(),
    {
        let encoded = Context::from(context);
        let mut calls: Vec<EngineCall> = Vec::new();
        calls.push(EngineCall::Start { context: encoded, level: log_level });
        let state = if acquired {
            SlotState::Active
        } else {
            SlotState::Absent
        };
        let stream = LogStream { state, calls };
        assert(stream@.trace =~= seq![
            Call::Start { context: tag_of(context.spec_bytes()), level: log_level },
        ]);
        stream
    }

    /// Where the slot stands.
    pub fn state(&self) -> (state: SlotState)
        ensures
            state == self@.state,
    {
        self.state
    }

    /// Whether values still reach the engine.
    pub fn is_active(&self) -> (active: bool)
        ensures
            active == (self@.state is Active),
    {
        match self.state {
            SlotState::Active => true,
            _ => false,
        }
    }

    /// Every call made into the engine so far, in order.
    pub fn calls(&self) -> (calls: &Vec<EngineCall>)
        ensures
            calls_view(calls@) == self@.trace,
    {
        &self.calls
    }

    /// Hands out every call made into the engine, in order, and ends the
    /// stream.
    pub fn into_calls(self) -> (calls: Vec<EngineCall>)
        ensures
            calls_view(calls@) == self@.trace,
    {
        self.calls
    }

    /// Passes `call` on if the slot is active, and drops it if not.
    fn emit(&mut self, call: EngineCall)
        requires
            call@.is_emission(),
        ensures
            final(self)@ == old(self)@.emit(call@),
            old(self)@.wf() ==> final(self)@.wf(),
    {
        if self.is_active() {
            self.calls.push(call);
            assert(self@.trace =~= old(self)@.trace.push(call@));
        }
    }

    /// Hands a boolean to the plain entry point.
    pub fn log_bool(&mut self, v: &bool)
        ensures
            final(self)@ == old(self)@.emit(Call::Bool(*v)),
            old(self)@.wf() ==> final(self)@.wf(),
    {
        self.emit(EngineCall::Bool(*v));
    }

    /// Hands a 32-bit float, given by its bits, to the plain entry point.
    pub fn log_f32(&mut self, v: &u32)
        ensures
            final(self)@ == old(self)@.emit(Call::F32(*v)),
            old(self)@.wf() ==> final(self)@.wf(),
    {
        self.emit(EngineCall::F32(*v));
    }

    /// Hands a 64-bit float, given by its bits, to the plain entry point.
    pub fn log_f64(&mut self, v: &u64)
        ensures
            final(self)@ == old(self)@.emit(Call::F64(*v)),
            old(self)@.wf() ==> final(self)@.wf(),
    {
        self.emit(EngineCall::F64(*v));
    }

    /// Hands an ASCII string to the engine, as its bytes.
    ///
    /// The engine takes one byte for one character, so the string has to
    /// be ASCII whether or not the slot is active.
    pub fn log_string(&mut self, v: &str)
        requires
            v.is_ascii(),
        ensures
            final(self)@ == old(self)@.emit(Call::Str(v.spec_bytes())),
            old(self)@.wf() ==> final(self)@.wf(),
    {
        if self.is_active() {
            self.emit(EngineCall::Str(v.as_bytes_vec()));
        }
    }

    /// Hands a signed 8-bit integer to the plain entry point.
    pub fn log_i8(&mut self, v: &i8)
        ensures
            final(self)@ == old(self)@.emit(Call::I8(*v)),
            old(self)@.wf() ==> final(self)@.wf(),
    {
        self.emit(EngineCall::I8(*v));
    }

    /// Hands a signed 16-bit integer to the plain entry point.
    pub fn log_i16(&mut self, v: &i16)
        ensures
            final(self)@ == old(self)@.emit(Call::I16(*v)),
            old(self)@.wf() ==> final(self)@.wf(),
    {
        self.emit(EngineCall::I16(*v));
    }

    /// Hands a signed 32-bit integer to the plain entry point.
    pub fn log_i32(&mut self, v: &i32)
        ensures
            final(self)@ == old(self)@.emit(Call::I32(*v)),
            old(self)@.wf() ==> final(self)@.wf(),
    {
        self.emit(EngineCall::I32(*v));
    }

    /// Hands a signed 64-bit integer to the plain entry point.
    pub fn log_i64(&mut self, v: &i64)
        ensures
            final(self)@ == old(self)@.emit(Call::I64(*v)),
            old(self)@.wf() ==> final(self)@.wf(),
    {
        self.emit(EngineCall::I64(*v));
    }

    /// Hands an unsigned 8-bit integer to the plain entry point.
    pub fn log_u8(&mut self, v: &u8)
        ensures
            final(self)@ == old(self)@.emit(Call::U8(*v)),
            old(self)@.wf() ==> final(self)@.wf(),
    {
        self.emit(EngineCall::U8(*v));
    }

    /// Hands an unsigned 16-bit integer to the plain entry point.
    pub fn log_u16(&mut self, v: &u16)
        ensures
            final(self)@ == old(self)@.emit(Call::U16(*v)),
            old(self)@.wf() ==> final(self)@.wf(),
    {
        self.emit(EngineCall::U16(*v));
    }

    /// Hands an unsigned 32-bit integer to the plain entry point.
    pub fn log_u32(&mut self, v: &u32)
        ensures
            final(self)@ == old(self)@.emit(Call::U32(*v)),
            old(self)@.wf() ==> final(self)@.wf(),
    {
        self.emit(EngineCall::U32(*v));
    }

    /// Hands an unsigned 64-bit integer to the plain entry point.
    pub fn log_u64(&mut self, v: &u64)
        ensures
            final(self)@ == old(self)@.emit(Call::U64(*v)),
            old(self)@.wf() ==> final(self)@.wf(),
    {
        self.emit(EngineCall::U64(*v));
    }

    /// Hands 8 bits to the binary entry point.
    pub fn log_bin8(&mut self, v: &u8)
        ensures
            final(self)@ == old(self)@.emit(Call::Bin8(*v)),
            old(self)@.wf() ==> final(self)@.wf(),
    {
        self.emit(EngineCall::Bin8(*v));
    }

    /// Hands 16 bits to the binary entry point.
    pub fn log_bin16(&mut self, v: &u16)
        ensures
            final(self)@ == old(self)@.emit(Call::Bin16(*v)),
            old(self)@.wf() ==> final(self)@.wf(),
    {
        self.emit(EngineCall::Bin16(*v));
    }

    /// Hands 32 bits to the binary entry point.
    pub fn log_bin32(&mut self, v: &u32)
        ensures
            final(self)@ == old(self)@.emit(Call::Bin32(*v)),
            old(self)@.wf() ==> final(self)@.wf(),
    {
        self.emit(EngineCall::Bin32(*v));
    }

    /// Hands 64 bits to the binary entry point.
    pub fn log_bin64(&mut self, v: &u64)
        ensures
            final(self)@ == old(self)@.emit(Call::Bin64(*v)),
            old(self)@.wf() ==> final(self)@.wf(),
    {
        self.emit(EngineCall::Bin64(*v));
    }

    /// Hands 8 bits to the hex entry point.
    pub fn log_hex8(&mut self, v: &u8)
        ensures
            final(self)@ == old(self)@.emit(Call::Hex8(*v)),
            old(self)@.wf() ==> final(self)@.wf(),
    {
        self.emit(EngineCall::Hex8(*v));
    }

    /// Hands 16 bits to the hex entry point.
    pub fn log_hex16(&mut self, v: &u16)
        ensures
            final(self)@ == old(self)@.emit(Call::Hex16(*v)),
            old(self)@.wf() ==> final(self)@.wf(),
    {
        self.emit(EngineCall::Hex16(*v));
    }

    /// Hands 32 bits to the hex entry point.
    pub fn log_hex32(&mut self, v: &u32)
        ensures
            final(self)@ == old(self)@.emit(Call::Hex32(*v)),
            old(self)@.wf() ==> final(self)@.wf(),
    {
        self.emit(EngineCall::Hex32(*v));
    }

    /// Hands 64 bits to the hex entry point.
    pub fn log_hex64(&mut self, v: &u64)
        ensures
            final(self)@ == old(self)@.emit(Call::Hex64(*v)),
            old(self)@.wf() ==> final(self)@.wf(),
    {
        self.emit(EngineCall::Hex64(*v));
    }

    /// Lets go of the slot, as has to happen on every way out of a log
    /// statement.
    ///
    /// An active slot asks the engine to finish the record, and is
    /// released from then on. On a slot that is absent or was released
    /// before, nothing happens: no record is finished twice.
    pub fn release(&mut self)
        ensures
            final(self)@ == old(self)@.release(),
            old(self)@.wf() ==> final(self)@.wf(),
    {
        if self.is_active() {
            self.calls.push(EngineCall::Stop);
            self.state = SlotState::Released;
            assert(self@.trace =~= old(self)@.trace.push(Call::Stop));
        }
    }
}

/// A slot is well formed from its start, whatever the engine answered.
pub proof fn lemma_start_is_wf(context: Seq<u8>, level: LogLevel, acquired: bool)
    ensures
        Slot::start(context, level, acquired).wf(),
        !acquired ==> Slot::start(context, level, acquired).state is Absent,
        acquired ==> Slot::start(context, level, acquired).state is Active,
{
}

/// Emissions and the release keep a slot well formed.
pub proof fn lemma_wf_is_kept(slot: Slot, call: Call)
    requires
        slot.wf(),
        call.is_emission(),
    ensures
        slot.emit(call).wf(),
        slot.release().wf(),
{
}

/// A slot that is not active is inert: whatever is handed to it, and
/// however often it is let go, it stays as it is and no call is made.
pub proof fn lemma_inactive_slot_is_inert(slot: Slot, call: Call)
    requires
        !(slot.state is Active),
    ensures
        slot.emit(call) == slot,
        slot.release() == slot,
{
}

/// A slot that the engine declined never makes a call beyond the request
/// to start, whatever is handed to it afterwards.
pub proof fn lemma_declined_slot_makes_no_call(
    context: Seq<u8>,
    level: LogLevel,
    first: Call,
    second: Call,
)
    ensures
        Slot::start(context, level, false).emit(first).emit(second).release() == Slot::start(
            context,
            level,
            false,
        ),
        Slot::start(context, level, false).trace.len() == 1,
{
}

/// An active slot passes values on in the order in which they arrive.
pub proof fn lemma_emissions_keep_their_order(slot: Slot, first: Call, second: Call)
    requires
        slot.state is Active,
    ensures
        slot.emit(first).emit(second).trace == slot.trace + seq![first, second],
        slot.emit(first).emit(second).release().trace == slot.trace + seq![
            first,
            second,
            Call::Stop,
        ],
{
    assert(slot.emit(first).emit(second).trace =~= slot.trace + seq![first, second]);
    assert(slot.emit(first).emit(second).release().trace =~= slot.trace + seq![
        first,
        second,
        Call::Stop,
    ]);
}

/// Letting go a second time changes nothing.
pub proof fn lemma_release_is_idempotent(slot: Slot)
    ensures
        slot.release().release() == slot.release(),
        !(slot.release().state is Active),
{
}

/// A trace without a `Stop` call counts no stops.
proof fn lemma_no_stop_counts_zero(trace: Seq<Call>)
    requires
        forall|i: int| 0 <= i < trace.len() ==> !(#[trigger] trace[i] is Stop),
    ensures
        Slot::stops(trace) == 0,
    decreases trace.len(),
{
    if trace.len() > 0 {
        lemma_no_stop_counts_zero(trace.drop_last());
    }
}

/// The engine is told to finish a record exactly once if the slot was
/// released, and never otherwise; the `Stop` call is then the last call.
pub proof fn lemma_released_exactly_once(slot: Slot)
    requires
        slot.wf(),
    ensures
        Slot::stops(slot.trace) == if slot.state is Released {
            1nat
        } else {
            0nat
        },
        slot.state is Released ==> slot.trace.last() is Stop,
        Slot::stops(slot.release().trace) == if slot.state is Absent {
            0nat
        } else {
            1nat
        },
{
    match slot.state {
        SlotState::Released => {
            lemma_no_stop_counts_zero(slot.trace.drop_last());
        },
        SlotState::Absent => {
            lemma_no_stop_counts_zero(slot.trace);
        },
        SlotState::Active => {
            lemma_no_stop_counts_zero(slot.trace);
            assert(slot.release().trace.drop_last() =~= slot.trace);
        },
    }
}

} // verus!
