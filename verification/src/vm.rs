//! The execution loop.
//!
//! The machine walks the program with a program counter. Whatever needs the
//! world outside (output, a transaction record, a chain query) is handed to
//! the host as an event: the run stops, the host does the work, and the run
//! is resumed at the counter that the report names.

use crate::error::VmError;
use crate::instruction::Instruction;
use crate::instruction::InstructionView;
use crate::instruction::Stream;
use crate::math::computed;
use crate::math::execute_math_operation;
use crate::math::number_at;
use crate::math::read_number;
use crate::ops::append_buffer;
use crate::ops::appended;
use crate::ops::block_index_of;
use crate::ops::constant_set;
use crate::ops::copied;
use crate::ops::copy_buffer;
use crate::ops::freed;
use crate::ops::initialized;
use crate::ops::output_of;
use crate::ops::read_block_query;
use crate::ops::read_transaction;
use crate::ops::reply_stored;
use crate::ops::set_constant;
use crate::ops::shift_buffer_left;
use crate::ops::shift_buffer_right;
use crate::ops::shifted_left;
use crate::ops::shifted_right;
use crate::ops::slice_buffer;
use crate::ops::sliced;
use crate::ops::status_written;
use crate::ops::store_reply;
use crate::ops::transaction_of;
use crate::ops::write_status;
use crate::signal::local_signal;
use crate::signal::raise_local;
use crate::signal::route_signal;
use crate::signal::routed;
use crate::signal::Raised;
use crate::signal::vm_access_buffer;
use crate::signal::vm_check_buffer_initialization;
use crate::signal::vm_throw_global_error;
use crate::signal::vm_throw_local_error;
use crate::signal::Signal;
use crate::store::BufferStore;
use crate::store::Store;
use vstd::prelude::*;

verus! {

/// The name of the only block property that a chain query can ask for.
pub const HASH_PROPERTY: &'static str = "hash";

/// The name of the hash property, as a sequence of characters.
pub open spec fn hash_property() -> Seq<char> {
    HASH_PROPERTY@
}

/// Why the machine stopped, and what the host has to do about it.
#[derive(Clone, Debug, PartialEq, Eq)]
pub enum Event {
    /// The run is over. `code` is the operand of the `Exit` instruction, or
    /// `0` when the counter ran past the last instruction.
    Exit { code: i64 },
    /// `bytes` are to be written to `stream`.
    Output { stream: Stream, bytes: Vec<u8> },
    /// A transaction is to be recorded.
    Transaction { sender: String, receiver: String, amount: String },
    /// The block property `property` of block `index` is to be looked up.
    /// The answer goes to `resume_vm` together with `result` and `err`.
    BlockQuery { index: i64, property: String, result: String, err: String },
    /// An error could not be signalled: neither the designated flag nor the
    /// global flag exists. The host has to create the global flag before it
    /// starts a run.
    Fault,
    /// The step budget is used up.
    ResourceExhausted,
}

/// The mathematical model of an `Event`.
pub enum EventView {
    Exit { code: i64 },
    Output { stream: Stream, bytes: Seq<u8> },
    Transaction { sender: Seq<char>, receiver: Seq<char>, amount: Seq<char> },
    BlockQuery { index: i64, property: Seq<char>, result: Seq<char>, err: Seq<char> },
    Fault,
    ResourceExhausted,
}

impl View for Event {
    type V = EventView;

    open spec fn view(&self) -> EventView {
        match *self {
            Event::Exit { code } => EventView::Exit { code },
            Event::Output { stream, bytes } => EventView::Output { stream, bytes: bytes@ },
            Event::Transaction { sender, receiver, amount } => EventView::Transaction {
                sender: sender@,
                receiver: receiver@,
                amount: amount@,
            },
            Event::BlockQuery { index, property, result, err } => EventView::BlockQuery {
                index,
                property: property@,
                result: result@,
                err: err@,
            },
            Event::Fault => EventView::Fault,
            Event::ResourceExhausted => EventView::ResourceExhausted,
        }
    }
}

/// The model of an event that may be absent.
pub open spec fn event_view(event: Option<Event>) -> Option<EventView> {
    match event {
        Some(e) => Some(e@),
        None => None,
    }
}

/// What one instruction did.
#[derive(Clone, Debug, PartialEq, Eq)]
pub struct Step {
    /// The counter at which the run goes on.
    pub pc: usize,
    /// The error that the instruction signalled, if any.
    pub raised: Option<VmError>,
    /// What stops the run after this instruction, if anything does.
    pub event: Option<Event>,
}

/// The mathematical model of a `Step`.
pub struct StepView {
    pub pc: int,
    pub raised: Option<VmError>,
    pub event: Option<EventView>,
}

impl View for Step {
    type V = StepView;

    open spec fn view(&self) -> StepView {
        StepView { pc: self.pc as int, raised: self.raised, event: event_view(self.event) }
    }
}

/// How a run ended or was interrupted.
#[derive(Clone, Debug, PartialEq, Eq)]
pub struct RunReport {
    /// The counter at which the run can be resumed.
    pub pc: usize,
    /// What is left of the step budget.
    pub fuel: u64,
    /// Why the run stopped.
    pub event: Event,
}

/// The mathematical model of a `RunReport`.
pub struct RunView {
    pub pc: int,
    pub fuel: nat,
    pub event: EventView,
}

impl View for RunReport {
    type V = RunView;

    open spec fn view(&self) -> RunView {
        RunView { pc: self.pc as int, fuel: self.fuel as nat, event: self.event@ }
    }
}

/// The outcome of an instruction that only changes the store: the run goes
/// on with the next instruction.
pub open spec fn advance(next: Result<Store, VmError>, pc: int) -> Result<
    (Store, int, Option<EventView>),
    VmError,
> {
    match next {
        Ok(store) => Ok((store, pc + 1, None)),
        Err(e) => Err(e),
    }
}

/// The counter after a jump to `target` in a program of `len` instructions.
/// A target up to `len` is in range; `len` itself ends the run.
pub open spec fn jump(store: Store, target: usize, len: int) -> Result<
    (Store, int, Option<EventView>),
    VmError,
> {
    if target <= len {
        Ok((store, target as int, None))
    } else {
        Err(VmError::IndexOutOfRange)
    }
}

/// What the instruction at counter `pc` does when nothing is wrong: the
/// store after it, the next counter and the event for the host. Otherwise
/// the error that it signals.
pub open spec fn attempted(instr: InstructionView, store: Store, pc: int, len: int) -> Result<
    (Store, int, Option<EventView>),
    VmError,
> {
    match instr {
        InstructionView::Exit { code } => Ok((store, pc, Some(EventView::Exit { code }))),
        InstructionView::InitBfr { id, err } => advance(initialized(store, id), pc),
        InstructionView::CpyBfr { src, dst, err } => advance(copied(store, src, dst), pc),
        InstructionView::FreeBfr { id, err } => advance(freed(store, id), pc),
        InstructionView::BfrStat { id, dst } => advance(status_written(store, id, dst), pc),
        InstructionView::Math { op, a, b, res, err } => advance(
            computed(op, store, a, b, res),
            pc,
        ),
        InstructionView::App { dst, src, err } => advance(appended(store, dst, src), pc),
        InstructionView::Slice { buf, start, end, err } => advance(
            sliced(store, buf, start, end),
            pc,
        ),
        InstructionView::Shiftl { buf, amount, err } => advance(
            shifted_left(store, buf, amount),
            pc,
        ),
        InstructionView::Shiftr { buf, amount, err } => advance(
            shifted_right(store, buf, amount),
            pc,
        ),
        InstructionView::Jmp { target } => jump(store, target, len),
        InstructionView::JmpCond { cond, target, err } => match number_at(store, cond) {
            Err(e) => Err(e),
            Ok(value) => if value == 0 {
                Ok((store, pc + 1, None))
            } else {
                jump(store, target, len)
            },
        },
        InstructionView::Stdout { buf, err } => match output_of(store, buf) {
            Err(e) => Err(e),
            Ok(bytes) => Ok(
                (store, pc + 1, Some(EventView::Output { stream: Stream::Stdout, bytes })),
            ),
        },
        InstructionView::Stderr { buf, err } => match output_of(store, buf) {
            Err(e) => Err(e),
            Ok(bytes) => Ok(
                (store, pc + 1, Some(EventView::Output { stream: Stream::Stderr, bytes })),
            ),
        },
        InstructionView::SetCnst { buf, hex, err } => advance(constant_set(store, buf, hex), pc),
        InstructionView::Tx { sender, receiver, amount, err } => match transaction_of(
            store,
            sender,
            receiver,
            amount,
        ) {
            Err(e) => Err(e),
            Ok(texts) => Ok(
                (
                    store,
                    pc + 1,
                    Some(
                        EventView::Transaction {
                            sender: texts.0,
                            receiver: texts.1,
                            amount: texts.2,
                        },
                    ),
                ),
            ),
        },
        InstructionView::GetNthBlk { index, property, result, err } => match block_index_of(
            store,
            index,
            property,
            result,
        ) {
            Err(e) => Err(e),
            Ok(block) => Ok(
                (
                    store,
                    pc + 1,
                    Some(
                        EventView::BlockQuery {
                            index: block,
                            property: hash_property(),
                            result: result,
                            err: err,
                        },
                    ),
                ),
            ),
        },
        InstructionView::Unknown => Err(VmError::UnknownOpcode),
    }
}

/// What the instruction at counter `pc` does to the store, and the step that
/// it reports.
///
/// An instruction that fails changes no buffer but a flag: the error is
/// signalled on the flag that the instruction designates, the counter moves
/// to the next instruction, and the run stops with `Fault` only when the
/// signal could not be delivered.
pub open spec fn executed(instr: InstructionView, store: Store, pc: int, len: int) -> (
    Store,
    StepView,
) {
    match attempted(instr, store, pc, len) {
        Ok(done) => (done.0, StepView { pc: done.1, raised: None, event: done.2 }),
        Err(error) => (
            routed(store, instr.flag()),
            StepView {
                pc: pc + 1,
                raised: Some(error),
                event: if route_signal(store, instr.flag()) == Signal::Undelivered {
                    Some(EventView::Fault)
                } else {
                    None
                },
            },
        ),
    }
}

/// One step of the machine. A counter outside the program ends the run with
/// exit code `0`.
pub open spec fn step(program: Seq<Instruction>, store: Store, pc: int) -> (Store, StepView) {
    if 0 <= pc < program.len() {
        executed(program[pc]@, store, pc, program.len() as int)
    } else {
        (store, StepView { pc, raised: None, event: Some(EventView::Exit { code: 0 }) })
    }
}

/// A run of at most `fuel` steps from counter `pc`: the store when it stops
/// and the report that it gives.
pub open spec fn run(program: Seq<Instruction>, store: Store, pc: int, fuel: nat) -> (
    Store,
    RunView,
)
    decreases fuel,
{
    if !(0 <= pc < program.len()) {
        (store, RunView { pc, fuel, event: EventView::Exit { code: 0 } })
    } else if fuel == 0 {
        (store, RunView { pc, fuel, event: EventView::ResourceExhausted })
    } else {
        let after = step(program, store, pc);
        match after.1.event {
            None => run(program, after.0, after.1.pc, (fuel - 1) as nat),
            Some(event) => (after.0, RunView { pc: after.1.pc, fuel: (fuel - 1) as nat, event }),
        }
    }
}

/// The model of a text that may be absent.
pub open spec fn reply_view(reply: Option<String>) -> Option<Seq<char>> {
    match reply {
        Some(text) => Some(text@),
        None => None,
    }
}

/// A run that goes on, from counter `pc` and with `fuel` steps, after the
/// host has answered a chain query with `reply`.
///
/// The answer is stored in `result` first. When that fails, the error is
/// signalled on `err` and the run goes on all the same; it stops at once
/// with `Fault` only when the signal cannot be delivered.
pub open spec fn resumed(
    program: Seq<Instruction>,
    store: Store,
    pc: int,
    fuel: nat,
    result: Seq<char>,
    err: Seq<char>,
    reply: Option<Seq<char>>,
) -> (Store, RunView) {
    match reply_stored(store, result, reply) {
        Ok(next) => run(program, next, pc, fuel),
        Err(e) => if local_signal(store, err) == Signal::Undelivered {
            (store, RunView { pc, fuel, event: EventView::Fault })
        } else {
            run(program, raise_local(store, err), pc, fuel)
        },
    }
}

/// The model of a flag operand that may be absent.
pub open spec fn flag_view(flag: Option<&String>) -> Option<Seq<char>> {
    match flag {
        Some(id) => Some(id@),
        None => None,
    }
}

/// Signals `error` on `flag`, or globally when the instruction designates no
/// flag.
fn raise(buffers: &mut BufferStore, flag: Option<&String>, error: VmError) -> (raised: Raised)
    ensures
        final(buffers)@ == routed(old(buffers)@, flag_view(flag)),
        raised == (Raised { error, signal: route_signal(old(buffers)@, flag_view(flag)) }),
{
    let signal = match flag {
        Some(id) => vm_throw_local_error(buffers, id.clone()),
        None => vm_throw_global_error(buffers),
    };
    Raised { error, signal }
}

/// Lets the run go on with the next instruction after a change of the store
/// that succeeded, and signals the error of one that failed.
fn settle(
    buffers: &mut BufferStore,
    done: Result<(), VmError>,
    flag: Option<&String>,
    pc: usize,
) -> (r: Result<(usize, Option<Event>), Raised>)
    requires
        pc < usize::MAX,
    ensures
        match done {
            Ok(_) => r == Ok::<(usize, Option<Event>), Raised>(((pc + 1) as usize, None))
                && final(buffers)@ == old(buffers)@,
            Err(e) => r == Err::<(usize, Option<Event>), Raised>(
                Raised { error: e, signal: route_signal(old(buffers)@, flag_view(flag)) },
            ) && final(buffers)@ == routed(old(buffers)@, flag_view(flag)),
        },
{
    match done {
        Ok(_) => Ok((pc + 1, None)),
        Err(e) => Err(raise(buffers, flag, e)),
    }
}

/// Moves the counter to `target`, or signals that the target lies outside
/// the program: on `flag`, or globally when the instruction designates none.
fn jump_to(buffers: &mut BufferStore, target: usize, len: usize, flag: Option<&String>) -> (r:
    Result<(usize, Option<Event>), Raised>)
    ensures
        match jump(old(buffers)@, target, len as int) {
            Ok(done) => r == Ok::<(usize, Option<Event>), Raised>((target, None))
                && final(buffers)@ == old(buffers)@,
            Err(e) => r == Err::<(usize, Option<Event>), Raised>(
                Raised { error: e, signal: route_signal(old(buffers)@, flag_view(flag)) },
            ) && final(buffers)@ == routed(old(buffers)@, flag_view(flag)),
        },
{
    if target <= len {
        Ok((target, None))
    } else {
        Err(raise(buffers, flag, VmError::IndexOutOfRange))
    }
}

/// Carries out the instruction at counter `pc` of a program of `len`
/// instructions.
fn dispatch(instr: &Instruction, buffers: &mut BufferStore, pc: usize, len: usize) -> (r: Result<
    (usize, Option<Event>),
    Raised,
>)
    requires
        pc < len,
    ensures
        match attempted(instr@, old(buffers)@, pc as int, len as int) {
            Ok(done) => r matches Ok(out) && final(buffers)@ == done.0 && out.0 == done.1
                && event_view(out.1) == done.2,
            Err(e) => r matches Err(raised) && raised.error == e && raised.signal == route_signal(
                old(buffers)@,
                instr@.flag(),
            ) && final(buffers)@ == routed(old(buffers)@, instr@.flag()),
        },
{
    match instr {
        Instruction::Exit { code } => {
            return Ok((pc, Some(Event::Exit { code: *code })));
        },
        Instruction::InitBfr { id, err } => {
            let done = buffers.initialize(id.as_str());
            return settle(buffers, done, Some(err), pc);
        },
        Instruction::CpyBfr { src, dst, err } => {
            let done = copy_buffer(buffers, src.as_str(), dst.as_str());
            return settle(buffers, done, Some(err), pc);
        },
        Instruction::FreeBfr { id, err } => {
            let done = buffers.free(id.as_str());
            return settle(buffers, done, Some(err), pc);
        },
        Instruction::BfrStat { id, dst } => {
            let present = vm_check_buffer_initialization(buffers, id.clone());
            let done = write_status(buffers, present, dst.as_str());
            return settle(buffers, done, None, pc);
        },
        Instruction::Math { op, a, b, res, err } => {
            let done = execute_math_operation(
                *op,
                buffers,
                a.clone(),
                b.clone(),
                res.clone(),
                err.clone(),
            );
            match done {
                Ok(_) => {
                    return Ok((pc + 1, None));
                },
                Err(raised) => {
                    return Err(raised);
                },
            }
        },
        Instruction::App { dst, src, err } => {
            let done = append_buffer(buffers, dst.as_str(), src.as_str());
            return settle(buffers, done, Some(err), pc);
        },
        Instruction::Slice { buf, start, end, err } => {
            let done = slice_buffer(buffers, buf.as_str(), start.as_str(), end.as_str());
            return settle(buffers, done, Some(err), pc);
        },
        Instruction::Shiftl { buf, amount, err } => {
            let done = shift_buffer_left(buffers, buf.as_str(), amount.as_str());
            return settle(buffers, done, Some(err), pc);
        },
        Instruction::Shiftr { buf, amount, err } => {
            let done = shift_buffer_right(buffers, buf.as_str(), amount.as_str());
            return settle(buffers, done, Some(err), pc);
        },
        Instruction::Jmp { target } => {
            return jump_to(buffers, *target, len, None);
        },
        Instruction::JmpCond { cond, target, err } => {
            match read_number(buffers, cond.as_str()) {
                Err(e) => {
                    return Err(raise(buffers, Some(err), e));
                },
                Ok(value) => {
                    if value == 0 {
                        return Ok((pc + 1, None));
                    } else {
                        return jump_to(buffers, *target, len, Some(err));
                    }
                },
            }
        },
        Instruction::Stdout { buf, err } => {
            match vm_access_buffer(buffers, buf.clone(), err.clone()) {
                Ok(bytes) => {
                    return Ok((pc + 1, Some(Event::Output { stream: Stream::Stdout, bytes })));
                },
                Err(signal) => {
                    return Err(Raised { error: VmError::NotInitialized, signal });
                },
            }
        },
        Instruction::Stderr { buf, err } => {
            match vm_access_buffer(buffers, buf.clone(), err.clone()) {
                Ok(bytes) => {
                    return Ok((pc + 1, Some(Event::Output { stream: Stream::Stderr, bytes })));
                },
                Err(signal) => {
                    return Err(Raised { error: VmError::NotInitialized, signal });
                },
            }
        },
        Instruction::SetCnst { buf, hex, err } => {
            let done = set_constant(buffers, buf.as_str(), hex.as_str());
            return settle(buffers, done, Some(err), pc);
        },
        Instruction::Tx { sender, receiver, amount, err } => {
            match read_transaction(buffers, sender.as_str(), receiver.as_str(), amount.as_str()) {
                Ok(texts) => {
                    let event = Event::Transaction {
                        sender: texts.0,
                        receiver: texts.1,
                        amount: texts.2,
                    };
                    return Ok((pc + 1, Some(event)));
                },
                Err(e) => {
                    return Err(raise(buffers, Some(err), e));
                },
            }
        },
        Instruction::GetNthBlk { index, property, result, err } => {
            match read_block_query(buffers, index.as_str(), property.as_str(), result.as_str()) {
                Ok(block) => {
                    let event = Event::BlockQuery {
                        index: block,
                        property: HASH_PROPERTY.to_owned(),
                        result: result.clone(),
                        err: err.clone(),
                    };
                    return Ok((pc + 1, Some(event)));
                },
                Err(e) => {
                    return Err(raise(buffers, Some(err), e));
                },
            }
        },
        Instruction::Unknown => {
            return Err(raise(buffers, None, VmError::UnknownOpcode));
        },
    }
}

/// Executes the instruction at counter `pc`, if there is one.
pub fn vm_step(program: &Vec<Instruction>, buffers: &mut BufferStore, pc: usize) -> (report: Step)
    ensures
        final(buffers)@ == step(program@, old(buffers)@, pc as int).0,
        report@ == step(program@, old(buffers)@, pc as int).1,
{
    if pc >= program.len() {
        return Step { pc, raised: None, event: Some(Event::Exit { code: 0 }) };
    }
    match dispatch(&program[pc], buffers, pc, program.len()) {
        Ok(out) => Step { pc: out.0, raised: None, event: out.1 },
        Err(raised) => Step {
            pc: pc + 1,
            raised: Some(raised.error),
            event: match raised.signal {
                Signal::Undelivered => Some(Event::Fault),
                _ => None,
            },
        },
    }
}

/// Runs `program` from counter `start` for at most `fuel` steps.
///
/// The run stops when the counter leaves the program or an `Exit`
/// instruction is executed, when an instruction needs the host, when the
/// budget is used up, and when an error cannot be signalled. A first run
/// starts at counter `0`; after an event that the host has dealt with, the
/// run is resumed at the counter and with the fuel that the report names.
pub fn run_vm(program: &Vec<Instruction>, buffers: &mut BufferStore, start: usize, fuel: u64) -> (
    report: RunReport
)
    ensures
        final(buffers)@ == run(program@, old(buffers)@, start as int, fuel as nat).0,
        report@ == run(program@, old(buffers)@, start as int, fuel as nat).1,
{
    let mut pc: usize = start;
    let mut left: u64 = fuel;
    loop
        invariant
            run(program@, buffers@, pc as int, left as nat) == run(
                program@,
                old(buffers)@,
                start as int,
                fuel as nat,
            ),
        decreases left,
    {
        if pc >= program.len() {
            return RunReport { pc, fuel: left, event: Event::Exit { code: 0 } };
        }
        if left == 0 {
            return RunReport { pc, fuel: left, event: Event::ResourceExhausted };
        }
        let report = vm_step(program, buffers, pc);
        left = left - 1;
        match report.event {
            Some(event) => {
                return RunReport { pc: report.pc, fuel: left, event };
            },
            None => {
                pc = report.pc;
            },
        }
    }
}

/// Hands the answer to a chain query to the machine: the text goes to buffer
/// `result` as UTF-8 bytes. When the host has no answer, or `result` is gone,
/// the error is signalled on `err` and no other buffer changes.
pub fn deliver_block_property(
    buffers: &mut BufferStore,
    result: String,
    err: String,
    reply: Option<String>,
) -> (r: Result<(), Raised>)
    ensures
        match reply_stored(old(buffers)@, result@, reply_view(reply)) {
            Ok(next) => r == Ok::<(), Raised>(()) && final(buffers)@ == next,
            Err(e) => r == Err::<(), Raised>(
                Raised { error: e, signal: local_signal(old(buffers)@, err@) },
            ) && final(buffers)@ == raise_local(old(buffers)@, err@),
        },
{
    match store_reply(buffers, result.as_str(), reply) {
        Ok(_) => Ok(()),
        Err(error) => {
            let signal = vm_throw_local_error(buffers, err);
            Err(Raised { error, signal })
        },
    }
}

/// Goes on with a run that stopped for a chain query: hands the host's
/// `reply` to the machine, then runs `program` from counter `start` for at
/// most `fuel` steps. `start` and `fuel` are those of the report that held
/// the query, `result` and `err` those of the query itself.
pub fn resume_vm(
    program: &Vec<Instruction>,
    buffers: &mut BufferStore,
    start: usize,
    fuel: u64,
    result: String,
    err: String,
    reply: Option<String>,
) -> (report: RunReport)
    ensures
        final(buffers)@ == resumed(
            program@,
            old(buffers)@,
            start as int,
            fuel as nat,
            result@,
            err@,
            reply_view(reply),
        ).0,
        report@ == resumed(
            program@,
            old(buffers)@,
            start as int,
            fuel as nat,
            result@,
            err@,
            reply_view(reply),
        ).1,
{
    match deliver_block_property(buffers, result, err, reply) {
        Ok(_) => run_vm(program, buffers, start, fuel),
        Err(raised) => match raised.signal {
            Signal::Undelivered => RunReport { pc: start, fuel, event: Event::Fault },
            _ => run_vm(program, buffers, start, fuel),
        },
    }
}

} // verus!
