//! The instruction set.

use crate::math::MathOp;
use vstd::prelude::*;

verus! {

/// The two output streams of the host.
#[derive(Clone, Copy, Debug, PartialEq, Eq, Structural)]
pub enum Stream {
    Stdout,
    Stderr,
}

/// One instruction: an opcode with the operands it uses.
///
/// A string operand is a buffer identifier, except for the hexadecimal
/// literal of `SetCnst`. An operand named `err` designates the flag buffer on
/// which a failure of the instruction is signalled; an instruction without
/// one signals on the global flag.
#[derive(Clone, Debug, PartialEq, Eq)]
pub enum Instruction {
    /// Ends the run with `code`.
    Exit { code: i64 },
    /// Creates the empty buffer `id`.
    InitBfr { id: String, err: String },
    /// Replaces the contents of `dst` by a copy of those of `src`.
    CpyBfr { src: String, dst: String, err: String },
    /// Removes the buffer `id`.
    FreeBfr { id: String, err: String },
    /// Writes the byte `1` to `dst` when `id` names a buffer, else `0`.
    BfrStat { id: String, dst: String },
    /// Stores in `res` the result of `op` on the numbers in `a` and `b`. An
    /// operation that takes one operand neither needs nor reads `b`.
    Math { op: MathOp, a: String, b: String, res: String, err: String },
    /// Appends the contents of `src` to `dst`.
    App { dst: String, src: String, err: String },
    /// Keeps of `buf` the bytes between the bounds held by `start` and `end`.
    Slice { buf: String, start: String, end: String, err: String },
    /// Drops the last bytes of `buf`, as many as `amount` holds, and appends
    /// as many zero bytes.
    Shiftl { buf: String, amount: String, err: String },
    /// Drops the first bytes of `buf`, as many as `amount` holds, and
    /// prepends as many zero bytes.
    Shiftr { buf: String, amount: String, err: String },
    /// Continues at instruction `target`.
    Jmp { target: usize },
    /// Continues at instruction `target` when `cond` holds a number other
    /// than zero.
    JmpCond { cond: String, target: usize, err: String },
    /// Hands the contents of `buf` to the host for its standard output.
    Stdout { buf: String, err: String },
    /// Hands the contents of `buf` to the host for its standard error.
    Stderr { buf: String, err: String },
    /// Replaces the contents of `buf` by the bytes of the literal `hex`.
    SetCnst { buf: String, hex: String, err: String },
    /// Hands a transaction to the host: three buffers read as text.
    Tx { sender: String, receiver: String, amount: String, err: String },
    /// Asks the host for a property of a block of the chain and stores the
    /// answer in `result`.
    GetNthBlk { index: String, property: String, result: String, err: String },
    /// An opcode outside the instruction set.
    Unknown,
}

/// The mathematical model of an `Instruction`: the same opcodes, with
/// sequences of characters for operands.
pub enum InstructionView {
    Exit { code: i64 },
    InitBfr { id: Seq<char>, err: Seq<char> },
    CpyBfr { src: Seq<char>, dst: Seq<char>, err: Seq<char> },
    FreeBfr { id: Seq<char>, err: Seq<char> },
    BfrStat { id: Seq<char>, dst: Seq<char> },
    Math { op: MathOp, a: Seq<char>, b: Seq<char>, res: Seq<char>, err: Seq<char> },
    App { dst: Seq<char>, src: Seq<char>, err: Seq<char> },
    Slice { buf: Seq<char>, start: Seq<char>, end: Seq<char>, err: Seq<char> },
    Shiftl { buf: Seq<char>, amount: Seq<char>, err: Seq<char> },
    Shiftr { buf: Seq<char>, amount: Seq<char>, err: Seq<char> },
    Jmp { target: usize },
    JmpCond { cond: Seq<char>, target: usize, err: Seq<char> },
    Stdout { buf: Seq<char>, err: Seq<char> },
    Stderr { buf: Seq<char>, err: Seq<char> },
    SetCnst { buf: Seq<char>, hex: Seq<char>, err: Seq<char> },
    Tx { sender: Seq<char>, receiver: Seq<char>, amount: Seq<char>, err: Seq<char> },
    GetNthBlk { index: Seq<char>, property: Seq<char>, result: Seq<char>, err: Seq<char> },
    Unknown,
}

impl View for Instruction {
    type V = InstructionView;

    open spec fn view(&self) -> InstructionView {
        match *self {
            Instruction::Exit { code } => InstructionView::Exit { code },
            Instruction::InitBfr { id, err } => InstructionView::InitBfr { id: id@, err: err@ },
            Instruction::CpyBfr { src, dst, err } => InstructionView::CpyBfr {
                src: src@,
                dst: dst@,
                err: err@,
            },
            Instruction::FreeBfr { id, err } => InstructionView::FreeBfr { id: id@, err: err@ },
            Instruction::BfrStat { id, dst } => InstructionView::BfrStat { id: id@, dst: dst@ },
            Instruction::Math { op, a, b, res, err } => InstructionView::Math {
                op,
                a: a@,
                b: b@,
                res: res@,
                err: err@,
            },
            Instruction::App { dst, src, err } => InstructionView::App {
                dst: dst@,
                src: src@,
                err: err@,
            },
            Instruction::Slice { buf, start, end, err } => InstructionView::Slice {
                buf: buf@,
                start: start@,
                end: end@,
                err: err@,
            },
            Instruction::Shiftl { buf, amount, err } => InstructionView::Shiftl {
                buf: buf@,
                amount: amount@,
                err: err@,
            },
            Instruction::Shiftr { buf, amount, err } => InstructionView::Shiftr {
                buf: buf@,
                amount: amount@,
                err: err@,
            },
            Instruction::Jmp { target } => InstructionView::Jmp { target },
            Instruction::JmpCond { cond, target, err } => InstructionView::JmpCond {
                cond: cond@,
                target,
                err: err@,
            },
            Instruction::Stdout { buf, err } => InstructionView::Stdout { buf: buf@, err: err@ },
            Instruction::Stderr { buf, err } => InstructionView::Stderr { buf: buf@, err: err@ },
            Instruction::SetCnst { buf, hex, err } => InstructionView::SetCnst {
                buf: buf@,
                hex: hex@,
                err: err@,
            },
            Instruction::Tx { sender, receiver, amount, err } => InstructionView::Tx {
                sender: sender@,
                receiver: receiver@,
                amount: amount@,
                err: err@,
            },
            Instruction::GetNthBlk { index, property, result, err } => InstructionView::GetNthBlk {
                index: index@,
                property: property@,
                result: result@,
                err: err@,
            },
            Instruction::Unknown => InstructionView::Unknown,
        }
    }
}

impl InstructionView {
    /// The flag buffer that the instruction designates for its failures.
    pub open spec fn flag(self) -> Option<Seq<char>> {
        match self {
            InstructionView::Exit { .. } => None,
            InstructionView::InitBfr { err, .. } => Some(err),
            InstructionView::CpyBfr { err, .. } => Some(err),
            InstructionView::FreeBfr { err, .. } => Some(err),
            InstructionView::BfrStat { .. } => None,
            InstructionView::Math { err, .. } => Some(err),
            InstructionView::App { err, .. } => Some(err),
            InstructionView::Slice { err, .. } => Some(err),
            InstructionView::Shiftl { err, .. } => Some(err),
            InstructionView::Shiftr { err, .. } => Some(err),
            InstructionView::Jmp { .. } => None,
            InstructionView::JmpCond { err, .. } => Some(err),
            InstructionView::Stdout { err, .. } => Some(err),
            InstructionView::Stderr { err, .. } => Some(err),
            InstructionView::SetCnst { err, .. } => Some(err),
            InstructionView::Tx { err, .. } => Some(err),
            InstructionView::GetNthBlk { err, .. } => Some(err),
            InstructionView::Unknown => None,
        }
    }

    /// The buffers that must exist for the instruction to have its effect.
    pub open spec fn required_buffers(self) -> Set<Seq<char>> {
        match self {
            InstructionView::Exit { .. } => set![],
            InstructionView::InitBfr { .. } => set![],
            InstructionView::CpyBfr { src, dst, .. } => set![src, dst],
            InstructionView::FreeBfr { id, .. } => set![id],
            InstructionView::BfrStat { dst, .. } => set![dst],
            InstructionView::Math { op, a, b, res, .. } => if op.is_binary() {
                set![a, b, res]
            } else {
                set![a, res]
            },
            InstructionView::App { dst, src, .. } => set![dst, src],
            InstructionView::Slice { buf, start, end, .. } => set![buf, start, end],
            InstructionView::Shiftl { buf, amount, .. } => set![buf, amount],
            InstructionView::Shiftr { buf, amount, .. } => set![buf, amount],
            InstructionView::Jmp { .. } => set![],
            InstructionView::JmpCond { cond, .. } => set![cond],
            InstructionView::Stdout { buf, .. } => set![buf],
            InstructionView::Stderr { buf, .. } => set![buf],
            InstructionView::SetCnst { buf, .. } => set![buf],
            InstructionView::Tx { sender, receiver, amount, .. } => set![sender, receiver, amount],
            InstructionView::GetNthBlk { index, property, result, .. } => set![
                index,
                property,
                result
            ],
            InstructionView::Unknown => set![],
        }
    }
}

} // verus!
