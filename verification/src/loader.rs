//! Loading a program from its textual form.
//!
//! A line of a program is an opcode name with a list of string operands. An
//! opcode takes its operands from the front of the list, in the order of its
//! declaration, and ignores what follows them. Loading checks once, before a
//! run, what the machine would otherwise have to check at every step: that
//! the operands an opcode uses are there and that its integers are integers.

use crate::decimal::exit_code_of;
use crate::decimal::parse_exit_code;
use crate::decimal::parse_target;
use crate::decimal::target_of;
use crate::instruction::Instruction;
use crate::instruction::InstructionView;
use crate::math::MathOp;
use vstd::prelude::*;

verus! {

/// One line of a program: an opcode name and its operands.
#[derive(Clone, Debug, PartialEq, Eq)]
pub struct Line {
    pub command: String,
    pub args: Vec<String>,
}

/// A program in its textual form.
#[derive(Clone, Debug, PartialEq, Eq)]
pub struct SyntaxTree {
    pub lines: Vec<Line>,
}

/// Why a line cannot be loaded.
#[derive(Clone, Copy, Debug, PartialEq, Eq, Structural)]
pub enum LoadError {
    /// The line has fewer operands than its opcode uses.
    MissingOperand,
    /// An exit code or a jump target is not a decimal integer in range.
    InvalidInteger,
}

/// The first line of a program that cannot be loaded, and why.
#[derive(Clone, Copy, Debug, PartialEq, Eq, Structural)]
pub struct LoadFailure {
    pub line: usize,
    pub error: LoadError,
}

/// The operands of a line as sequences of characters.
pub open spec fn texts(args: Seq<String>) -> Seq<Seq<char>> {
    Seq::new(args.len(), |i: int| args[i]@)
}

/// The binary operation that an opcode name stands for.
pub open spec fn binary_op_named(name: Seq<char>) -> Option<MathOp> {
    if name == "Add"@ {
        Some(MathOp::Add)
    } else if name == "Sub"@ {
        Some(MathOp::Subtract)
    } else if name == "Mul"@ {
        Some(MathOp::Multiply)
    } else if name == "Div"@ {
        Some(MathOp::Divide)
    } else if name == "Eq"@ {
        Some(MathOp::Equals)
    } else if name == "And"@ {
        Some(MathOp::And)
    } else if name == "Or"@ {
        Some(MathOp::Or)
    } else {
        None
    }
}

/// `built` when the line has at least `count` operands.
pub open spec fn with_operands(args: Seq<Seq<char>>, count: int, built: InstructionView) -> Result<
    InstructionView,
    LoadError,
> {
    if args.len() < count {
        Err(LoadError::MissingOperand)
    } else {
        Ok(built)
    }
}

/// The instruction that a line with opcode name `command` and operands
/// `args` stands for. A name outside the instruction set gives `Unknown`,
/// whatever the operands.
pub open spec fn line_decoded(command: Seq<char>, args: Seq<Seq<char>>) -> Result<
    InstructionView,
    LoadError,
> {
    match binary_op_named(command) {
        Some(op) => with_operands(
            args,
            4,
            InstructionView::Math { op, a: args[0], b: args[1], res: args[2], err: args[3] },
        ),
        None => if command == "Not"@ {
            with_operands(
                args,
                3,
                InstructionView::Math {
                    op: MathOp::Not,
                    a: args[0],
                    b: Seq::<char>::empty(),
                    res: args[1],
                    err: args[2],
                },
            )
        } else if command == "Exit"@ {
            if args.len() < 1 {
                Err(LoadError::MissingOperand)
            } else {
                match exit_code_of(args[0]) {
                    Some(code) => Ok(InstructionView::Exit { code }),
                    None => Err(LoadError::InvalidInteger),
                }
            }
        } else if command == "InitBfr"@ {
            with_operands(args, 2, InstructionView::InitBfr { id: args[0], err: args[1] })
        } else if command == "CpyBfr"@ {
            with_operands(
                args,
                3,
                InstructionView::CpyBfr { src: args[0], dst: args[1], err: args[2] },
            )
        } else if command == "FreeBfr"@ {
            with_operands(args, 2, InstructionView::FreeBfr { id: args[0], err: args[1] })
        } else if command == "BfrStat"@ {
            with_operands(args, 2, InstructionView::BfrStat { id: args[0], dst: args[1] })
        } else if command == "App"@ {
            with_operands(
                args,
                3,
                InstructionView::App { dst: args[0], src: args[1], err: args[2] },
            )
        } else if command == "Slice"@ {
            with_operands(
                args,
                4,
                InstructionView::Slice { buf: args[0], start: args[1], end: args[2], err: args[3] },
            )
        } else if command == "Shiftl"@ {
            with_operands(
                args,
                3,
                InstructionView::Shiftl { buf: args[0], amount: args[1], err: args[2] },
            )
        } else if command == "Shiftr"@ {
            with_operands(
                args,
                3,
                InstructionView::Shiftr { buf: args[0], amount: args[1], err: args[2] },
            )
        } else if command == "Jmp"@ {
            if args.len() < 1 {
                Err(LoadError::MissingOperand)
            } else {
                match target_of(args[0]) {
                    Some(target) => Ok(InstructionView::Jmp { target }),
                    None => Err(LoadError::InvalidInteger),
                }
            }
        } else if command == "JmpCond"@ {
            if args.len() < 3 {
                Err(LoadError::MissingOperand)
            } else {
                match target_of(args[1]) {
                    Some(target) => Ok(
                        InstructionView::JmpCond { cond: args[0], target, err: args[2] },
                    ),
                    None => Err(LoadError::InvalidInteger),
                }
            }
        } else if command == "Stdout"@ {
            with_operands(args, 2, InstructionView::Stdout { buf: args[0], err: args[1] })
        } else if command == "Stderr"@ {
            with_operands(args, 2, InstructionView::Stderr { buf: args[0], err: args[1] })
        } else if command == "SetCnst"@ {
            with_operands(
                args,
                3,
                InstructionView::SetCnst { buf: args[0], hex: args[1], err: args[2] },
            )
        } else if command == "Tx"@ {
            with_operands(
                args,
                4,
                InstructionView::Tx {
                    sender: args[0],
                    receiver: args[1],
                    amount: args[2],
                    err: args[3],
                },
            )
        } else if command == "GetNthBlk"@ {
            with_operands(
                args,
                4,
                InstructionView::GetNthBlk {
                    index: args[0],
                    property: args[1],
                    result: args[2],
                    err: args[3],
                },
            )
        } else {
            Ok(InstructionView::Unknown)
        },
    }
}

/// What a line stands for.
pub open spec fn decoded(line: Line) -> Result<InstructionView, LoadError> {
    line_decoded(line.command@, texts(line.args@))
}

/// Whether `command` is the opcode name `name`.
fn name_is(command: &String, name: &str) -> (same: bool)
    ensures
        same == (command@ == name@),
{
    *command == name.to_owned()
}

/// The binary operation that the opcode name `command` stands for.
fn binary_op_by_name(command: &String) -> (op: Option<MathOp>)
    ensures
        op == binary_op_named(command@),
{
    if name_is(command, "Add") {
        Some(MathOp::Add)
    } else if name_is(command, "Sub") {
        Some(MathOp::Subtract)
    } else if name_is(command, "Mul") {
        Some(MathOp::Multiply)
    } else if name_is(command, "Div") {
        Some(MathOp::Divide)
    } else if name_is(command, "Eq") {
        Some(MathOp::Equals)
    } else if name_is(command, "And") {
        Some(MathOp::And)
    } else if name_is(command, "Or") {
        Some(MathOp::Or)
    } else {
        None
    }
}

/// A copy of operand `i`.
fn operand(args: &Vec<String>, i: usize) -> (text: String)
    requires
        i < args.len(),
    ensures
        text@ == texts(args@)[i as int],
{
    args[i].clone()
}

/// Loads one line.
///
/// The result is an error exactly when the opcode is known and the line
/// lacks an operand that the opcode uses, or holds something other than a
/// decimal integer where the opcode uses one.
pub fn decode_line(line: &Line) -> (r: Result<Instruction, LoadError>)
    ensures
        match decoded(*line) {
            Ok(instr) => r matches Ok(out) && out@ == instr,
            Err(e) => r matches Err(f) && f == e,
        },
{
    let command = &line.command;
    let args = &line.args;
    let count: usize = args.len();
    assert(texts(args@).len() == count);
    match binary_op_by_name(command) {
        Some(op) => {
            if count < 4 {
                return Err(LoadError::MissingOperand);
            }
            return Ok(
                Instruction::Math {
                    op,
                    a: operand(args, 0),
                    b: operand(args, 1),
                    res: operand(args, 2),
                    err: operand(args, 3),
                },
            );
        },
        None => {},
    }
    if name_is(command, "Not") {
        if count < 3 {
            return Err(LoadError::MissingOperand);
        }
        return Ok(
            Instruction::Math {
                op: MathOp::Not,
                a: operand(args, 0),
                b: String::new(),
                res: operand(args, 1),
                err: operand(args, 2),
            },
        );
    }
    if name_is(command, "Exit") {
        if count < 1 {
            return Err(LoadError::MissingOperand);
        }
        match parse_exit_code(args[0].as_str()) {
            Some(code) => {
                return Ok(Instruction::Exit { code });
            },
            None => {
                return Err(LoadError::InvalidInteger);
            },
        }
    }
    if name_is(command, "InitBfr") {
        if count < 2 {
            return Err(LoadError::MissingOperand);
        }
        return Ok(Instruction::InitBfr { id: operand(args, 0), err: operand(args, 1) });
    }
    if name_is(command, "CpyBfr") {
        if count < 3 {
            return Err(LoadError::MissingOperand);
        }
        return Ok(
            Instruction::CpyBfr {
                src: operand(args, 0),
                dst: operand(args, 1),
                err: operand(args, 2),
            },
        );
    }
    if name_is(command, "FreeBfr") {
        if count < 2 {
            return Err(LoadError::MissingOperand);
        }
        return Ok(Instruction::FreeBfr { id: operand(args, 0), err: operand(args, 1) });
    }
    if name_is(command, "BfrStat") {
        if count < 2 {
            return Err(LoadError::MissingOperand);
        }
        return Ok(Instruction::BfrStat { id: operand(args, 0), dst: operand(args, 1) });
    }
    if name_is(command, "App") {
        if count < 3 {
            return Err(LoadError::MissingOperand);
        }
        return Ok(
            Instruction::App {
                dst: operand(args, 0),
                src: operand(args, 1),
                err: operand(args, 2),
            },
        );
    }
    if name_is(command, "Slice") {
        if count < 4 {
            return Err(LoadError::MissingOperand);
        }
        return Ok(
            Instruction::Slice {
                buf: operand(args, 0),
                start: operand(args, 1),
                end: operand(args, 2),
                err: operand(args, 3),
            },
        );
    }
    if name_is(command, "Shiftl") {
        if count < 3 {
            return Err(LoadError::MissingOperand);
        }
        return Ok(
            Instruction::Shiftl {
                buf: operand(args, 0),
                amount: operand(args, 1),
                err: operand(args, 2),
            },
        );
    }
    if name_is(command, "Shiftr") {
        if count < 3 {
            return Err(LoadError::MissingOperand);
        }
        return Ok(
            Instruction::Shiftr {
                buf: operand(args, 0),
                amount: operand(args, 1),
                err: operand(args, 2),
            },
        );
    }
    if name_is(command, "Jmp") {
        if count < 1 {
            return Err(LoadError::MissingOperand);
        }
        match parse_target(args[0].as_str()) {
            Some(target) => {
                return Ok(Instruction::Jmp { target });
            },
            None => {
                return Err(LoadError::InvalidInteger);
            },
        }
    }
    if name_is(command, "JmpCond") {
        if count < 3 {
            return Err(LoadError::MissingOperand);
        }
        match parse_target(args[1].as_str()) {
            Some(target) => {
                return Ok(
                    Instruction::JmpCond { cond: operand(args, 0), target, err: operand(args, 2) },
                );
            },
            None => {
                return Err(LoadError::InvalidInteger);
            },
        }
    }
    if name_is(command, "Stdout") {
        if count < 2 {
            return Err(LoadError::MissingOperand);
        }
        return Ok(Instruction::Stdout { buf: operand(args, 0), err: operand(args, 1) });
    }
    if name_is(command, "Stderr") {
        if count < 2 {
            return Err(LoadError::MissingOperand);
        }
        return Ok(Instruction::Stderr { buf: operand(args, 0), err: operand(args, 1) });
    }
    if name_is(command, "SetCnst") {
        if count < 3 {
            return Err(LoadError::MissingOperand);
        }
        return Ok(
            Instruction::SetCnst {
                buf: operand(args, 0),
                hex: operand(args, 1),
                err: operand(args, 2),
            },
        );
    }
    if name_is(command, "Tx") {
        if count < 4 {
            return Err(LoadError::MissingOperand);
        }
        return Ok(
            Instruction::Tx {
                sender: operand(args, 0),
                receiver: operand(args, 1),
                amount: operand(args, 2),
                err: operand(args, 3),
            },
        );
    }
    if name_is(command, "GetNthBlk") {
        if count < 4 {
            return Err(LoadError::MissingOperand);
        }
        return Ok(
            Instruction::GetNthBlk {
                index: operand(args, 0),
                property: operand(args, 1),
                result: operand(args, 2),
                err: operand(args, 3),
            },
        );
    }
    Ok(Instruction::Unknown)
}

/// Loads a program: every line in order, up to the first that cannot be
/// loaded.
pub fn load_program(tree: &SyntaxTree) -> (r: Result<Vec<Instruction>, LoadFailure>)
    ensures
        match r {
            Ok(program) => program.len() == tree.lines.len() && forall|i: int|
                0 <= i < program.len() ==> decoded(#[trigger] tree.lines[i]) == Ok::<
                    InstructionView,
                    LoadError,
                >(program[i]@),
            Err(failure) => failure.line < tree.lines.len() && decoded(
                tree.lines[failure.line as int],
            ) == Err::<InstructionView, LoadError>(failure.error) && forall|i: int|
                0 <= i < failure.line ==> (#[trigger] decoded(tree.lines[i])) is Ok,
        },
{
    let mut program: Vec<Instruction> = Vec::new();
    let mut i: usize = 0;
    while i < tree.lines.len()
        invariant
            i <= tree.lines.len(),
            program.len() == i,
            forall|j: int|
                0 <= j < i ==> decoded(#[trigger] tree.lines[j]) == Ok::<
                    InstructionView,
                    LoadError,
                >(program[j]@),
        decreases tree.lines.len() - i,
    {
        match decode_line(&tree.lines[i]) {
            Ok(instr) => {
                program.push(instr);
            },
            Err(error) => {
                return Err(LoadFailure { line: i, error });
            },
        }
        i = i + 1;
    }
    Ok(program)
}

} // verus!
