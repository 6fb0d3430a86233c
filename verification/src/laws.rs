//! Laws of the machine: what holds of every store, program and operand.

use crate::bytes::shift_left_of;
use crate::bytes::shift_right_of;
use crate::codec::be_bytes;
use crate::codec::decode;
use crate::codec::lemma_be_digits_len;
use crate::codec::lemma_be_value_bound;
use crate::codec::lemma_capacity_of_word;
use crate::codec::lemma_digits_of_value;
use crate::codec::lemma_value_of_digits;
use crate::error::VmError;
use crate::instruction::InstructionView;
use crate::math::number_at;
use crate::math::MathOp;
use crate::ops::copied;
use crate::signal::raise_global;
use crate::signal::raised_flag;
use crate::signal::route_signal;
use crate::signal::routed;
use crate::signal::signal_target;
use crate::signal::Signal;
use crate::store::Store;
use crate::instruction::Instruction;
use crate::vm::executed;
use crate::vm::run;
use crate::vm::step;
use vstd::arithmetic::div_mod::lemma_div_pos_is_pos;
use vstd::arithmetic::div_mod::lemma_fundamental_div_mod;
use vstd::arithmetic::div_mod::lemma_mod_pos_bound;
use vstd::arithmetic::div_mod::lemma_small_mod;
use vstd::arithmetic::mul::lemma_mul_is_commutative;
use vstd::prelude::*;

verus! {

/// Decoding an encoded number gives the number.
pub proof fn law_decode_inverts_encode(value: u64)
    ensures
        decode(be_bytes(value)) == Ok::<u64, VmError>(value),
{
    lemma_capacity_of_word();
    lemma_be_digits_len(value as nat, 8);
    lemma_value_of_digits(value as nat, 8);
}

/// Encoding a decoded number gives the eight bytes back.
pub proof fn law_encode_inverts_decode(bytes: Seq<u8>)
    requires
        bytes.len() == 8,
    ensures
        decode(bytes) matches Ok(value) && be_bytes(value) == bytes,
{
    lemma_capacity_of_word();
    lemma_be_value_bound(bytes);
    lemma_digits_of_value(bytes);
}

/// Dividing by a divisor other than zero and multiplying the quotient by the
/// divisor gives the dividend back, less the remainder of the division.
pub proof fn law_divide_then_multiply(a: u64, b: u64)
    requires
        b != 0,
    ensures
        MathOp::Divide.apply(a, b) == Ok::<u64, VmError>(a / b),
        MathOp::Multiply.apply(a / b, b) == Ok::<u64, VmError>((a - a % b) as u64),
{
    let q = (a / b) as int;
    lemma_fundamental_div_mod(a as int, b as int);
    lemma_mod_pos_bound(a as int, b as int);
    lemma_div_pos_is_pos(a as int, b as int);
    lemma_mul_is_commutative(q, b as int);
    assert(q * b == a - a % b);
    lemma_small_mod((q * b) as nat, 0x1_0000_0000_0000_0000);
}

/// A signal sets at most one buffer, a flag, and creates or removes none:
/// every other buffer is as it was.
pub proof fn law_signal_sets_one_flag(store: Store, flag: Option<Seq<char>>, id: Seq<char>)
    ensures
        routed(store, flag).contains_key(id) == store.contains_key(id),
        signal_target(store, flag) != Some(id) ==> routed(store, flag)[id] == store[id],
        signal_target(store, flag) == Some(id) ==> routed(store, flag)[id] == raised_flag(),
        signal_target(store, flag) is None <==> route_signal(store, flag) == Signal::Undelivered,
        signal_target(store, flag) is None ==> routed(store, flag) == store,
{
}

/// A division by zero is signalled as `DivisionByZero` on the designated
/// flag, and the result buffer keeps its contents, unless it is itself the
/// buffer that receives the signal.
pub proof fn law_division_by_zero_keeps_result(
    store: Store,
    a: Seq<char>,
    b: Seq<char>,
    res: Seq<char>,
    err: Seq<char>,
    pc: int,
    len: int,
)
    requires
        number_at(store, a) is Ok,
        number_at(store, b) == Ok::<u64, VmError>(0),
        store.contains_key(res),
        signal_target(store, Some(err)) != Some(res),
    ensures
        ({
            let division = InstructionView::Math { op: MathOp::Divide, a, b, res, err };
            let after = executed(division, store, pc, len);
            &&& after.1.raised == Some(VmError::DivisionByZero)
            &&& after.1.pc == pc + 1
            &&& after.0 == routed(store, Some(err))
            &&& after.0.contains_key(res)
            &&& after.0[res] == store[res]
        }),
{
    law_signal_sets_one_flag(store, Some(err), res);
}

/// A copy is deep: after `src` has been copied to another buffer `dst`,
/// whatever is written to `src` leaves in `dst` what `src` held when the
/// copy was made.
pub proof fn law_copy_is_deep(store: Store, src: Seq<char>, dst: Seq<char>, bytes: Seq<u8>)
    requires
        store.contains_key(src),
        store.contains_key(dst),
        src != dst,
    ensures
        ({
            &&& copied(store, src, dst) matches Ok(after)
            &&& after[dst] == store[src]
            &&& after.insert(src, bytes)[dst] == store[src]
        }),
{
}

/// Shifting left and then right by the same amount keeps the length of a
/// buffer at every step, and loses bytes: when the amount is not zero and no
/// byte of the buffer is zero, what comes back is not what went in.
pub proof fn law_shift_round_trip_is_lossy(bytes: Seq<u8>, amount: u64)
    requires
        1 <= amount <= bytes.len(),
        forall|i: int| 0 <= i < bytes.len() ==> bytes[i] != 0,
    ensures
        ({
            &&& shift_left_of(bytes, amount) matches Ok(left)
            &&& left.len() == bytes.len()
            &&& shift_right_of(left, amount) matches Ok(back)
            &&& back.len() == bytes.len()
            &&& back != bytes
        }),
{
    let left = shift_left_of(bytes, amount)->Ok_0;
    let back = shift_right_of(left, amount)->Ok_0;
    assert(back[0] == 0u8);
    assert(bytes[0] != 0u8);
}

/// Shifts keep the length of a buffer, whatever the amount in range.
pub proof fn law_shift_keeps_length(bytes: Seq<u8>, amount: u64)
    requires
        amount <= bytes.len(),
    ensures
        ({
            &&& shift_left_of(bytes, amount) matches Ok(left)
            &&& left.len() == bytes.len()
        }),
        ({
            &&& shift_right_of(bytes, amount) matches Ok(right)
            &&& right.len() == bytes.len()
        }),
{
}

/// An instruction that needs a buffer which does not exist has no effect
/// but a signal: `NotInitialized` is raised on the flag that the instruction
/// designates, and the run goes on with the next instruction.
pub proof fn law_missing_buffer_is_signalled(
    instr: InstructionView,
    store: Store,
    pc: int,
    len: int,
    id: Seq<char>,
)
    requires
        instr.required_buffers().contains(id),
        !store.contains_key(id),
    ensures
        executed(instr, store, pc, len).1.raised == Some(VmError::NotInitialized),
        executed(instr, store, pc, len).1.pc == pc + 1,
        executed(instr, store, pc, len).0 == routed(store, instr.flag()),
{
}

/// A jump to a target beyond the end of the program is not taken: it is
/// signalled globally as `IndexOutOfRange`, and the run goes on with the
/// next instruction. The end of the program itself is a target in range.
pub proof fn law_jump_beyond_program_is_signalled(store: Store, target: usize, pc: int, len: int)
    ensures
        ({
            let after = executed(InstructionView::Jmp { target }, store, pc, len);
            if target <= len {
                &&& after.0 == store
                &&& after.1.pc == target
                &&& after.1.raised is None
                &&& after.1.event is None
            } else {
                &&& after.0 == raise_global(store)
                &&& after.1.pc == pc + 1
                &&& after.1.raised == Some(VmError::IndexOutOfRange)
            }
        }),
{
}

/// `NotInitialized` is raised for no other reason: an instruction that finds
/// every buffer it needs raises another error or none.
pub proof fn law_present_buffers_are_not_reported(
    instr: InstructionView,
    store: Store,
    pc: int,
    len: int,
)
    requires
        forall|id: Seq<char>| instr.required_buffers().contains(id) ==> store.contains_key(id),
    ensures
        executed(instr, store, pc, len).1.raised != Some(VmError::NotInitialized),
{
    match instr {
        InstructionView::CpyBfr { src, dst, .. } => {
            assert(instr.required_buffers().contains(src));
            assert(instr.required_buffers().contains(dst));
        },
        InstructionView::FreeBfr { id, .. } => {
            assert(instr.required_buffers().contains(id));
        },
        InstructionView::BfrStat { dst, .. } => {
            assert(instr.required_buffers().contains(dst));
        },
        InstructionView::Math { a, b, res, .. } => {
            assert(instr.required_buffers().contains(a));
            assert(instr.required_buffers().contains(res));
            assert(instr.required_buffers().contains(b) || !(instr->Math_op).is_binary());
        },
        InstructionView::App { dst, src, .. } => {
            assert(instr.required_buffers().contains(src));
            assert(instr.required_buffers().contains(dst));
        },
        InstructionView::Slice { buf, start, end, .. } => {
            assert(instr.required_buffers().contains(buf));
            assert(instr.required_buffers().contains(start));
            assert(instr.required_buffers().contains(end));
        },
        InstructionView::Shiftl { buf, amount, .. } => {
            assert(instr.required_buffers().contains(buf));
            assert(instr.required_buffers().contains(amount));
        },
        InstructionView::Shiftr { buf, amount, .. } => {
            assert(instr.required_buffers().contains(buf));
            assert(instr.required_buffers().contains(amount));
        },
        InstructionView::JmpCond { cond, .. } => {
            assert(instr.required_buffers().contains(cond));
        },
        InstructionView::Stdout { buf, .. } => {
            assert(instr.required_buffers().contains(buf));
        },
        InstructionView::Stderr { buf, .. } => {
            assert(instr.required_buffers().contains(buf));
        },
        InstructionView::SetCnst { buf, .. } => {
            assert(instr.required_buffers().contains(buf));
        },
        InstructionView::Tx { sender, receiver, amount, .. } => {
            assert(instr.required_buffers().contains(sender));
            assert(instr.required_buffers().contains(receiver));
            assert(instr.required_buffers().contains(amount));
        },
        InstructionView::GetNthBlk { index, property, result, .. } => {
            assert(instr.required_buffers().contains(index));
            assert(instr.required_buffers().contains(property));
            assert(instr.required_buffers().contains(result));
        },
        _ => {},
    }
}

/// A buffer lives from its `InitBfr` to its `FreeBfr`: no other instruction
/// creates or removes a buffer, whether it succeeds or fails.
pub proof fn law_buffers_live_from_init_to_free(
    instr: InstructionView,
    store: Store,
    pc: int,
    len: int,
    id: Seq<char>,
)
    ensures
        executed(instr, store, pc, len).0.contains_key(id) && !store.contains_key(id) ==> instr
            == (InstructionView::InitBfr { id, err: instr->InitBfr_err }),
        !executed(instr, store, pc, len).0.contains_key(id) && store.contains_key(id) ==> instr
            == (InstructionView::FreeBfr { id, err: instr->FreeBfr_err }),
{
    law_signal_sets_one_flag(store, instr.flag(), id);
}

/// A run never ends with more fuel than it was given, and it reports that
/// its budget is used up only when nothing is left of it.
pub proof fn law_run_keeps_within_budget(
    program: Seq<Instruction>,
    store: Store,
    pc: int,
    fuel: nat,
)
    ensures
        run(program, store, pc, fuel).1.fuel <= fuel,
        run(program, store, pc, fuel).1.event is ResourceExhausted ==> run(
            program,
            store,
            pc,
            fuel,
        ).1.fuel == 0,
    decreases fuel,
{
    if 0 <= pc < program.len() && fuel > 0 {
        let after = step(program, store, pc);
        if after.1.event is None {
            law_run_keeps_within_budget(program, after.0, after.1.pc, (fuel - 1) as nat);
        }
    }
}

} // verus!
