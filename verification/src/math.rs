//! Arithmetic and logic on numeric buffers.

use crate::codec::be_bytes;
use crate::codec::decode;
use crate::codec::decode_u64;
use crate::codec::encode_u64;
use crate::error::VmError;
use crate::signal::local_signal;
use crate::signal::raise_local;
use crate::signal::vm_throw_local_error;
use crate::signal::Raised;
use crate::store::BufferStore;
use crate::store::Store;
use vstd::prelude::*;

verus! {

/// One more than the largest `u64`.
pub open spec fn word_modulus() -> int {
    0x1_0000_0000_0000_0000
}

/// The operations that the machine can apply to numeric buffers.
///
/// Addition, subtraction and multiplication wrap around modulo `2^64`.
#[derive(Clone, Copy, Debug, PartialEq, Eq, Structural)]
pub enum MathOp {
    Add,
    Subtract,
    Multiply,
    Divide,
    Equals,
    And,
    Or,
    /// Bitwise complement of the first operand; the second is ignored.
    Not,
}

impl MathOp {
    /// Whether the operation reads its second operand.
    pub open spec fn is_binary(self) -> bool {
        self != MathOp::Not
    }

    /// The result of the operation on `a` and `b`.
    pub open spec fn apply(self, a: u64, b: u64) -> Result<u64, VmError> {
        match self {
            MathOp::Add => Ok(((a + b) % word_modulus()) as u64),
            MathOp::Subtract => Ok(((a - b) % word_modulus()) as u64),
            MathOp::Multiply => Ok(((a * b) % word_modulus()) as u64),
            MathOp::Divide => if b == 0 {
                Err(VmError::DivisionByZero)
            } else {
                Ok(a / b)
            },
            MathOp::Equals => Ok(
                if a == b {
                    1u64
                } else {
                    0u64
                },
            ),
            MathOp::And => Ok(a & b),
            MathOp::Or => Ok(a | b),
            MathOp::Not => Ok(!a),
        }
    }

    /// Whether the operation reads its second operand.
    pub fn uses_second_operand(&self) -> (binary: bool)
        ensures
            binary == self.is_binary(),
    {
        match self {
            MathOp::Not => false,
            _ => true,
        }
    }

    /// Applies the operation to `a` and `b`.
    pub fn execute(&self, a: u64, b: u64) -> (r: Result<u64, VmError>)
        ensures
            r == self.apply(a, b),
    {
        match self {
            MathOp::Add => Ok(a.wrapping_add(b)),
            MathOp::Subtract => Ok(a.wrapping_sub(b)),
            MathOp::Multiply => Ok(a.wrapping_mul(b)),
            MathOp::Divide => {
                if b == 0 {
                    Err(VmError::DivisionByZero)
                } else {
                    Ok(a / b)
                }
            },
            MathOp::Equals => {
                if a == b {
                    Ok(1)
                } else {
                    Ok(0)
                }
            },
            MathOp::And => Ok(a & b),
            MathOp::Or => Ok(a | b),
            MathOp::Not => Ok(!a),
        }
    }
}

/// The number held by buffer `id`: `NotInitialized` when there is no such
/// buffer, `InvalidNumericLength` when it does not hold eight bytes.
pub open spec fn number_at(store: Store, id: Seq<char>) -> Result<u64, VmError> {
    if store.contains_key(id) {
        decode(store[id])
    } else {
        Err(VmError::NotInitialized)
    }
}

/// The store after `res` has received the result of `op` on the numbers in
/// `a` and `b`, or the reason why the operation cannot be carried out.
///
/// Missing buffers are reported first, then operands that are not numbers,
/// then a failure of the operation itself. A unary operation neither needs
/// nor reads `b`.
pub open spec fn computed(op: MathOp, store: Store, a: Seq<char>, b: Seq<char>, res: Seq<char>)
    -> Result<Store, VmError> {
    if !store.contains_key(a) || (op.is_binary() && !store.contains_key(b)) || !store.contains_key(
        res,
    ) {
        Err(VmError::NotInitialized)
    } else {
        match decode(store[a]) {
            Err(e) => Err(e),
            Ok(x) => match (if op.is_binary() {
                decode(store[b])
            } else {
                Ok(0u64)
            }) {
                Err(e) => Err(e),
                Ok(y) => match op.apply(x, y) {
                    Err(e) => Err(e),
                    Ok(value) => Ok(store.insert(res, be_bytes(value))),
                },
            },
        }
    }
}

/// Reads buffer `id` as a number.
pub fn read_number(buffers: &BufferStore, id: &str) -> (r: Result<u64, VmError>)
    ensures
        r == number_at(buffers@, id@),
{
    match buffers.read(id) {
        Ok(bytes) => decode_u64(&bytes),
        Err(e) => Err(e),
    }
}

/// Applies `op` to the numbers in `a` and `b` and stores the result in
/// `res`. On any failure the store is left as it was.
pub fn try_math_operation(op: MathOp, buffers: &mut BufferStore, a: &str, b: &str, res: &str) -> (r:
    Result<(), VmError>)
    ensures
        match computed(op, old(buffers)@, a@, b@, res@) {
            Ok(next) => r == Ok::<(), VmError>(()) && final(buffers)@ == next,
            Err(e) => r == Err::<(), VmError>(e) && final(buffers)@ == old(buffers)@,
        },
{
    let binary = op.uses_second_operand();
    if !buffers.contains(a) || (binary && !buffers.contains(b)) || !buffers.contains(res) {
        return Err(VmError::NotInitialized);
    }
    let x = match read_number(buffers, a) {
        Ok(x) => x,
        Err(e) => {
            return Err(e);
        },
    };
    let y = if binary {
        match read_number(buffers, b) {
            Ok(y) => y,
            Err(e) => {
                return Err(e);
            },
        }
    } else {
        0
    };
    match op.execute(x, y) {
        Ok(value) => buffers.write(res, encode_u64(value)),
        Err(e) => Err(e),
    }
}

/// Applies `operation` to the numbers in buffers `a` and `b` and stores the
/// result in buffer `res`.
///
/// When the operation cannot be carried out, no buffer but a flag changes:
/// the error is signalled on `err`, and the result names the error and says
/// where the signal ended up.
pub fn execute_math_operation(
    operation: MathOp,
    buffers: &mut BufferStore,
    a: String,
    b: String,
    res: String,
    err: String,
) -> (r: Result<(), Raised>)
    ensures
        match computed(operation, old(buffers)@, a@, b@, res@) {
            Ok(next) => r == Ok::<(), Raised>(()) && final(buffers)@ == next,
            Err(e) => r == Err::<(), Raised>(
                Raised { error: e, signal: local_signal(old(buffers)@, err@) },
            ) && final(buffers)@ == raise_local(old(buffers)@, err@),
        },
{
    match try_math_operation(operation, buffers, a.as_str(), b.as_str(), res.as_str()) {
        Ok(_) => Ok(()),
        Err(error) => {
            let signal = vm_throw_local_error(buffers, err);
            Err(Raised { error, signal })
        },
    }
}

} // verus!
