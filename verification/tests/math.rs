use contract_vm::codec::encode_u64;
use contract_vm::error::VmError;
use contract_vm::math::execute_math_operation;
use contract_vm::math::read_number;
use contract_vm::math::try_math_operation;
use contract_vm::math::MathOp;
use contract_vm::signal::Raised;
use contract_vm::signal::Signal;
use contract_vm::store::BufferStore;

fn numbers(a: u64, b: u64) -> BufferStore {
    let mut store = BufferStore::new();
    for id in ["a", "b", "res", "err", "00000000"] {
        store.initialize(id).unwrap();
    }
    store.write("a", encode_u64(a)).unwrap();
    store.write("b", encode_u64(b)).unwrap();
    store
}

fn apply_in_store(op: MathOp, a: u64, b: u64) -> (Result<(), Raised>, BufferStore) {
    let mut store = numbers(a, b);
    let r = execute_math_operation(
        op,
        &mut store,
        "a".to_string(),
        "b".to_string(),
        "res".to_string(),
        "err".to_string(),
    );
    (r, store)
}

#[test]
fn add_subtract_multiply_give_exact_results() {
    assert_eq!(MathOp::Add.execute(2, 3), Ok(5));
    assert_eq!(MathOp::Subtract.execute(10, 3), Ok(7));
    assert_eq!(MathOp::Multiply.execute(6, 7), Ok(42));
}

#[test]
fn add_subtract_multiply_wrap_around() {
    assert_eq!(MathOp::Add.execute(u64::MAX, 1), Ok(0));
    assert_eq!(MathOp::Add.execute(u64::MAX, u64::MAX), Ok(u64::MAX - 1));
    assert_eq!(MathOp::Subtract.execute(0, 1), Ok(u64::MAX));
    assert_eq!(MathOp::Subtract.execute(3, 10), Ok(u64::MAX - 6));
    assert_eq!(MathOp::Multiply.execute(1 << 63, 2), Ok(0));
    assert_eq!(MathOp::Multiply.execute(u64::MAX, u64::MAX), Ok(1));
}

#[test]
fn divide_truncates() {
    assert_eq!(MathOp::Divide.execute(17, 5), Ok(3));
    assert_eq!(MathOp::Divide.execute(4, 5), Ok(0));
    assert_eq!(MathOp::Divide.execute(u64::MAX, 1), Ok(u64::MAX));
}

#[test]
fn divide_by_zero_is_an_error() {
    assert_eq!(MathOp::Divide.execute(17, 0), Err(VmError::DivisionByZero));
    assert_eq!(MathOp::Divide.execute(0, 0), Err(VmError::DivisionByZero));
}

#[test]
fn divide_then_multiply_recovers_the_dividend_less_the_remainder() {
    for (a, b) in [(17u64, 5u64), (100, 10), (7, 9), (u64::MAX, 3), (0, 4), (u64::MAX, u64::MAX)] {
        let q = MathOp::Divide.execute(a, b).unwrap();
        assert_eq!(MathOp::Multiply.execute(q, b), Ok(a - a % b));
    }
}

#[test]
fn equals_yields_one_or_zero() {
    assert_eq!(MathOp::Equals.execute(4, 4), Ok(1));
    assert_eq!(MathOp::Equals.execute(4, 5), Ok(0));
}

#[test]
fn and_or_not_work_on_all_sixty_four_bits() {
    assert_eq!(MathOp::And.execute(0b1100, 0b1010), Ok(0b1000));
    assert_eq!(MathOp::Or.execute(0b1100, 0b1010), Ok(0b1110));
    assert_eq!(MathOp::And.execute(u64::MAX, 1 << 63), Ok(1 << 63));
    assert_eq!(MathOp::Not.execute(0, 0), Ok(u64::MAX));
    assert_eq!(MathOp::Not.execute(1, 99), Ok(u64::MAX - 1));
}

#[test]
fn only_not_is_unary() {
    assert!(!MathOp::Not.uses_second_operand());
    for op in [
        MathOp::Add,
        MathOp::Subtract,
        MathOp::Multiply,
        MathOp::Divide,
        MathOp::Equals,
        MathOp::And,
        MathOp::Or,
    ] {
        assert!(op.uses_second_operand());
    }
}

#[test]
fn operation_stores_the_encoded_result() {
    let (r, store) = apply_in_store(MathOp::Add, 40, 2);
    assert_eq!(r, Ok(()));
    assert_eq!(store.read("res"), Ok(vec![0, 0, 0, 0, 0, 0, 0, 42]));
    assert_eq!(store.read("err"), Ok(vec![]));
    assert_eq!(store.read("a"), Ok(encode_u64(40)));
    assert_eq!(store.read("b"), Ok(encode_u64(2)));
}

#[test]
fn operation_replaces_a_result_buffer_of_any_length() {
    let mut store = numbers(6, 7);
    store.write("res", vec![1, 2, 3]).unwrap();
    let r = try_math_operation(MathOp::Multiply, &mut store, "a", "b", "res");
    assert_eq!(r, Ok(()));
    assert_eq!(store.read("res"), Ok(encode_u64(42)));
}

#[test]
fn division_by_zero_in_store_signals_and_leaves_result() {
    let mut store = numbers(5, 0);
    store.write("res", vec![9, 9]).unwrap();
    let r = execute_math_operation(
        MathOp::Divide,
        &mut store,
        "a".to_string(),
        "b".to_string(),
        "res".to_string(),
        "err".to_string(),
    );
    assert_eq!(r, Err(Raised { error: VmError::DivisionByZero, signal: Signal::Local }));
    assert_eq!(store.read("res"), Ok(vec![9, 9]));
    assert_eq!(store.read("err"), Ok(vec![1]));
    assert_eq!(store.read("00000000"), Ok(vec![]));
}

#[test]
fn operand_of_wrong_length_is_signalled() {
    let mut store = numbers(1, 2);
    store.write("b", vec![1, 2, 3]).unwrap();
    let r = execute_math_operation(
        MathOp::Add,
        &mut store,
        "a".to_string(),
        "b".to_string(),
        "res".to_string(),
        "err".to_string(),
    );
    assert_eq!(r, Err(Raised { error: VmError::InvalidNumericLength, signal: Signal::Local }));
    assert_eq!(store.read("res"), Ok(vec![]));
    assert_eq!(store.read("err"), Ok(vec![1]));
}

#[test]
fn missing_operand_or_result_is_signalled() {
    for missing in ["a", "b", "res"] {
        let mut store = numbers(1, 2);
        store.free(missing).unwrap();
        let r = execute_math_operation(
            MathOp::Add,
            &mut store,
            "a".to_string(),
            "b".to_string(),
            "res".to_string(),
            "err".to_string(),
        );
        assert_eq!(r, Err(Raised { error: VmError::NotInitialized, signal: Signal::Local }));
        assert_eq!(store.read("err"), Ok(vec![1]));
        assert!(!store.contains(missing));
    }
}

#[test]
fn missing_buffer_is_reported_before_a_bad_number() {
    let mut store = numbers(1, 2);
    store.write("a", vec![1]).unwrap();
    store.free("res").unwrap();
    assert_eq!(
        try_math_operation(MathOp::Add, &mut store, "a", "b", "res"),
        Err(VmError::NotInitialized)
    );
}

#[test]
fn not_neither_needs_nor_reads_its_second_operand() {
    let mut store = numbers(1, 2);
    store.free("b").unwrap();
    let r = execute_math_operation(
        MathOp::Not,
        &mut store,
        "a".to_string(),
        "".to_string(),
        "res".to_string(),
        "err".to_string(),
    );
    assert_eq!(r, Ok(()));
    assert_eq!(store.read("res"), Ok(vec![255, 255, 255, 255, 255, 255, 255, 254]));
    let mut odd = numbers(1, 2);
    odd.write("b", vec![1]).unwrap();
    assert_eq!(try_math_operation(MathOp::Not, &mut odd, "a", "b", "res"), Ok(()));
}

#[test]
fn result_may_be_an_operand() {
    let mut store = numbers(20, 22);
    assert_eq!(try_math_operation(MathOp::Add, &mut store, "a", "b", "a"), Ok(()));
    assert_eq!(read_number(&store, "a"), Ok(42));
}

#[test]
fn signal_without_any_flag_is_reported_as_undelivered() {
    let mut store = BufferStore::new();
    let r = execute_math_operation(
        MathOp::Add,
        &mut store,
        "a".to_string(),
        "b".to_string(),
        "res".to_string(),
        "err".to_string(),
    );
    assert_eq!(r, Err(Raised { error: VmError::NotInitialized, signal: Signal::Undelivered }));
}

#[test]
fn read_number_reports_missing_and_malformed_buffers() {
    let mut store = numbers(9, 0);
    assert_eq!(read_number(&store, "a"), Ok(9));
    assert_eq!(read_number(&store, "nowhere"), Err(VmError::NotInitialized));
    store.write("a", vec![0; 9]).unwrap();
    assert_eq!(read_number(&store, "a"), Err(VmError::InvalidNumericLength));
}
