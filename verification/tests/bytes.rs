use contract_vm::bytes::concat_bytes;
use contract_vm::bytes::shift_left_bytes;
use contract_vm::bytes::shift_right_bytes;
use contract_vm::bytes::slice_bytes;
use contract_vm::error::VmError;

#[test]
fn slice_keeps_the_bytes_between_the_bounds() {
    let bytes = vec![10, 11, 12, 13, 14];
    assert_eq!(slice_bytes(&bytes, 1, 4), Ok(vec![11, 12, 13]));
    assert_eq!(slice_bytes(&bytes, 0, 5), Ok(vec![10, 11, 12, 13, 14]));
    assert_eq!(slice_bytes(&bytes, 2, 2), Ok(vec![]));
    assert_eq!(slice_bytes(&bytes, 5, 5), Ok(vec![]));
    assert_eq!(slice_bytes(&vec![], 0, 0), Ok(vec![]));
}

#[test]
fn slice_rejects_bounds_out_of_range() {
    let bytes = vec![10, 11, 12, 13, 14];
    assert_eq!(slice_bytes(&bytes, 0, 6), Err(VmError::IndexOutOfRange));
    assert_eq!(slice_bytes(&bytes, 3, 2), Err(VmError::IndexOutOfRange));
    assert_eq!(slice_bytes(&bytes, 6, 6), Err(VmError::IndexOutOfRange));
    assert_eq!(slice_bytes(&bytes, 0, u64::MAX), Err(VmError::IndexOutOfRange));
    assert_eq!(slice_bytes(&bytes, u64::MAX, u64::MAX), Err(VmError::IndexOutOfRange));
}

#[test]
fn shift_left_drops_the_tail_and_pads_with_zeros() {
    let bytes = vec![1, 2, 3, 4, 5];
    assert_eq!(shift_left_bytes(&bytes, 2), Ok(vec![1, 2, 3, 0, 0]));
    assert_eq!(shift_left_bytes(&bytes, 0), Ok(vec![1, 2, 3, 4, 5]));
    assert_eq!(shift_left_bytes(&bytes, 5), Ok(vec![0, 0, 0, 0, 0]));
    assert_eq!(shift_left_bytes(&vec![], 0), Ok(vec![]));
}

#[test]
fn shift_right_drops_the_head_and_pads_with_zeros() {
    let bytes = vec![1, 2, 3, 4, 5];
    assert_eq!(shift_right_bytes(&bytes, 2), Ok(vec![0, 0, 3, 4, 5]));
    assert_eq!(shift_right_bytes(&bytes, 0), Ok(vec![1, 2, 3, 4, 5]));
    assert_eq!(shift_right_bytes(&bytes, 5), Ok(vec![0, 0, 0, 0, 0]));
}

#[test]
fn shift_amount_beyond_the_length_is_rejected() {
    let bytes = vec![1, 2, 3];
    assert_eq!(shift_left_bytes(&bytes, 4), Err(VmError::IndexOutOfRange));
    assert_eq!(shift_right_bytes(&bytes, 4), Err(VmError::IndexOutOfRange));
    assert_eq!(shift_left_bytes(&bytes, u64::MAX), Err(VmError::IndexOutOfRange));
    assert_eq!(shift_right_bytes(&vec![], 1), Err(VmError::IndexOutOfRange));
}

#[test]
fn shift_left_then_right_is_lossy_and_keeps_the_length() {
    let bytes = vec![1, 2, 3, 4, 5];
    for amount in 1..=5u64 {
        let left = shift_left_bytes(&bytes, amount).unwrap();
        let back = shift_right_bytes(&left, amount).unwrap();
        assert_eq!(left.len(), bytes.len());
        assert_eq!(back.len(), bytes.len());
        assert_ne!(back, bytes);
    }
    let left = shift_left_bytes(&bytes, 2).unwrap();
    assert_eq!(shift_right_bytes(&left, 2), Ok(vec![0, 0, 3, 0, 0]));
}

#[test]
fn concat_puts_the_second_after_the_first() {
    assert_eq!(concat_bytes(&vec![1, 2], &vec![3]), vec![1, 2, 3]);
    assert_eq!(concat_bytes(&vec![], &vec![3, 4]), vec![3, 4]);
    assert_eq!(concat_bytes(&vec![1], &vec![]), vec![1]);
    assert_eq!(concat_bytes(&vec![], &vec![]), Vec::<u8>::new());
}
