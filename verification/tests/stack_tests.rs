use operand_stack::value_stack::StackHeight;
use operand_stack::value_stack::StackLocation;
use operand_stack::value_stack::ValueStack;
use operand_stack::values::Error;

#[test]
fn new_stack_is_empty() {
    let s = ValueStack::new();
    let h = s.height();
    assert_eq!(h, StackLocation { s32: 0, s64: 0, s128: 0, sref: 0 });
}

#[test]
fn push_pop_round_trip_u32() {
    let mut s = ValueStack::new();
    s.push(5u32);
    assert_eq!(s.pop::<u32>(), Ok(5u32));
    assert_eq!(s.height().s32, 0);
}

#[test]
fn push_pop_round_trip_i32() {
    let mut s = ValueStack::new();
    s.push(-7i32);
    assert_eq!(s.pop::<i32>(), Ok(-7i32));
}

#[test]
fn push_pop_round_trip_u64() {
    let mut s = ValueStack::new();
    s.push(u64::MAX);
    assert_eq!(s.pop::<u64>(), Ok(u64::MAX));
}

#[test]
fn push_pop_round_trip_i64() {
    let mut s = ValueStack::new();
    s.push(i64::MIN);
    assert_eq!(s.pop::<i64>(), Ok(i64::MIN));
}

#[test]
fn push_pop_round_trip_u128() {
    let mut s = ValueStack::new();
    s.push(1u128 << 100);
    assert_eq!(s.pop::<u128>(), Ok(1u128 << 100));
}

#[test]
fn push_pop_round_trip_ref() {
    let mut s = ValueStack::new();
    s.push(Some(42u32));
    assert_eq!(s.pop::<Option<u32>>(), Ok(Some(42u32)));
    s.push(None::<u32>);
    assert_eq!(s.pop::<Option<u32>>(), Ok(None));
}

#[test]
fn push_pop_lifo_order() {
    let mut s = ValueStack::new();
    s.push(1u32);
    s.push(2u32);
    s.push(3u32);
    assert_eq!(s.pop::<u32>(), Ok(3));
    assert_eq!(s.pop::<u32>(), Ok(2));
    assert_eq!(s.pop::<u32>(), Ok(1));
}

#[test]
fn pop_underflow_leaves_all_lengths_unchanged() {
    let mut s = ValueStack::new();
    s.push(1u64);
    s.push(9u128);
    let before = s.height();
    assert_eq!(s.pop::<u32>(), Err(Error::StackUnderflow));
    assert_eq!(s.height(), before);
    assert_eq!(s.pop::<Option<u32>>(), Err(Error::StackUnderflow));
    assert_eq!(s.height(), before);
}

#[test]
fn peek_reads_without_removing() {
    let mut s = ValueStack::new();
    s.push(11u32);
    s.push(22u32);
    assert_eq!(s.peek::<u32>(), Ok(22));
    assert_eq!(s.height().s32, 2);
    assert_eq!(s.peek::<u64>(), Err(Error::StackUnderflow));
}

#[test]
fn drop_discards_top() {
    let mut s = ValueStack::new();
    s.push(11u32);
    s.push(22u32);
    assert_eq!(s.drop::<u32>(), Ok(()));
    assert_eq!(s.pop::<u32>(), Ok(11));
    assert_eq!(s.drop::<u32>(), Err(Error::StackUnderflow));
}

#[test]
fn select_zero_condition_keeps_val2() {
    let mut s = ValueStack::new();
    s.push(10u32); // val1
    s.push(20u32); // val2
    s.push(0i32); // condition
    assert_eq!(s.select::<u32>(), Ok(()));
    assert_eq!(s.height().s32, 1);
    assert_eq!(s.pop::<u32>(), Ok(20));
}

#[test]
fn select_nonzero_condition_keeps_val1() {
    let mut s = ValueStack::new();
    s.push(10u32);
    s.push(20u32);
    s.push(-1i32);
    assert_eq!(s.select::<u32>(), Ok(()));
    assert_eq!(s.height().s32, 1);
    assert_eq!(s.pop::<u32>(), Ok(10));
}

#[test]
fn select_other_category_than_condition() {
    let mut s = ValueStack::new();
    s.push(100u64);
    s.push(200u64);
    s.push(0i32);
    assert_eq!(s.select::<u64>(), Ok(()));
    assert_eq!(s.height().s32, 0);
    assert_eq!(s.height().s64, 1);
    assert_eq!(s.pop::<u64>(), Ok(200));
}

#[test]
fn select_underflow_on_missing_operands() {
    let mut s = ValueStack::new();
    s.push(7u64); // only one operand
    s.push(0i32); // condition
    assert_eq!(s.select::<u64>(), Err(Error::StackUnderflow));
}

#[test]
fn calculate_pops_right_operand_first() {
    let mut s = ValueStack::new();
    s.push(10i32); // v1, pushed first
    s.push(3i32); // v2, pushed second
    // A non-commutative operator shows the order: 10 - 3, not 3 - 10.
    let r = s.calculate(|v1: i32, v2: i32| Ok::<i32, Error>(v1.wrapping_sub(v2)));
    assert_eq!(r, Ok(()));
    assert_eq!(s.pop::<i32>(), Ok(7));
}

#[test]
fn calculate_propagates_operator_error_after_pops() {
    let mut s = ValueStack::new();
    s.push(8u32);
    s.push(0u32);
    let r = s.calculate(|a: u32, b: u32| {
        if b == 0 {
            Err::<u32, Error>(Error::OperatorFailure)
        } else {
            Ok(a / b)
        }
    });
    assert_eq!(r, Err(Error::OperatorFailure));
    // Both operands are consumed and no result was pushed.
    assert_eq!(s.height().s32, 0);
}

#[test]
fn calculate_underflow_with_one_operand() {
    let mut s = ValueStack::new();
    s.push(8u32);
    let r = s.calculate(|a: u32, _b: u32| Ok::<u32, Error>(a));
    assert_eq!(r, Err(Error::StackUnderflow));
    assert_eq!(s.height().s32, 0);
}

#[test]
fn calculate_can_change_category() {
    let mut s = ValueStack::new();
    s.push(6u32);
    s.push(7u32);
    let r = s.calculate(|a: u32, b: u32| Ok::<u64, Error>(a as u64 * b as u64));
    assert_eq!(r, Ok(()));
    assert_eq!(s.height().s32, 0);
    assert_eq!(s.pop::<u64>(), Ok(42u64));
}

#[test]
fn replace_top_applies_unary_operator() {
    let mut s = ValueStack::new();
    s.push(5i32);
    let r = s.replace_top(|v: i32| Ok::<i32, Error>(v.wrapping_neg()));
    assert_eq!(r, Ok(()));
    assert_eq!(s.pop::<i32>(), Ok(-5));
}

#[test]
fn replace_top_propagates_operator_error() {
    let mut s = ValueStack::new();
    s.push(5i32);
    let r = s.replace_top(|_v: i32| Err::<i32, Error>(Error::OperatorFailure));
    assert_eq!(r, Err(Error::OperatorFailure));
    assert_eq!(s.height().s32, 0);
}

#[test]
fn truncate_keep_removes_middle_range() {
    let mut s = ValueStack::new();
    for v in [100u32, 101, 102, 103, 104] {
        s.push(v);
    }
    let to = StackLocation { s32: 2, s64: 0, s128: 0, sref: 0 };
    let keep = StackHeight { s32: 1, s64: 0, s128: 0, sref: 0 };
    s.truncate_keep(&to, &keep);
    assert_eq!(s.height().s32, 3);
    assert_eq!(s.pop::<u32>(), Ok(104)); // the old top survives
    assert_eq!(s.pop::<u32>(), Ok(101)); // indices 0 and 1 untouched
    assert_eq!(s.pop::<u32>(), Ok(100));
}

#[test]
fn truncate_keep_noop_at_or_below_saved_depth() {
    let mut s = ValueStack::new();
    s.push(1u64);
    let to = StackLocation { s32: 0, s64: 3, s128: 0, sref: 0 };
    let keep = StackHeight { s32: 0, s64: 1, s128: 0, sref: 0 };
    s.truncate_keep(&to, &keep);
    assert_eq!(s.height().s64, 1);
    assert_eq!(s.pop::<u64>(), Ok(1));
}

#[test]
fn truncate_keep_acts_per_category() {
    let mut s = ValueStack::new();
    s.push(1u32);
    s.push(2u32);
    s.push(10u64);
    s.push(20u64);
    s.push(30u64);
    let to = StackLocation { s32: 1, s64: 0, s128: 0, sref: 0 };
    let keep = StackHeight { s32: 0, s64: 1, s128: 0, sref: 0 };
    s.truncate_keep(&to, &keep);
    assert_eq!(s.height().s32, 1);
    assert_eq!(s.height().s64, 1);
    assert_eq!(s.pop::<u32>(), Ok(1));
    assert_eq!(s.pop::<u64>(), Ok(30));
}

#[test]
fn height_snapshots_all_categories() {
    let mut s = ValueStack::new();
    s.push(1u32);
    s.push(2u64);
    s.push(3u64);
    s.push(4u128);
    s.push(Some(5u32));
    let h = s.height();
    assert_eq!(h, StackLocation { s32: 1, s64: 2, s128: 1, sref: 1 });
}
