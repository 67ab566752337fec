use operand_stack::locals::LocalCounts;
use operand_stack::value_stack::ValueStack;
use operand_stack::values::Error;
use operand_stack::values::TinyWasmValue;
use operand_stack::values::ValType;
use operand_stack::values::WasmValue;

#[test]
fn push_dyn_pop_dyn_every_category() {
    let mut s = ValueStack::new();
    s.push_dyn(TinyWasmValue::Value32(1));
    s.push_dyn(TinyWasmValue::Value64(2));
    s.push_dyn(TinyWasmValue::Value128(3));
    s.push_dyn(TinyWasmValue::ValueRef(Some(4)));
    assert_eq!(s.pop_dyn(ValType::I32), Ok(TinyWasmValue::Value32(1)));
    assert_eq!(s.pop_dyn(ValType::I64), Ok(TinyWasmValue::Value64(2)));
    assert_eq!(s.pop_dyn(ValType::V128), Ok(TinyWasmValue::Value128(3)));
    assert_eq!(s.pop_dyn(ValType::RefFunc), Ok(TinyWasmValue::ValueRef(Some(4))));
}

#[test]
fn pop_dyn_float_witnesses_share_integer_categories() {
    let mut s = ValueStack::new();
    s.push(1.5f32.to_bits());
    s.push(2.5f64.to_bits());
    assert_eq!(s.pop_dyn(ValType::F32), Ok(TinyWasmValue::Value32(1.5f32.to_bits())));
    assert_eq!(s.pop_dyn(ValType::F64), Ok(TinyWasmValue::Value64(2.5f64.to_bits())));
}

#[test]
fn pop_dyn_underflow() {
    let mut s = ValueStack::new();
    assert_eq!(s.pop_dyn(ValType::RefExtern), Err(Error::StackUnderflow));
}

#[test]
fn pop_wasmvalue_distinguishes_null_reference_kinds() {
    let mut s = ValueStack::new();
    s.push_dyn(TinyWasmValue::ValueRef(None));
    s.push_dyn(TinyWasmValue::ValueRef(None));
    assert_eq!(s.pop_wasmvalue(ValType::RefFunc), Ok(WasmValue::RefNull(ValType::RefFunc)));
    assert_eq!(s.pop_wasmvalue(ValType::RefExtern), Ok(WasmValue::RefNull(ValType::RefExtern)));
}

#[test]
fn pop_results_returns_declaration_order() {
    let mut s = ValueStack::new();
    // Declared results [F32, I32], produced and pushed in that order.
    s.push(1.5f32.to_bits());
    s.push(7i32);
    let r = s.pop_results(&[ValType::F32, ValType::I32]);
    assert_eq!(r, Ok(vec![WasmValue::F32(1.5f32.to_bits()), WasmValue::I32(7)]));
}

#[test]
fn pop_results_same_category_order() {
    let mut s = ValueStack::new();
    s.push(1i32);
    s.push(2i32);
    s.push(3i32);
    let r = s.pop_results(&[ValType::I32, ValType::I32, ValType::I32]);
    assert_eq!(r, Ok(vec![WasmValue::I32(1), WasmValue::I32(2), WasmValue::I32(3)]));
    assert_eq!(s.height().s32, 0);
}

#[test]
fn pop_results_underflow_keeps_earlier_pops() {
    let mut s = ValueStack::new();
    s.push(5u64);
    // Last declared type I64 pops fine, then the I32 pop underflows.
    let r = s.pop_results(&[ValType::I32, ValType::I64]);
    assert_eq!(r, Err(Error::StackUnderflow));
    assert_eq!(s.height().s64, 0);
}

#[test]
fn pop_params_matches_declaration_order() {
    let mut s = ValueStack::new();
    s.push(8i32);
    s.push(-9i64);
    let r = s.pop_params(&[ValType::I32, ValType::I64]);
    assert_eq!(r, Ok(vec![WasmValue::I32(8), WasmValue::I64(-9)]));
}

#[test]
fn pop_locals_sorts_reverses_and_zero_fills() {
    let mut s = ValueStack::new();
    s.push(10i32);
    s.push(20i64);
    let counts = LocalCounts { local_32: 2, local_64: 1, local_128: 0, local_ref: 0 };
    let locals = s.pop_locals(&[ValType::I32, ValType::I64], counts).unwrap();
    assert_eq!(locals.locals_32, vec![10u32, 0u32]);
    assert_eq!(locals.locals_64, vec![20u64]);
    assert_eq!(locals.locals_128, Vec::<u128>::new());
    assert_eq!(locals.locals_ref, Vec::<Option<u32>>::new());
}

#[test]
fn pop_locals_same_category_declaration_order() {
    let mut s = ValueStack::new();
    s.push(1u32);
    s.push(2u32);
    s.push(3u32);
    let counts = LocalCounts { local_32: 4, local_64: 0, local_128: 0, local_ref: 0 };
    let locals = s.pop_locals(&[ValType::I32, ValType::I32, ValType::I32], counts).unwrap();
    assert_eq!(locals.locals_32, vec![1u32, 2, 3, 0]);
}

#[test]
fn pop_locals_null_reference_default() {
    let mut s = ValueStack::new();
    s.push(Some(9u32));
    let counts = LocalCounts { local_32: 0, local_64: 0, local_128: 0, local_ref: 2 };
    let locals = s.pop_locals(&[ValType::RefFunc], counts).unwrap();
    assert_eq!(locals.locals_ref, vec![Some(9u32), None]);
}

#[test]
fn pop_locals_underflow() {
    let mut s = ValueStack::new();
    s.push(1u32);
    let counts = LocalCounts { local_32: 2, local_64: 1, local_128: 0, local_ref: 0 };
    let r = s.pop_locals(&[ValType::I32, ValType::I64], counts);
    assert!(r.is_err());
    assert_eq!(s.height().s32, 0); // the first pop went through
}

#[test]
fn extend_then_pop_dyn_in_reverse_reconstructs() {
    let mut s = ValueStack::new();
    let values =
        [WasmValue::I32(-1), WasmValue::F64(2.5f64.to_bits()), WasmValue::RefFunc(3), WasmValue::V128(4)];
    s.extend_from_wasmvalues(&values);
    assert_eq!(s.pop_dyn(ValType::V128), Ok(TinyWasmValue::Value128(4)));
    assert_eq!(s.pop_dyn(ValType::RefFunc), Ok(TinyWasmValue::ValueRef(Some(3))));
    assert_eq!(s.pop_dyn(ValType::F64), Ok(TinyWasmValue::Value64(2.5f64.to_bits())));
    assert_eq!(s.pop_dyn(ValType::I32), Ok(TinyWasmValue::Value32(-1i32 as u32)));
    assert_eq!(s.height(), ValueStack::new().height());
}

#[test]
fn extend_then_pop_wasmvalue_round_trips_null_references() {
    let mut s = ValueStack::new();
    let values = [
        WasmValue::RefNull(ValType::RefFunc),
        WasmValue::RefNull(ValType::RefExtern),
        WasmValue::RefExtern(7),
    ];
    s.extend_from_wasmvalues(&values);
    // Pop in reverse, each under its own type witness.
    assert_eq!(s.pop_wasmvalue(ValType::RefExtern), Ok(WasmValue::RefExtern(7)));
    assert_eq!(s.pop_wasmvalue(ValType::RefExtern), Ok(WasmValue::RefNull(ValType::RefExtern)));
    assert_eq!(s.pop_wasmvalue(ValType::RefFunc), Ok(WasmValue::RefNull(ValType::RefFunc)));
}

#[test]
fn extend_then_pop_results_round_trips() {
    let mut s = ValueStack::new();
    let values = [
        WasmValue::I32(5),
        WasmValue::F32(0.25f32.to_bits()),
        WasmValue::I64(-6),
        WasmValue::RefNull(ValType::RefFunc),
    ];
    s.extend_from_wasmvalues(&values);
    let types: Vec<ValType> = values.iter().map(|v| v.val_type()).collect();
    let r = s.pop_results(&types);
    assert_eq!(r, Ok(values.to_vec()));
    assert_eq!(s.height(), ValueStack::new().height());
}
