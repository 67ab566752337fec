//! The mathematical model of the stack and of every operation on it.
//!
//! A [`StackModel`] is four sequences, one per physical category.  Each
//! executable operation of the library promises, in its `ensures`
//! clause, that its effect equals one of the spec functions below.

use vstd::prelude::*;

use crate::locals::LocalCounts;
use crate::values::Category;
use crate::values::Error;
use crate::values::InternalValue;
use crate::values::TinyWasmValue;
use crate::values::ValType;
use crate::values::WasmValue;

verus! {

/// The abstract state of the segmented stack: one sequence per
/// category, each listed bottom first, top last.
#[verifier::ext_equal]
pub struct StackModel {
    pub s32: Seq<u32>,
    pub s64: Seq<u64>,
    pub s128: Seq<u128>,
    pub sref: Seq<Option<u32>>,
}

/// The abstract contents of a frame's local slots, one sequence per
/// category, in declaration order.
#[verifier::ext_equal]
pub struct LocalsModel {
    pub l32: Seq<u32>,
    pub l64: Seq<u64>,
    pub l128: Seq<u128>,
    pub lref: Seq<Option<u32>>,
}

/// The stack with all four categories empty.
pub open spec fn empty_model() -> StackModel {
    StackModel {
        s32: Seq::empty(),
        s64: Seq::empty(),
        s128: Seq::empty(),
        sref: Seq::empty(),
    }
}

/// The category a tagged value physically lives in.
pub open spec fn cat_of(t: TinyWasmValue) -> Category {
    match t {
        TinyWasmValue::Value32(_) => Category::S32,
        TinyWasmValue::Value64(_) => Category::S64,
        TinyWasmValue::Value128(_) => Category::S128,
        TinyWasmValue::ValueRef(_) => Category::Ref,
    }
}

/// The length of one category's sequence.
pub open spec fn cat_len(m: StackModel, c: Category) -> nat {
    match c {
        Category::S32 => m.s32.len(),
        Category::S64 => m.s64.len(),
        Category::S128 => m.s128.len(),
        Category::Ref => m.sref.len(),
    }
}

/// The stack after pushing a tagged value onto its own category;
/// the other three categories are untouched.
pub open spec fn push_tiny(m: StackModel, t: TinyWasmValue) -> StackModel {
    match t {
        TinyWasmValue::Value32(v) => StackModel { s32: m.s32.push(v), ..m },
        TinyWasmValue::Value64(v) => StackModel { s64: m.s64.push(v), ..m },
        TinyWasmValue::Value128(v) => StackModel { s128: m.s128.push(v), ..m },
        TinyWasmValue::ValueRef(v) => StackModel { sref: m.sref.push(v), ..m },
    }
}

/// The top value of one category, tagged with that category.
/// Meaningful only when the category is non-empty.
pub open spec fn top_cat(m: StackModel, c: Category) -> TinyWasmValue {
    match c {
        Category::S32 => TinyWasmValue::Value32(m.s32.last()),
        Category::S64 => TinyWasmValue::Value64(m.s64.last()),
        Category::S128 => TinyWasmValue::Value128(m.s128.last()),
        Category::Ref => TinyWasmValue::ValueRef(m.sref.last()),
    }
}

/// The stack after removing the top value of one category; the other
/// three categories are untouched.  Meaningful only when the category
/// is non-empty.
pub open spec fn drop_cat(m: StackModel, c: Category) -> StackModel {
    match c {
        Category::S32 => StackModel { s32: m.s32.drop_last(), ..m },
        Category::S64 => StackModel { s64: m.s64.drop_last(), ..m },
        Category::S128 => StackModel { s128: m.s128.drop_last(), ..m },
        Category::Ref => StackModel { sref: m.sref.drop_last(), ..m },
    }
}

/// The `T`-typed reading of the top value of `T`'s category.
/// Meaningful only when that category is non-empty.
pub open spec fn top_val<T: InternalValue>(m: StackModel) -> T {
    T::from_tiny(top_cat(m, T::cat()))
}

/// The `T`-typed reading of the value directly beneath the top of
/// `T`'s category.  Meaningful only when that category holds at least
/// two values.
pub open spec fn second_val<T: InternalValue>(m: StackModel) -> T {
    T::from_tiny(top_cat(drop_cat(m, T::cat()), T::cat()))
}

/// Result and final state of a `select` on category `c`: a 32-bit
/// condition is popped first, then the top `c` value `val2`; a zero
/// condition replaces the value beneath (`val1`) by `val2`, a non-zero
/// condition keeps `val1` and discards `val2`.  Any pop hitting an
/// empty category stops there with `StackUnderflow`, the earlier pops'
/// effects kept.
pub open spec fn spec_select(m: StackModel, c: Category) -> (Result<(), Error>, StackModel) {
    if m.s32.len() == 0 {
        (Err(Error::StackUnderflow), m)
    } else {
        let cond = m.s32.last() as i32;
        let m1 = drop_cat(m, Category::S32);
        if cat_len(m1, c) == 0 {
            (Err(Error::StackUnderflow), m1)
        } else {
            let val2 = top_cat(m1, c);
            let m2 = drop_cat(m1, c);
            if cond == 0 {
                if cat_len(m2, c) == 0 {
                    (Err(Error::StackUnderflow), m2)
                } else {
                    (Ok(()), push_tiny(drop_cat(m2, c), val2))
                }
            } else {
                (Ok(()), m2)
            }
        }
    }
}

/// Result and final state of a runtime-typed pop: underflow on an
/// empty category, otherwise the top value of the witnessed category.
pub open spec fn spec_pop_dyn(m: StackModel, vt: ValType) -> (Result<TinyWasmValue, Error>, StackModel) {
    let c = vt.spec_category();
    if cat_len(m, c) == 0 {
        (Err(Error::StackUnderflow), m)
    } else {
        (Ok(top_cat(m, c)), drop_cat(m, c))
    }
}

/// The semantic value a raw slot denotes under a type witness.  A null
/// reference slot becomes a `RefNull` of the witnessed reference type.
/// Meaningful only when the slot's category matches the witness's.
pub open spec fn wasm_of(t: TinyWasmValue, vt: ValType) -> WasmValue {
    match vt {
        ValType::I32 => WasmValue::I32(t->Value32_0 as i32),
        ValType::F32 => WasmValue::F32(t->Value32_0),
        ValType::I64 => WasmValue::I64(t->Value64_0 as i64),
        ValType::F64 => WasmValue::F64(t->Value64_0),
        ValType::V128 => WasmValue::V128(t->Value128_0),
        ValType::RefExtern => match t->ValueRef_0 {
            Some(h) => WasmValue::RefExtern(h),
            None => WasmValue::RefNull(ValType::RefExtern),
        },
        ValType::RefFunc => match t->ValueRef_0 {
            Some(h) => WasmValue::RefFunc(h),
            None => WasmValue::RefNull(ValType::RefFunc),
        },
    }
}

/// Result and final state of popping one semantic value under a type
/// witness.
pub open spec fn spec_pop_wasm(m: StackModel, vt: ValType) -> (Result<WasmValue, Error>, StackModel) {
    let c = vt.spec_category();
    if cat_len(m, c) == 0 {
        (Err(Error::StackUnderflow), m)
    } else {
        (Ok(wasm_of(top_cat(m, c), vt)), drop_cat(m, c))
    }
}

/// Result and final state of popping one semantic value per declared
/// type, assembled in declaration order.  The last declared type is on
/// top and so is popped first; an underflow stops the popping there,
/// with the earlier pops' effects kept.
pub open spec fn spec_pop_results(m: StackModel, types: Seq<ValType>) -> (Result<
    Seq<WasmValue>,
    Error,
>, StackModel)
    decreases types.len(),
{
    if types.len() == 0 {
        (Ok(Seq::empty()), m)
    } else {
        let (r0, m1) = spec_pop_wasm(m, types.last());
        match r0 {
            Err(e) => (Err(e), m1),
            Ok(v) => {
                let (rr, m2) = spec_pop_results(m1, types.drop_last());
                match rr {
                    Err(e) => (Err(e), m2),
                    Ok(vs) => (Ok(vs.push(v)), m2),
                }
            },
        }
    }
}

/// An empty group of per-category local values.
pub open spec fn empty_locals() -> LocalsModel {
    LocalsModel {
        l32: Seq::empty(),
        l64: Seq::empty(),
        l128: Seq::empty(),
        lref: Seq::empty(),
    }
}

/// The locals group with one raw value appended to the sequence of its
/// own category.
pub open spec fn locals_append(g: LocalsModel, t: TinyWasmValue) -> LocalsModel {
    match t {
        TinyWasmValue::Value32(v) => LocalsModel { l32: g.l32.push(v), ..g },
        TinyWasmValue::Value64(v) => LocalsModel { l64: g.l64.push(v), ..g },
        TinyWasmValue::Value128(v) => LocalsModel { l128: g.l128.push(v), ..g },
        TinyWasmValue::ValueRef(v) => LocalsModel { lref: g.lref.push(v), ..g },
    }
}

/// Result and final state of popping one raw value per declared type,
/// witnesses taken left to right, each value sorted into its category's
/// sequence; within a category the values come out in declaration
/// order.  An underflow stops the popping there, with the earlier
/// pops' effects kept.
pub open spec fn spec_take_locals(m: StackModel, types: Seq<ValType>) -> (Result<
    LocalsModel,
    Error,
>, StackModel)
    decreases types.len(),
{
    if types.len() == 0 {
        (Ok(empty_locals()), m)
    } else {
        let (r0, m1) = spec_pop_dyn(m, types.first());
        match r0 {
            Err(e) => (Err(e), m1),
            Ok(t) => {
                let (rr, m2) = spec_take_locals(m1, types.drop_first());
                match rr {
                    Err(e) => (Err(e), m2),
                    Ok(g) => (Ok(locals_append(g, t)), m2),
                }
            },
        }
    }
}

/// How many of the declared types select the given category.
pub open spec fn count_cat(types: Seq<ValType>, c: Category) -> nat
    decreases types.len(),
{
    if types.len() == 0 {
        0
    } else {
        (if types.first().spec_category() == c {
            1nat
        } else {
            0nat
        }) + count_cat(types.drop_first(), c)
    }
}

/// A successful locals extraction yields, per category, exactly as
/// many values as the declared types select that category.
pub proof fn lemma_take_locals_counts(m: StackModel, types: Seq<ValType>)
    ensures
        ({
            let (rr, mm) = spec_take_locals(m, types);
            rr is Ok ==> {
                &&& rr->Ok_0.l32.len() == count_cat(types, Category::S32)
                &&& rr->Ok_0.l64.len() == count_cat(types, Category::S64)
                &&& rr->Ok_0.l128.len() == count_cat(types, Category::S128)
                &&& rr->Ok_0.lref.len() == count_cat(types, Category::Ref)
            }
        }),
    decreases types.len(),
{
    if types.len() > 0 {
        let (r0, m1) = spec_pop_dyn(m, types.first());
        if r0 is Ok {
            lemma_take_locals_counts(m1, types.drop_first());
        }
    }
}

/// Result and final state of the whole call-entry extraction: the
/// argument values per category in declaration order, extended with
/// default values up to the declared counts.
pub open spec fn spec_pop_locals(m: StackModel, types: Seq<ValType>, lc: LocalCounts) -> (Result<
    LocalsModel,
    Error,
>, StackModel) {
    let (rr, mm) = spec_take_locals(m, types);
    match rr {
        Err(e) => (Err(e), mm),
        Ok(g) => (
            Ok(
                LocalsModel {
                    l32: zero_extend32(g.l32, lc.local_32 as nat),
                    l64: zero_extend64(g.l64, lc.local_64 as nat),
                    l128: zero_extend128(g.l128, lc.local_128 as nat),
                    lref: zero_extend_ref(g.lref, lc.local_ref as nat),
                },
            ),
            mm,
        ),
    }
}

/// A sequence extended with default (zero / null) values to the given
/// length.  Meaningful only when the target length is not smaller.
pub open spec fn zero_extend32(s: Seq<u32>, n: nat) -> Seq<u32> {
    s + Seq::new((n - s.len()) as nat, |i: int| 0u32)
}

/// As [`zero_extend32`], for the 64-bit category.
pub open spec fn zero_extend64(s: Seq<u64>, n: nat) -> Seq<u64> {
    s + Seq::new((n - s.len()) as nat, |i: int| 0u64)
}

/// As [`zero_extend32`], for the 128-bit category.
pub open spec fn zero_extend128(s: Seq<u128>, n: nat) -> Seq<u128> {
    s + Seq::new((n - s.len()) as nat, |i: int| 0u128)
}

/// As [`zero_extend32`], for the reference category: the default is the
/// null reference.
pub open spec fn zero_extend_ref(s: Seq<Option<u32>>, n: nat) -> Seq<Option<u32>> {
    s + Seq::new((n - s.len()) as nat, |i: int| None::<u32>)
}

/// One category's sequence after a frame unwind: unchanged if it never
/// grew past the saved depth, otherwise the first `to` values (the
/// enclosing frame's) followed by the last `keep` values (the exiting
/// frame's results), with everything in between discarded.
pub open spec fn truncated_keep<A>(s: Seq<A>, to: nat, keep: nat) -> Seq<A> {
    if s.len() <= to {
        s
    } else {
        s.take(to as int) + s.skip(s.len() - keep)
    }
}

/// The stack after pushing each semantic value in order, each onto its
/// own category.
pub open spec fn spec_extend(m: StackModel, vs: Seq<WasmValue>) -> StackModel
    decreases vs.len(),
{
    if vs.len() == 0 {
        m
    } else {
        spec_extend(push_tiny(m, vs.first().spec_as_tiny()), vs.drop_first())
    }
}

} // verus!
