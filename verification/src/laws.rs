//! The library's cross-operation guarantees, stated once over the
//! model and proved for every stack state and every value.

use vstd::prelude::*;

use crate::model::cat_len;
use crate::model::cat_of;
use crate::model::drop_cat;
use crate::model::push_tiny;
use crate::model::second_val;
use crate::model::spec_extend;
use crate::model::spec_pop_results;
use crate::model::spec_select;
use crate::model::top_cat;
use crate::model::top_val;
use crate::model::wasm_of;
use crate::model::StackModel;
use crate::values::Error;
use crate::values::InternalValue;
use crate::values::TinyWasmValue;
use crate::values::WasmValue;

verus! {

/// Round trip: on any stack, popping a `T` right after pushing a `T`
/// value returns exactly that value and restores the stack as it was.
pub proof fn lemma_push_then_pop<T: InternalValue>(m: StackModel, v: T)
    ensures
        ({
            let m1 = push_tiny(m, v.to_tiny());
            &&& cat_len(m1, T::cat()) > 0
            &&& top_val::<T>(m1) == v
            &&& drop_cat(m1, T::cat()) == m
        }),
{
    v.lemma_to_tiny_inverse();
    assert(drop_cat(push_tiny(m, v.to_tiny()), T::cat()) =~= m);
}

/// Select keeps exactly one of the two `T` values beneath the
/// condition: on any stack, after pushing `a`, then `b`, then a
/// 32-bit condition, `select` succeeds and leaves the stack as if
/// only `b` (condition zero) or only `a` (condition non-zero) had
/// been pushed.
pub proof fn lemma_select_chooses<T: InternalValue>(m: StackModel, a: T, b: T, cond: i32)
    ensures
        ({
            let m1 = push_tiny(
                push_tiny(push_tiny(m, a.to_tiny()), b.to_tiny()),
                TinyWasmValue::Value32(cond as u32),
            );
            let (r, m2) = spec_select(m1, T::cat());
            &&& r == Ok::<(), Error>(())
            &&& m2 == push_tiny(m, if cond == 0 { b.to_tiny() } else { a.to_tiny() })
        }),
{
    a.lemma_to_tiny_inverse();
    b.lemma_to_tiny_inverse();
    assert(cond as u32 as i32 == cond) by (bit_vector);
    let m1 = push_tiny(
        push_tiny(push_tiny(m, a.to_tiny()), b.to_tiny()),
        TinyWasmValue::Value32(cond as u32),
    );
    let (r, m2) = spec_select(m1, T::cat());
    assert(m2 =~= push_tiny(m, if cond == 0 { b.to_tiny() } else { a.to_tiny() }));
}

/// The binary operator sees its operands in push order: on any stack,
/// after pushing `v1` and then `v2`, the operand pair handed to
/// `calculate`'s function — popped right operand first — is exactly
/// `(v1, v2)`, never `(v2, v1)`.
pub proof fn lemma_calculate_operand_order<T: InternalValue>(m: StackModel, v1: T, v2: T)
    ensures
        ({
            let m1 = push_tiny(push_tiny(m, v1.to_tiny()), v2.to_tiny());
            &&& cat_len(m1, T::cat()) >= 2
            &&& second_val::<T>(m1) == v1
            &&& top_val::<T>(m1) == v2
        }),
{
    v1.lemma_to_tiny_inverse();
    v2.lemma_to_tiny_inverse();
    let m1 = push_tiny(push_tiny(m, v1.to_tiny()), v2.to_tiny());
    assert(drop_cat(m1, T::cat()) =~= push_tiny(m, v1.to_tiny()));
}

/// Pushing the last of a value sequence commutes with seeding the
/// stack from the rest.
proof fn lemma_extend_push_last(m: StackModel, vs: Seq<WasmValue>, v: WasmValue)
    ensures
        spec_extend(m, vs.push(v)) == push_tiny(spec_extend(m, vs), v.spec_as_tiny()),
    decreases vs.len(),
{
    let s = vs.push(v);
    if vs.len() == 0 {
        assert(s.first() == v);
        assert(s.drop_first().len() == 0);
        assert(spec_extend(m, s) == spec_extend(push_tiny(m, v.spec_as_tiny()), s.drop_first()));
        assert(spec_extend(push_tiny(m, v.spec_as_tiny()), s.drop_first()) == push_tiny(
            m,
            v.spec_as_tiny(),
        ));
        assert(spec_extend(m, vs) == m);
    } else {
        assert(s.first() == vs.first());
        assert(s.drop_first() =~= vs.drop_first().push(v));
        let m1 = push_tiny(m, vs.first().spec_as_tiny());
        assert(spec_extend(m, s) == spec_extend(m1, s.drop_first()));
        lemma_extend_push_last(m1, vs.drop_first(), v);
        assert(spec_extend(m, vs) == spec_extend(m1, vs.drop_first()));
    }
}

/// A well-formed semantic value survives the trip through its raw
/// slot: reading the slot back under the value's own type witness
/// yields the value, null references included.
pub proof fn lemma_wasm_round_trip(v: WasmValue)
    requires
        v.is_valid(),
    ensures
        wasm_of(v.spec_as_tiny(), v.spec_val_type()) == v,
{
    match v {
        WasmValue::I32(x) => {
            assert(x as u32 as i32 == x) by (bit_vector);
        },
        WasmValue::I64(x) => {
            assert(x as u64 as i64 == x) by (bit_vector);
        },
        _ => {},
    }
}

/// Seeding the stack from a sequence of well-formed semantic values
/// and then popping one value per seeded type, under the values' own
/// type witnesses, reconstructs exactly the original sequence — the
/// two null reference kinds included — and restores the stack as it
/// was.
pub proof fn lemma_extend_then_pop_results(m: StackModel, vs: Seq<WasmValue>)
    requires
        forall|i: int| 0 <= i < vs.len() ==> (#[trigger] vs[i]).is_valid(),
    ensures
        ({
            let types = vs.map_values(|v: WasmValue| v.spec_val_type());
            let (rr, mm) = spec_pop_results(spec_extend(m, vs), types);
            rr == Ok::<Seq<WasmValue>, Error>(vs) && mm == m
        }),
    decreases vs.len(),
{
    let types = vs.map_values(|v: WasmValue| v.spec_val_type());
    if vs.len() == 0 {
        assert(spec_extend(m, vs) == m);
        assert(vs =~= Seq::<WasmValue>::empty());
    } else {
        let v = vs.last();
        let prefix = vs.drop_last();
        assert(vs =~= prefix.push(v));
        lemma_extend_push_last(m, prefix, v);
        let med = spec_extend(m, prefix);
        let t = v.spec_as_tiny();
        let ext_full = spec_extend(m, vs);
        assert(ext_full == push_tiny(med, t));
        let c = v.spec_val_type().spec_category();
        assert(cat_of(t) == c);
        assert(cat_len(push_tiny(med, t), c) == cat_len(med, c) + 1);
        assert(top_cat(push_tiny(med, t), c) == t);
        assert(types.len() == vs.len());
        assert(types.last() == v.spec_val_type());
        assert(types.drop_last() =~= prefix.map_values(|x: WasmValue| x.spec_val_type()));
        lemma_wasm_round_trip(v);
        assert(drop_cat(push_tiny(med, t), c) =~= med);
        lemma_extend_then_pop_results(m, prefix);
        assert(prefix.push(v) =~= vs);
    }
}

} // verus!
