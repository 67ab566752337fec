//! The segmented value stack and the operations the instruction loop
//! drives it with.

use vstd::prelude::*;

use crate::locals::LocalCounts;
use crate::locals::Locals;
use crate::model::cat_len;
use crate::model::count_cat;
use crate::model::drop_cat;
use crate::model::empty_locals;
use crate::model::empty_model;
use crate::model::lemma_take_locals_counts;
use crate::model::push_tiny;
use crate::model::second_val;
use crate::model::spec_extend;
use crate::model::spec_pop_dyn;
use crate::model::spec_pop_locals;
use crate::model::spec_pop_results;
use crate::model::spec_pop_wasm;
use crate::model::spec_select;
use crate::model::spec_take_locals;
use crate::model::top_cat;
use crate::model::top_val;
use crate::model::truncated_keep;
use crate::model::LocalsModel;
use crate::model::StackModel;
use crate::values::Category;
use crate::values::Error;
use crate::values::InternalValue;
use crate::values::TinyWasmValue;
use crate::values::ValType;
use crate::values::ValueRef;
use crate::values::WasmValue;

verus! {

/// Initial reservation for the 32-bit category.
pub const STACK_32_SIZE: usize = 1024 * 128;

/// Initial reservation for the 64-bit category.
pub const STACK_64_SIZE: usize = 1024 * 128;

/// Initial reservation for the 128-bit category.
pub const STACK_128_SIZE: usize = 1024 * 128;

/// Initial reservation for the reference category.
pub const STACK_REF_SIZE: usize = 1024;

/// An absolute snapshot of the four category depths, taken at block or
/// call entry and handed back at exit.
#[derive(Clone, Copy, Debug, PartialEq, Eq, Structural)]
pub struct StackLocation {
    pub s32: usize,
    pub s64: usize,
    pub s128: usize,
    pub sref: usize,
}

/// A relative count per category: how many top values an unwind keeps.
#[derive(Clone, Copy, Debug, PartialEq, Eq, Structural)]
pub struct StackHeight {
    pub s32: usize,
    pub s64: usize,
    pub s128: usize,
    pub sref: usize,
}

/// The operand stack: four independently growing sequences, one per
/// physical category.  Each is reserved to a large fixed capacity up
/// front and grows dynamically past it in the exceptional case.
#[derive(Debug)]
pub struct ValueStack {
    pub stack_32: Vec<u32>,
    pub stack_64: Vec<u64>,
    pub stack_128: Vec<u128>,
    pub stack_ref: Vec<Option<u32>>,
}

impl View for ValueStack {
    type V = StackModel;

    open spec fn view(&self) -> StackModel {
        StackModel {
            s32: self.stack_32@,
            s64: self.stack_64@,
            s128: self.stack_128@,
            sref: self.stack_ref@,
        }
    }
}

impl ValueStack {
    /// An empty stack with each category's capacity reserved.
    pub fn new() -> (s: Self)
        ensures
            s@ == empty_model(),
    {
        Self {
            stack_32: Vec::with_capacity(STACK_32_SIZE),
            stack_64: Vec::with_capacity(STACK_64_SIZE),
            stack_128: Vec::with_capacity(STACK_128_SIZE),
            stack_ref: Vec::with_capacity(STACK_REF_SIZE),
        }
    }

    /// A snapshot of all four current depths; reads nothing else and
    /// changes nothing.
    pub fn height(&self) -> (h: StackLocation)
        ensures
            h.s32 == self@.s32.len(),
            h.s64 == self@.s64.len(),
            h.s128 == self@.s128.len(),
            h.sref == self@.sref.len(),
    {
        StackLocation {
            s32: self.stack_32.len(),
            s64: self.stack_64.len(),
            s128: self.stack_128.len(),
            sref: self.stack_ref.len(),
        }
    }

    /// Pushes a value onto its type's category; the other categories
    /// are untouched.
    pub fn push<T: InternalValue>(&mut self, value: T)
        ensures
            final(self)@ == push_tiny(old(self)@, value.to_tiny()),
    {
        T::stack_push(self, value)
    }

    /// Pops the top of `T`'s category, or fails with `StackUnderflow`
    /// on an empty category, leaving the stack unchanged.
    pub fn pop<T: InternalValue>(&mut self) -> (r: Result<T, Error>)
        ensures
            cat_len(old(self)@, T::cat()) == 0 ==> r == Err::<T, Error>(Error::StackUnderflow)
                && final(self)@ == old(self)@,
            cat_len(old(self)@, T::cat()) > 0 ==> r == Ok::<T, Error>(top_val::<T>(old(self)@))
                && final(self)@ == drop_cat(old(self)@, T::cat()),
    {
        T::stack_pop(self)
    }

    /// Reads the top of `T`'s category without removing it, or fails
    /// with `StackUnderflow` on an empty category.
    pub fn peek<T: InternalValue>(&self) -> (r: Result<T, Error>)
        ensures
            cat_len(self@, T::cat()) == 0 ==> r == Err::<T, Error>(Error::StackUnderflow),
            cat_len(self@, T::cat()) > 0 ==> r == Ok::<T, Error>(top_val::<T>(self@)),
    {
        T::stack_peek(self)
    }

    /// Pops and discards the top of `T`'s category, or fails with
    /// `StackUnderflow` on an empty category, leaving the stack
    /// unchanged.
    pub fn drop<T: InternalValue>(&mut self) -> (r: Result<(), Error>)
        ensures
            cat_len(old(self)@, T::cat()) == 0 ==> r == Err::<(), Error>(Error::StackUnderflow)
                && final(self)@ == old(self)@,
            cat_len(old(self)@, T::cat()) > 0 ==> r == Ok::<(), Error>(()) && final(self)@
                == drop_cat(old(self)@, T::cat()),
    {
        match T::stack_pop(self) {
            Ok(_) => Ok(()),
            Err(e) => Err(e),
        }
    }

    /// The ternary select: consumes a 32-bit condition and the top `T`
    /// value `val2`; of the two `T` values beneath the condition,
    /// exactly one survives — `val2` if the condition is zero, the one
    /// beneath it otherwise.
    pub fn select<T: InternalValue>(&mut self) -> (r: Result<(), Error>)
        ensures
            ({
                let (sr, sm) = spec_select(old(self)@, T::cat());
                r == sr && final(self)@ == sm
            }),
    {
        let cond: i32 = match self.pop::<i32>() {
            Ok(v) => v,
            Err(e) => {
                return Err(e);
            },
        };
        let val2: T = match self.pop::<T>() {
            Ok(v) => v,
            Err(e) => {
                return Err(e);
            },
        };
        if cond == 0 {
            match self.drop::<T>() {
                Ok(_) => {},
                Err(e) => {
                    return Err(e);
                },
            }
            proof {
                T::lemma_from_tiny_exact(top_cat(drop_cat(old(self)@, Category::S32), T::cat()));
            }
            self.push(val2);
        }
        Ok(())
    }

    /// The binary operator shape: pops the right operand `v2`, then the
    /// left operand `v1`, applies `func(v1, v2)` and pushes its result.
    /// An underflow stops there with `StackUnderflow` (operands popped
    /// so far stay consumed); a failing `func` has its error propagated
    /// verbatim, with both operands consumed and nothing pushed.
    pub fn calculate<T: InternalValue, U: InternalValue, F: Fn(T, T) -> Result<U, Error>>(
        &mut self,
        func: F,
    ) -> (r: Result<(), Error>)
        requires
            cat_len(old(self)@, T::cat()) >= 2 ==> call_requires(
                func,
                (second_val::<T>(old(self)@), top_val::<T>(old(self)@)),
            ),
        ensures
            cat_len(old(self)@, T::cat()) == 0 ==> r == Err::<(), Error>(Error::StackUnderflow)
                && final(self)@ == old(self)@,
            cat_len(old(self)@, T::cat()) == 1 ==> r == Err::<(), Error>(Error::StackUnderflow)
                && final(self)@ == drop_cat(old(self)@, T::cat()),
            cat_len(old(self)@, T::cat()) >= 2 ==> ({
                let rest = drop_cat(drop_cat(old(self)@, T::cat()), T::cat());
                exists|fr: Result<U, Error>|
                    {
                        &&& #[trigger] call_ensures(
                            func,
                            (second_val::<T>(old(self)@), top_val::<T>(old(self)@)),
                            fr,
                        )
                        &&& match fr {
                            Ok(u) => r == Ok::<(), Error>(()) && final(self)@ == push_tiny(
                                rest,
                                u.to_tiny(),
                            ),
                            Err(e) => r == Err::<(), Error>(e) && final(self)@ == rest,
                        }
                    }
            }),
    {
        let v2: T = match T::stack_pop(self) {
            Ok(v) => v,
            Err(e) => {
                return Err(e);
            },
        };
        let v1: T = match T::stack_pop(self) {
            Ok(v) => v,
            Err(e) => {
                return Err(e);
            },
        };
        let u: U = match func(v1, v2) {
            Ok(u) => u,
            Err(e) => {
                return Err(e);
            },
        };
        U::stack_push(self, u);
        Ok(())
    }

    /// The unary operator shape: pops one `T`, applies `func` and
    /// pushes its result.  Failure handling is as for `calculate`.
    pub fn replace_top<T: InternalValue, U: InternalValue, F: Fn(T) -> Result<U, Error>>(
        &mut self,
        func: F,
    ) -> (r: Result<(), Error>)
        requires
            cat_len(old(self)@, T::cat()) >= 1 ==> call_requires(
                func,
                (top_val::<T>(old(self)@),),
            ),
        ensures
            cat_len(old(self)@, T::cat()) == 0 ==> r == Err::<(), Error>(Error::StackUnderflow)
                && final(self)@ == old(self)@,
            cat_len(old(self)@, T::cat()) >= 1 ==> ({
                let rest = drop_cat(old(self)@, T::cat());
                exists|fr: Result<U, Error>|
                    {
                        &&& #[trigger] call_ensures(func, (top_val::<T>(old(self)@),), fr)
                        &&& match fr {
                            Ok(u) => r == Ok::<(), Error>(()) && final(self)@ == push_tiny(
                                rest,
                                u.to_tiny(),
                            ),
                            Err(e) => r == Err::<(), Error>(e) && final(self)@ == rest,
                        }
                    }
            }),
    {
        let v1: T = match T::stack_pop(self) {
            Ok(v) => v,
            Err(e) => {
                return Err(e);
            },
        };
        let u: U = match func(v1) {
            Ok(u) => u,
            Err(e) => {
                return Err(e);
            },
        };
        U::stack_push(self, u);
        Ok(())
    }

    /// Pushes a tagged value onto its own category.
    pub fn push_dyn(&mut self, value: TinyWasmValue)
        ensures
            final(self)@ == push_tiny(old(self)@, value),
    {
        match value {
            TinyWasmValue::Value32(v) => self.stack_32.push(v),
            TinyWasmValue::Value64(v) => self.stack_64.push(v),
            TinyWasmValue::Value128(v) => self.stack_128.push(v),
            TinyWasmValue::ValueRef(v) => self.stack_ref.push(v),
        }
    }

    /// Pops the top of the category the type witness selects, tagged
    /// with that category, or fails with `StackUnderflow` on an empty
    /// category, leaving the stack unchanged.
    pub fn pop_dyn(&mut self, val_type: ValType) -> (r: Result<TinyWasmValue, Error>)
        ensures
            ({
                let (sr, sm) = spec_pop_dyn(old(self)@, val_type);
                r == sr && final(self)@ == sm
            }),
    {
        match val_type {
            ValType::I32 => match self.pop::<u32>() {
                Ok(v) => Ok(TinyWasmValue::Value32(v)),
                Err(e) => Err(e),
            },
            ValType::F32 => match self.pop::<u32>() {
                Ok(v) => Ok(TinyWasmValue::Value32(v)),
                Err(e) => Err(e),
            },
            ValType::I64 => match self.pop::<u64>() {
                Ok(v) => Ok(TinyWasmValue::Value64(v)),
                Err(e) => Err(e),
            },
            ValType::F64 => match self.pop::<u64>() {
                Ok(v) => Ok(TinyWasmValue::Value64(v)),
                Err(e) => Err(e),
            },
            ValType::V128 => match self.pop::<u128>() {
                Ok(v) => Ok(TinyWasmValue::Value128(v)),
                Err(e) => Err(e),
            },
            ValType::RefFunc => match self.pop::<ValueRef>() {
                Ok(v) => Ok(TinyWasmValue::ValueRef(v)),
                Err(e) => Err(e),
            },
            ValType::RefExtern => match self.pop::<ValueRef>() {
                Ok(v) => Ok(TinyWasmValue::ValueRef(v)),
                Err(e) => Err(e),
            },
        }
    }

    /// Pops the top of the witnessed category as a semantic value: raw
    /// integers regain their signedness, float bit patterns their
    /// width tag, and a null reference slot becomes the `RefNull` of
    /// the witnessed reference type.
    pub fn pop_wasmvalue(&mut self, val_type: ValType) -> (r: Result<WasmValue, Error>)
        ensures
            ({
                let (sr, sm) = spec_pop_wasm(old(self)@, val_type);
                r == sr && final(self)@ == sm
            }),
    {
        match val_type {
            ValType::I32 => match self.pop::<i32>() {
                Ok(v) => Ok(WasmValue::I32(v)),
                Err(e) => Err(e),
            },
            ValType::F32 => match self.pop::<u32>() {
                Ok(v) => Ok(WasmValue::F32(v)),
                Err(e) => Err(e),
            },
            ValType::I64 => match self.pop::<i64>() {
                Ok(v) => Ok(WasmValue::I64(v)),
                Err(e) => Err(e),
            },
            ValType::F64 => match self.pop::<u64>() {
                Ok(v) => Ok(WasmValue::F64(v)),
                Err(e) => Err(e),
            },
            ValType::V128 => match self.pop::<u128>() {
                Ok(v) => Ok(WasmValue::V128(v)),
                Err(e) => Err(e),
            },
            ValType::RefExtern => match self.pop::<ValueRef>() {
                Ok(Some(h)) => Ok(WasmValue::RefExtern(h)),
                Ok(None) => Ok(WasmValue::RefNull(ValType::RefExtern)),
                Err(e) => Err(e),
            },
            ValType::RefFunc => match self.pop::<ValueRef>() {
                Ok(Some(h)) => Ok(WasmValue::RefFunc(h)),
                Ok(None) => Ok(WasmValue::RefNull(ValType::RefFunc)),
                Err(e) => Err(e),
            },
        }
    }

    /// Pops one semantic value per declared type and returns them in
    /// declaration order.  Results sit on the stack in declaration
    /// order, last declared on top, so the types are walked from the
    /// right; the collected values are put back into declaration
    /// order before returning.
    pub fn pop_results(&mut self, val_types: &[ValType]) -> (r: Result<Vec<WasmValue>, Error>)
        ensures
            ({
                let (sr, sm) = spec_pop_results(old(self)@, val_types@);
                final(self)@ == sm && match (r, sr) {
                    (Ok(v), Ok(sv)) => v@ == sv,
                    (Err(e), Err(se)) => e == se,
                    _ => false,
                }
            }),
    {
        let n = val_types.len();
        let mut rev_vals: Vec<WasmValue> = Vec::new();
        let ghost mut decl_vals: Seq<WasmValue> = Seq::empty();
        let mut idx: usize = n;
        proof {
            assert(val_types@.take(n as int) =~= val_types@);
            let (rr, mm) = spec_pop_results(self@, val_types@);
            if rr is Ok {
                assert(rr->Ok_0 + decl_vals =~= rr->Ok_0);
            }
        }
        while idx > 0
            invariant
                idx <= n,
                n == val_types@.len(),
                rev_vals@.len() == n - idx,
                decl_vals.len() == n - idx,
                forall|k: int|
                    0 <= k < decl_vals.len() ==> decl_vals[k] == rev_vals@[decl_vals.len() - 1
                        - k],
                spec_pop_results(old(self)@, val_types@) == ({
                    let (rr, mm) = spec_pop_results(self@, val_types@.take(idx as int));
                    match rr {
                        Ok(vs) => (Ok::<Seq<WasmValue>, Error>(vs + decl_vals), mm),
                        Err(e) => (Err::<Seq<WasmValue>, Error>(e), mm),
                    }
                }),
            decreases idx,
        {
            idx = idx - 1;
            proof {
                assert(val_types@.take(idx as int + 1).last() == val_types@[idx as int]);
                assert(val_types@.take(idx as int + 1).drop_last() =~= val_types@.take(
                    idx as int,
                ));
            }
            let v = match self.pop_wasmvalue(val_types[idx]) {
                Ok(v) => v,
                Err(e) => {
                    return Err(e);
                },
            };
            rev_vals.push(v);
            proof {
                let (rr, mm) = spec_pop_results(self@, val_types@.take(idx as int));
                if rr is Ok {
                    assert(rr->Ok_0.push(v) + decl_vals =~= rr->Ok_0 + (seq![v] + decl_vals));
                }
                decl_vals = seq![v] + decl_vals;
            }
        }
        proof {
            assert(Seq::<WasmValue>::empty() + decl_vals =~= decl_vals);
        }
        let m = rev_vals.len();
        let mut out: Vec<WasmValue> = Vec::new();
        let mut j: usize = 0;
        while j < m
            invariant
                m == rev_vals@.len(),
                j <= m,
                out@.len() == j,
                decl_vals.len() == m,
                forall|k: int|
                    0 <= k < decl_vals.len() ==> decl_vals[k] == rev_vals@[decl_vals.len() - 1
                        - k],
                forall|k: int| 0 <= k < j ==> out@[k] == decl_vals[k],
            decreases m - j,
        {
            let v = rev_vals[m - 1 - j];
            out.push(v);
            j += 1;
        }
        proof {
            assert(out@ =~= decl_vals);
        }
        Ok(out)
    }

    /// Pops a function's arguments, one per parameter type, and
    /// returns them in declaration order, exactly as [`Self::pop_results`]
    /// does for results: in both cases the values sit on the stack in
    /// declaration order with the last declared on top.
    pub fn pop_params(&mut self, val_types: &[ValType]) -> (r: Result<Vec<WasmValue>, Error>)
        ensures
            ({
                let (sr, sm) = spec_pop_results(old(self)@, val_types@);
                final(self)@ == sm && match (r, sr) {
                    (Ok(v), Ok(sv)) => v@ == sv,
                    (Err(e), Err(se)) => e == se,
                    _ => false,
                }
            }),
    {
        self.pop_results(val_types)
    }

    /// Seeds the stack from an external value sequence: pushes each
    /// semantic value in order onto its own category, null references
    /// collapsing to the null reference slot.
    pub fn extend_from_wasmvalues(&mut self, values: &[WasmValue])
        ensures
            final(self)@ == spec_extend(old(self)@, values@),
    {
        let n = values.len();
        let mut i: usize = 0;
        proof {
            assert(values@.skip(0) =~= values@);
        }
        while i < n
            invariant
                i <= n,
                n == values@.len(),
                spec_extend(old(self)@, values@) == spec_extend(self@, values@.skip(i as int)),
            decreases n - i,
        {
            proof {
                assert(values@.skip(i as int).first() == values@[i as int]);
                assert(values@.skip(i as int).drop_first() =~= values@.skip(i as int + 1));
            }
            self.push_dyn(values[i].as_tiny());
            i += 1;
        }
        proof {
            assert(values@.skip(n as int) =~= Seq::<WasmValue>::empty());
        }
    }

    /// The call-entry extraction: pops one argument per parameter
    /// type, witnesses taken left to right, sorts each into its
    /// category, restores declaration order within each category, and
    /// extends each category with default (zero / null) values up to
    /// the declared counts.  An underflow stops the popping there,
    /// with the earlier pops' effects kept.
    pub fn pop_locals(&mut self, val_types: &[ValType], lc: LocalCounts) -> (r: Result<
        Locals,
        Error,
    >)
        requires
            count_cat(val_types@, Category::S32) <= lc.local_32,
            count_cat(val_types@, Category::S64) <= lc.local_64,
            count_cat(val_types@, Category::S128) <= lc.local_128,
            count_cat(val_types@, Category::Ref) <= lc.local_ref,
        ensures
            ({
                let (sr, sm) = spec_pop_locals(old(self)@, val_types@, lc);
                final(self)@ == sm && match (r, sr) {
                    (Ok(l), Ok(g)) => l@ == g,
                    (Err(e), Err(se)) => e == se,
                    _ => false,
                }
            }),
    {
        let mut c32: Vec<u32> = Vec::new();
        let mut c64: Vec<u64> = Vec::new();
        let mut c128: Vec<u128> = Vec::new();
        let mut cref: Vec<ValueRef> = Vec::new();
        let ghost mut decl: LocalsModel = empty_locals();
        let n = val_types.len();
        let mut i: usize = 0;
        proof {
            assert(val_types@.skip(0) =~= val_types@);
            let (rr, mm) = spec_take_locals(self@, val_types@);
            if rr is Ok {
                let g = rr->Ok_0;
                assert(LocalsModel {
                    l32: g.l32 + decl.l32,
                    l64: g.l64 + decl.l64,
                    l128: g.l128 + decl.l128,
                    lref: g.lref + decl.lref,
                } =~= g);
            }
        }
        while i < n
            invariant
                i <= n,
                n == val_types@.len(),
                c32@.len() == decl.l32.len(),
                c64@.len() == decl.l64.len(),
                c128@.len() == decl.l128.len(),
                cref@.len() == decl.lref.len(),
                forall|k: int|
                    0 <= k < decl.l32.len() ==> decl.l32[k] == c32@[decl.l32.len() - 1 - k],
                forall|k: int|
                    0 <= k < decl.l64.len() ==> decl.l64[k] == c64@[decl.l64.len() - 1 - k],
                forall|k: int|
                    0 <= k < decl.l128.len() ==> decl.l128[k] == c128@[decl.l128.len() - 1 - k],
                forall|k: int|
                    0 <= k < decl.lref.len() ==> decl.lref[k] == cref@[decl.lref.len() - 1 - k],
                spec_take_locals(old(self)@, val_types@) == ({
                    let (rr, mm) = spec_take_locals(self@, val_types@.skip(i as int));
                    match rr {
                        Ok(g) => (
                            Ok::<LocalsModel, Error>(
                                LocalsModel {
                                    l32: g.l32 + decl.l32,
                                    l64: g.l64 + decl.l64,
                                    l128: g.l128 + decl.l128,
                                    lref: g.lref + decl.lref,
                                },
                            ),
                            mm,
                        ),
                        Err(e) => (Err::<LocalsModel, Error>(e), mm),
                    }
                }),
            decreases n - i,
        {
            proof {
                assert(val_types@.skip(i as int).first() == val_types@[i as int]);
                assert(val_types@.skip(i as int).drop_first() =~= val_types@.skip(i as int + 1));
            }
            let t = match self.pop_dyn(val_types[i]) {
                Ok(t) => t,
                Err(e) => {
                    return Err(e);
                },
            };
            proof {
                let (rr, mm) = spec_take_locals(self@, val_types@.skip(i as int + 1));
                if rr is Ok {
                    let g = rr->Ok_0;
                    match t {
                        TinyWasmValue::Value32(v) => {
                            assert(g.l32.push(v) + decl.l32 =~= g.l32 + (seq![v] + decl.l32));
                        },
                        TinyWasmValue::Value64(v) => {
                            assert(g.l64.push(v) + decl.l64 =~= g.l64 + (seq![v] + decl.l64));
                        },
                        TinyWasmValue::Value128(v) => {
                            assert(g.l128.push(v) + decl.l128 =~= g.l128 + (seq![v] + decl.l128));
                        },
                        TinyWasmValue::ValueRef(v) => {
                            assert(g.lref.push(v) + decl.lref =~= g.lref + (seq![v] + decl.lref));
                        },
                    }
                }
            }
            match t {
                TinyWasmValue::Value32(v) => {
                    c32.push(v);
                    proof {
                        decl = LocalsModel { l32: seq![v] + decl.l32, ..decl };
                    }
                },
                TinyWasmValue::Value64(v) => {
                    c64.push(v);
                    proof {
                        decl = LocalsModel { l64: seq![v] + decl.l64, ..decl };
                    }
                },
                TinyWasmValue::Value128(v) => {
                    c128.push(v);
                    proof {
                        decl = LocalsModel { l128: seq![v] + decl.l128, ..decl };
                    }
                },
                TinyWasmValue::ValueRef(v) => {
                    cref.push(v);
                    proof {
                        decl = LocalsModel { lref: seq![v] + decl.lref, ..decl };
                    }
                },
            }
            i += 1;
        }
        proof {
            assert(val_types@.skip(n as int) =~= Seq::<ValType>::empty());
            assert(LocalsModel {
                l32: empty_locals().l32 + decl.l32,
                l64: empty_locals().l64 + decl.l64,
                l128: empty_locals().l128 + decl.l128,
                lref: empty_locals().lref + decl.lref,
            } =~= decl);
            lemma_take_locals_counts(old(self)@, val_types@);
        }
        let mut locals_32 = reversed_vec(&c32);
        let mut locals_64 = reversed_vec(&c64);
        let mut locals_128 = reversed_vec(&c128);
        let mut locals_ref = reversed_vec(&cref);
        proof {
            assert(locals_32@ =~= decl.l32);
            assert(locals_64@ =~= decl.l64);
            assert(locals_128@ =~= decl.l128);
            assert(locals_ref@ =~= decl.lref);
        }
        extend_with(&mut locals_32, lc.local_32 as usize, 0u32);
        extend_with(&mut locals_64, lc.local_64 as usize, 0u64);
        extend_with(&mut locals_128, lc.local_128 as usize, 0u128);
        extend_with(&mut locals_ref, lc.local_ref as usize, None);
        let result = Locals { locals_32, locals_64, locals_128, locals_ref };
        proof {
            let (sr, sm) = spec_pop_locals(old(self)@, val_types@, lc);
            assert(result@ =~= sr->Ok_0);
        }
        Ok(result)
    }

    /// The frame unwind.  Per category independently: nothing happens
    /// if the depth is already at or below the saved one; otherwise the
    /// values between the saved depth and the top `keep` values are
    /// discarded, and those two groups are joined.
    pub fn truncate_keep(&mut self, to: &StackLocation, keep: &StackHeight)
        requires
            old(self)@.s32.len() <= to.s32 || to.s32 + keep.s32 <= old(self)@.s32.len(),
            old(self)@.s64.len() <= to.s64 || to.s64 + keep.s64 <= old(self)@.s64.len(),
            old(self)@.s128.len() <= to.s128 || to.s128 + keep.s128 <= old(self)@.s128.len(),
            old(self)@.sref.len() <= to.sref || to.sref + keep.sref <= old(self)@.sref.len(),
        ensures
            final(self)@.s32 == truncated_keep(old(self)@.s32, to.s32 as nat, keep.s32 as nat),
            final(self)@.s64 == truncated_keep(old(self)@.s64, to.s64 as nat, keep.s64 as nat),
            final(self)@.s128 == truncated_keep(old(self)@.s128, to.s128 as nat, keep.s128 as nat),
            final(self)@.sref == truncated_keep(old(self)@.sref, to.sref as nat, keep.sref as nat),
    {
        truncate_keep_vec(&mut self.stack_32, to.s32, keep.s32);
        truncate_keep_vec(&mut self.stack_64, to.s64, keep.s64);
        truncate_keep_vec(&mut self.stack_128, to.s128, keep.s128);
        truncate_keep_vec(&mut self.stack_ref, to.sref, keep.sref);
    }
}

/// A copy of the vector with its elements in reverse order.
fn reversed_vec<T: Copy>(data: &Vec<T>) -> (out: Vec<T>)
    ensures
        out@.len() == data@.len(),
        forall|k: int| 0 <= k < data@.len() ==> out@[k] == data@[data@.len() - 1 - k],
{
    let n = data.len();
    let mut out: Vec<T> = Vec::new();
    let mut j: usize = 0;
    while j < n
        invariant
            n == data@.len(),
            j <= n,
            out@.len() == j,
            forall|k: int| 0 <= k < j ==> out@[k] == data@[n - 1 - k],
        decreases n - j,
    {
        let v = data[n - 1 - j];
        out.push(v);
        j += 1;
    }
    out
}

/// Appends copies of `fill` until the vector has the target length.
fn extend_with<T: Copy>(data: &mut Vec<T>, target: usize, fill: T)
    requires
        old(data).len() <= target,
    ensures
        final(data)@ == old(data)@ + Seq::new((target - old(data).len()) as nat, (|k: int| fill)),
{
    while data.len() < target
        invariant
            old(data).len() <= data.len() <= target,
            data@.subrange(0, old(data).len() as int) == old(data)@,
            forall|k: int| old(data).len() <= k < data.len() ==> data@[k] == fill,
        decreases target - data.len(),
    {
        data.push(fill);
    }
    proof {
        assert(data@ =~= old(data)@ + Seq::new((target - old(data).len()) as nat, (|k: int| fill)));
    }
}

/// Removes the middle range of one category's sequence: keeps the
/// first `n` values and the last `end_keep`, in place, without
/// touching any other element.
fn truncate_keep_vec<T: Copy>(data: &mut Vec<T>, n: usize, end_keep: usize)
    requires
        old(data).len() <= n || n + end_keep <= old(data).len(),
    ensures
        final(data)@ == truncated_keep(old(data)@, n as nat, end_keep as nat),
{
    let len = data.len();
    if len <= n {
        return;
    }
    let mut i: usize = 0;
    while i < end_keep
        invariant
            n + end_keep <= len,
            len == data.len(),
            len == old(data).len(),
            i <= end_keep,
            forall|j: int| 0 <= j < n ==> data@[j] == old(data)@[j],
            forall|j: int| n <= j < n + i ==> data@[j] == old(data)@[len - end_keep + (j - n)],
            forall|j: int| len - end_keep + i <= j < len ==> data@[j] == old(data)@[j],
        decreases end_keep - i,
    {
        let v = data[len - end_keep + i];
        data.set(n + i, v);
        i += 1;
    }
    data.truncate(n + end_keep);
    proof {
        assert(data@ =~= truncated_keep(old(data)@, n as nat, end_keep as nat));
    }
}

} // verus!
