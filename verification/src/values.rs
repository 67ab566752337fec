//! The value vocabulary of the interpreter: physical categories, the
//! tagged union over them, the fully discriminated semantic value, and
//! the stack's error kinds.
//!
//! Floating-point values are carried as their IEEE-754 bit patterns
//! (`u32` / `u64`): the stack never computes with them, it only moves
//! them, so the bit pattern is the whole story at this layer.

use vstd::prelude::*;

use crate::model::cat_len;
use crate::model::cat_of;
use crate::model::drop_cat;
use crate::model::push_tiny;
use crate::model::top_cat;
use crate::value_stack::ValueStack;

verus! {

/// The four physical storage widths a semantic value can map onto.
#[derive(Clone, Copy, Debug, PartialEq, Eq, Structural)]
pub enum Category {
    S32,
    S64,
    S128,
    Ref,
}

/// Raw 32-bit slot contents (integers and 32-bit float bit patterns).
pub type Value32 = u32;

/// Raw 64-bit slot contents (integers and 64-bit float bit patterns).
pub type Value64 = u64;

/// Raw 128-bit slot contents (vector values).
pub type Value128 = u128;

/// Raw reference slot contents: `None` is the null reference, `Some(h)`
/// an address/handle.  The physical slot does not record whether the
/// reference is a function or an external reference.
pub type ValueRef = Option<u32>;

/// A value tagged with its physical category, for call sites that learn
/// the category only at runtime from a type witness.
#[derive(Clone, Copy, Debug, PartialEq, Eq)]
pub enum TinyWasmValue {
    Value32(Value32),
    Value64(Value64),
    Value128(Value128),
    ValueRef(ValueRef),
}

/// A runtime type witness: the semantic value types of the bytecode.
#[derive(Clone, Copy, Debug, PartialEq, Eq, Structural)]
pub enum ValType {
    I32,
    I64,
    F32,
    F64,
    V128,
    RefFunc,
    RefExtern,
}

/// The fully discriminated semantic value.  `F32`/`F64` carry IEEE-754
/// bit patterns; `RefNull` carries the reference type it is a null of,
/// since the physical reference slot cannot record that distinction.
#[derive(Clone, Copy, Debug, PartialEq, Eq, Structural)]
pub enum WasmValue {
    I32(i32),
    I64(i64),
    F32(u32),
    F64(u64),
    V128(u128),
    RefExtern(u32),
    RefFunc(u32),
    RefNull(ValType),
}

/// The stack's error kinds.  The stack grows dynamically past its
/// initial reservation, so exhaustion of the reservation is not an
/// error of its own.
#[derive(Clone, Copy, Debug, PartialEq, Eq, Structural)]
pub enum Error {
    /// A pop/peek/drop found its category sequence empty.
    StackUnderflow,
    /// A caller-supplied operator reported its own semantic failure;
    /// the stack propagates it verbatim.
    OperatorFailure,
}

impl ValType {
    /// The physical category this type witness selects.
    pub open spec fn spec_category(self) -> Category {
        match self {
            ValType::I32 => Category::S32,
            ValType::F32 => Category::S32,
            ValType::I64 => Category::S64,
            ValType::F64 => Category::S64,
            ValType::V128 => Category::S128,
            ValType::RefFunc => Category::Ref,
            ValType::RefExtern => Category::Ref,
        }
    }

    /// The physical category this type witness selects.
    #[verifier::when_used_as_spec(spec_category)]
    pub fn category(self) -> (c: Category)
        ensures
            c == self.spec_category(),
    {
        match self {
            ValType::I32 => Category::S32,
            ValType::F32 => Category::S32,
            ValType::I64 => Category::S64,
            ValType::F64 => Category::S64,
            ValType::V128 => Category::S128,
            ValType::RefFunc => Category::Ref,
            ValType::RefExtern => Category::Ref,
        }
    }
}

impl WasmValue {
    /// The type witness under which this value pops back out unchanged.
    pub open spec fn spec_val_type(self) -> ValType {
        match self {
            WasmValue::I32(_) => ValType::I32,
            WasmValue::I64(_) => ValType::I64,
            WasmValue::F32(_) => ValType::F32,
            WasmValue::F64(_) => ValType::F64,
            WasmValue::V128(_) => ValType::V128,
            WasmValue::RefExtern(_) => ValType::RefExtern,
            WasmValue::RefFunc(_) => ValType::RefFunc,
            WasmValue::RefNull(t) => t,
        }
    }

    /// The type witness under which this value pops back out unchanged.
    #[verifier::when_used_as_spec(spec_val_type)]
    pub fn val_type(self) -> (t: ValType)
        ensures
            t == self.spec_val_type(),
    {
        match self {
            WasmValue::I32(_) => ValType::I32,
            WasmValue::I64(_) => ValType::I64,
            WasmValue::F32(_) => ValType::F32,
            WasmValue::F64(_) => ValType::F64,
            WasmValue::V128(_) => ValType::V128,
            WasmValue::RefExtern(_) => ValType::RefExtern,
            WasmValue::RefFunc(_) => ValType::RefFunc,
            WasmValue::RefNull(t) => t,
        }
    }

    /// A well-formed semantic value: a null reference names one of the
    /// two reference types, never a numeric or vector type.
    pub open spec fn is_valid(self) -> bool {
        match self {
            WasmValue::RefNull(t) => t == ValType::RefFunc || t == ValType::RefExtern,
            _ => true,
        }
    }

    /// Strips the value down to its physical slot contents.  Both null
    /// references collapse to the null reference slot; their type is
    /// recovered from a witness on the way back out.
    pub open spec fn spec_as_tiny(self) -> TinyWasmValue {
        match self {
            WasmValue::I32(v) => TinyWasmValue::Value32(v as u32),
            WasmValue::I64(v) => TinyWasmValue::Value64(v as u64),
            WasmValue::F32(bits) => TinyWasmValue::Value32(bits),
            WasmValue::F64(bits) => TinyWasmValue::Value64(bits),
            WasmValue::V128(v) => TinyWasmValue::Value128(v),
            WasmValue::RefExtern(h) => TinyWasmValue::ValueRef(Some(h)),
            WasmValue::RefFunc(h) => TinyWasmValue::ValueRef(Some(h)),
            WasmValue::RefNull(_) => TinyWasmValue::ValueRef(None),
        }
    }

    /// Strips the value down to its physical slot contents.
    #[verifier::when_used_as_spec(spec_as_tiny)]
    pub fn as_tiny(self) -> (t: TinyWasmValue)
        ensures
            t == self.spec_as_tiny(),
    {
        match self {
            WasmValue::I32(v) => TinyWasmValue::Value32(v as u32),
            WasmValue::I64(v) => TinyWasmValue::Value64(v as u64),
            WasmValue::F32(bits) => TinyWasmValue::Value32(bits),
            WasmValue::F64(bits) => TinyWasmValue::Value64(bits),
            WasmValue::V128(v) => TinyWasmValue::Value128(v),
            WasmValue::RefExtern(h) => TinyWasmValue::ValueRef(Some(h)),
            WasmValue::RefFunc(h) => TinyWasmValue::ValueRef(Some(h)),
            WasmValue::RefNull(_) => TinyWasmValue::ValueRef(None),
        }
    }
}

/// The capability every pushable/poppable value type implements: a
/// fixed physical category, an injection into that category's raw slot
/// representation, and stack access routed to that category alone.
pub trait InternalValue: Sized + Copy {
    /// The one category this type's values live in.
    spec fn cat() -> Category;

    /// This value as a tagged raw slot of its category.
    spec fn to_tiny(self) -> TinyWasmValue;

    /// The value a tagged raw slot of this type's category denotes.
    /// Meaningful only on slots of that category.
    spec fn from_tiny(t: TinyWasmValue) -> Self;

    /// The injection lands in this type's own category, and reading it
    /// back yields the value unchanged.
    proof fn lemma_to_tiny_inverse(self)
        ensures
            cat_of(self.to_tiny()) == Self::cat(),
            Self::from_tiny(self.to_tiny()) == self,
    ;

    /// Re-injecting a value read from a slot of this type's category
    /// restores the slot exactly.
    proof fn lemma_from_tiny_exact(t: TinyWasmValue)
        requires
            cat_of(t) == Self::cat(),
        ensures
            Self::from_tiny(t).to_tiny() == t,
    ;

    /// Pushes the value onto its category; no other category moves.
    fn stack_push(stack: &mut ValueStack, value: Self)
        ensures
            final(stack)@ == push_tiny(old(stack)@, value.to_tiny()),
    ;

    /// Pops the top of this type's category, or fails with
    /// `StackUnderflow` on an empty category, leaving the whole stack
    /// unchanged.
    fn stack_pop(stack: &mut ValueStack) -> (r: Result<Self, Error>)
        ensures
            cat_len(old(stack)@, Self::cat()) == 0 ==> r == Err::<Self, Error>(
                Error::StackUnderflow,
            ) && final(stack)@ == old(stack)@,
            cat_len(old(stack)@, Self::cat()) > 0 ==> r == Ok::<Self, Error>(
                Self::from_tiny(top_cat(old(stack)@, Self::cat())),
            ) && final(stack)@ == drop_cat(old(stack)@, Self::cat()),
    ;

    /// Reads the top of this type's category without removing it, or
    /// fails with `StackUnderflow` on an empty category.
    fn stack_peek(stack: &ValueStack) -> (r: Result<Self, Error>)
        ensures
            cat_len(stack@, Self::cat()) == 0 ==> r == Err::<Self, Error>(Error::StackUnderflow),
            cat_len(stack@, Self::cat()) > 0 ==> r == Ok::<Self, Error>(
                Self::from_tiny(top_cat(stack@, Self::cat())),
            ),
    ;
}

impl InternalValue for u32 {
    open spec fn cat() -> Category {
        Category::S32
    }

    open spec fn to_tiny(self) -> TinyWasmValue {
        TinyWasmValue::Value32(self)
    }

    open spec fn from_tiny(t: TinyWasmValue) -> u32 {
        t->Value32_0
    }

    proof fn lemma_to_tiny_inverse(self) {
    }

    proof fn lemma_from_tiny_exact(t: TinyWasmValue) {
    }

    fn stack_push(stack: &mut ValueStack, value: u32) {
        stack.stack_32.push(value);
    }

    fn stack_pop(stack: &mut ValueStack) -> (r: Result<u32, Error>) {
        match stack.stack_32.pop() {
            Some(v) => Ok(v),
            None => Err(Error::StackUnderflow),
        }
    }

    fn stack_peek(stack: &ValueStack) -> (r: Result<u32, Error>) {
        if stack.stack_32.len() == 0 {
            Err(Error::StackUnderflow)
        } else {
            Ok(stack.stack_32[stack.stack_32.len() - 1])
        }
    }
}

impl InternalValue for i32 {
    open spec fn cat() -> Category {
        Category::S32
    }

    open spec fn to_tiny(self) -> TinyWasmValue {
        TinyWasmValue::Value32(self as u32)
    }

    open spec fn from_tiny(t: TinyWasmValue) -> i32 {
        t->Value32_0 as i32
    }

    proof fn lemma_to_tiny_inverse(self) {
        assert(self as u32 as i32 == self) by (bit_vector);
    }

    proof fn lemma_from_tiny_exact(t: TinyWasmValue) {
        let v = t->Value32_0;
        assert(v as i32 as u32 == v) by (bit_vector);
    }

    fn stack_push(stack: &mut ValueStack, value: i32) {
        stack.stack_32.push(value as u32);
    }

    fn stack_pop(stack: &mut ValueStack) -> (r: Result<i32, Error>) {
        match stack.stack_32.pop() {
            Some(v) => Ok(v as i32),
            None => Err(Error::StackUnderflow),
        }
    }

    fn stack_peek(stack: &ValueStack) -> (r: Result<i32, Error>) {
        if stack.stack_32.len() == 0 {
            Err(Error::StackUnderflow)
        } else {
            Ok(stack.stack_32[stack.stack_32.len() - 1] as i32)
        }
    }
}

impl InternalValue for u64 {
    open spec fn cat() -> Category {
        Category::S64
    }

    open spec fn to_tiny(self) -> TinyWasmValue {
        TinyWasmValue::Value64(self)
    }

    open spec fn from_tiny(t: TinyWasmValue) -> u64 {
        t->Value64_0
    }

    proof fn lemma_to_tiny_inverse(self) {
    }

    proof fn lemma_from_tiny_exact(t: TinyWasmValue) {
    }

    fn stack_push(stack: &mut ValueStack, value: u64) {
        stack.stack_64.push(value);
    }

    fn stack_pop(stack: &mut ValueStack) -> (r: Result<u64, Error>) {
        match stack.stack_64.pop() {
            Some(v) => Ok(v),
            None => Err(Error::StackUnderflow),
        }
    }

    fn stack_peek(stack: &ValueStack) -> (r: Result<u64, Error>) {
        if stack.stack_64.len() == 0 {
            Err(Error::StackUnderflow)
        } else {
            Ok(stack.stack_64[stack.stack_64.len() - 1])
        }
    }
}

impl InternalValue for i64 {
    open spec fn cat() -> Category {
        Category::S64
    }

    open spec fn to_tiny(self) -> TinyWasmValue {
        TinyWasmValue::Value64(self as u64)
    }

    open spec fn from_tiny(t: TinyWasmValue) -> i64 {
        t->Value64_0 as i64
    }

    proof fn lemma_to_tiny_inverse(self) {
        assert(self as u64 as i64 == self) by (bit_vector);
    }

    proof fn lemma_from_tiny_exact(t: TinyWasmValue) {
        let v = t->Value64_0;
        assert(v as i64 as u64 == v) by (bit_vector);
    }

    fn stack_push(stack: &mut ValueStack, value: i64) {
        stack.stack_64.push(value as u64);
    }

    fn stack_pop(stack: &mut ValueStack) -> (r: Result<i64, Error>) {
        match stack.stack_64.pop() {
            Some(v) => Ok(v as i64),
            None => Err(Error::StackUnderflow),
        }
    }

    fn stack_peek(stack: &ValueStack) -> (r: Result<i64, Error>) {
        if stack.stack_64.len() == 0 {
            Err(Error::StackUnderflow)
        } else {
            Ok(stack.stack_64[stack.stack_64.len() - 1] as i64)
        }
    }
}

impl InternalValue for u128 {
    open spec fn cat() -> Category {
        Category::S128
    }

    open spec fn to_tiny(self) -> TinyWasmValue {
        TinyWasmValue::Value128(self)
    }

    open spec fn from_tiny(t: TinyWasmValue) -> u128 {
        t->Value128_0
    }

    proof fn lemma_to_tiny_inverse(self) {
    }

    proof fn lemma_from_tiny_exact(t: TinyWasmValue) {
    }

    fn stack_push(stack: &mut ValueStack, value: u128) {
        stack.stack_128.push(value);
    }

    fn stack_pop(stack: &mut ValueStack) -> (r: Result<u128, Error>) {
        match stack.stack_128.pop() {
            Some(v) => Ok(v),
            None => Err(Error::StackUnderflow),
        }
    }

    fn stack_peek(stack: &ValueStack) -> (r: Result<u128, Error>) {
        if stack.stack_128.len() == 0 {
            Err(Error::StackUnderflow)
        } else {
            Ok(stack.stack_128[stack.stack_128.len() - 1])
        }
    }
}

impl InternalValue for ValueRef {
    open spec fn cat() -> Category {
        Category::Ref
    }

    open spec fn to_tiny(self) -> TinyWasmValue {
        TinyWasmValue::ValueRef(self)
    }

    open spec fn from_tiny(t: TinyWasmValue) -> ValueRef {
        t->ValueRef_0
    }

    proof fn lemma_to_tiny_inverse(self) {
    }

    proof fn lemma_from_tiny_exact(t: TinyWasmValue) {
    }

    fn stack_push(stack: &mut ValueStack, value: ValueRef) {
        stack.stack_ref.push(value);
    }

    fn stack_pop(stack: &mut ValueStack) -> (r: Result<ValueRef, Error>) {
        match stack.stack_ref.pop() {
            Some(v) => Ok(v),
            None => Err(Error::StackUnderflow),
        }
    }

    fn stack_peek(stack: &ValueStack) -> (r: Result<ValueRef, Error>) {
        if stack.stack_ref.len() == 0 {
            Err(Error::StackUnderflow)
        } else {
            Ok(stack.stack_ref[stack.stack_ref.len() - 1])
        }
    }
}

} // verus!
