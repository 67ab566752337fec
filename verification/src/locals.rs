//! A call frame's local slots, extracted from the operand stack at
//! call entry, and the per-category counts used to size them.

use vstd::prelude::*;

use crate::model::LocalsModel;

verus! {

/// How many local slots of each category a function declares,
/// arguments included.
#[derive(Clone, Copy, Debug, PartialEq, Eq, Structural)]
pub struct LocalCounts {
    pub local_32: u32,
    pub local_64: u32,
    pub local_128: u32,
    pub local_ref: u32,
}

/// A frame's locals, segmented by category.  Within a category the
/// argument-backed slots come first, in declaration order, followed by
/// default-initialised slots up to the declared count.
#[derive(Debug)]
pub struct Locals {
    pub locals_32: Vec<u32>,
    pub locals_64: Vec<u64>,
    pub locals_128: Vec<u128>,
    pub locals_ref: Vec<Option<u32>>,
}

impl View for Locals {
    type V = LocalsModel;

    open spec fn view(&self) -> LocalsModel {
        LocalsModel {
            l32: self.locals_32@,
            l64: self.locals_64@,
            l128: self.locals_128@,
            lref: self.locals_ref@,
        }
    }
}

} // verus!
