//! Types that implement `Collectable`, one for each way a type can reach a
//! `set_collectable` method: directly, through a struct field, through every
//! variant of an enum, through tuple components, and through array and slice
//! elements.

use vstd::prelude::*;

verus! {

/// Types whose values own heap memory that must be handed over to the
/// collector when the value itself becomes collected.
pub trait Collectable {
    /// Hands the memory this value owns over to the collector.
    fn set_collectable(&self);
}

pub struct S(pub usize);

pub struct T(pub U);

pub struct U(pub usize);

pub struct X(pub usize);

pub struct EA;

pub struct EB;

pub struct EC;

pub enum E {
    EA(EA),
    EB(EB),
    EC(EC),
}

pub struct TupA;

pub struct TupB;

#[derive(Clone, Copy)]
pub struct ArrElem;

pub struct SliceElem;

impl Collectable for S {
    fn set_collectable(&self) {
    }
}

impl Collectable for U {
    fn set_collectable(&self) {
    }
}

impl Collectable for X {
    fn set_collectable(&self) {
    }
}

impl Collectable for EA {
    fn set_collectable(&self) {
    }
}

impl Collectable for EB {
    fn set_collectable(&self) {
    }
}

impl Collectable for EC {
    fn set_collectable(&self) {
    }
}

impl Collectable for TupA {
    fn set_collectable(&self) {
    }
}

impl Collectable for TupB {
    fn set_collectable(&self) {
    }
}

impl Collectable for ArrElem {
    fn set_collectable(&self) {
    }
}

impl Collectable for SliceElem {
    fn set_collectable(&self) {
    }
}

} // verus!
