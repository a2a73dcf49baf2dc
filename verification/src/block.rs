//! Block numbers and where they come from.
use vstd::prelude::*;
use crate::codec::Codec;

verus! {

/// A number that counts blocks.
pub trait BlockNumber: Codec + Copy {
    /// The number itself.
    spec fn number(&self) -> int;

    /// The greatest number of the type.
    spec fn greatest() -> int;

    /// The number `offset` blocks later, where there is one.
    spec fn advanced(&self, offset: u32) -> Self;

    /// Moving on by `offset` adds `offset`.
    proof fn lemma_advanced(&self, offset: u32)
        requires
            self.number() + offset <= Self::greatest(),
        ensures
            self.advanced(offset).number() == self.number() + offset,
    ;

    /// Whether `offset` blocks later still has a number.
    fn reaches(&self, offset: u32) -> (reaches: bool)
        ensures
            reaches == (self.number() + offset <= Self::greatest()),
    ;

    /// The number of the block `offset` blocks later.
    fn advance(&self, offset: u32) -> (later: Self)
        requires
            self.number() + offset <= Self::greatest(),
        ensures
            later == self.advanced(offset),
    ;

    /// Whether this number comes after `other`.
    fn is_after(&self, other: &Self) -> (after: bool)
        ensures
            after == (self.number() > other.number()),
    ;
}

impl BlockNumber for u32 {
    open spec fn number(&self) -> int {
        *self as int
    }

    open spec fn greatest() -> int {
        u32::MAX as int
    }

    open spec fn advanced(&self, offset: u32) -> Self {
        (*self + offset) as u32
    }

    proof fn lemma_advanced(&self, offset: u32) {
    }

    fn reaches(&self, offset: u32) -> (reaches: bool) {
        *self <= u32::MAX - offset
    }

    fn advance(&self, offset: u32) -> (later: Self) {
        *self + offset
    }

    fn is_after(&self, other: &Self) -> (after: bool) {
        *self > *other
    }
}

impl BlockNumber for u64 {
    open spec fn number(&self) -> int {
        *self as int
    }

    open spec fn greatest() -> int {
        u64::MAX as int
    }

    open spec fn advanced(&self, offset: u32) -> Self {
        (*self + offset) as u64
    }

    proof fn lemma_advanced(&self, offset: u32) {
    }

    fn reaches(&self, offset: u32) -> (reaches: bool) {
        *self <= u64::MAX - offset as u64
    }

    fn advance(&self, offset: u32) -> (later: Self) {
        *self + offset as u64
    }

    fn is_after(&self, other: &Self) -> (after: bool) {
        *self > *other
    }
}

impl BlockNumber for u128 {
    open spec fn number(&self) -> int {
        *self as int
    }

    open spec fn greatest() -> int {
        u128::MAX as int
    }

    open spec fn advanced(&self, offset: u32) -> Self {
        (*self + offset) as u128
    }

    proof fn lemma_advanced(&self, offset: u32) {
    }

    fn reaches(&self, offset: u32) -> (reaches: bool) {
        *self <= u128::MAX - offset as u128
    }

    fn advance(&self, offset: u32) -> (later: Self) {
        *self + offset as u128
    }

    fn is_after(&self, other: &Self) -> (after: bool) {
        *self > *other
    }
}

/// Where the current block number comes from.
///
/// What "current" means is up to the application; commonly it is the number of the
/// block that is being built.
pub trait BlockNumberProvider {
    /// The type of block number that the provider gives.
    type BlockNumber: BlockNumber;

    /// The current block number.
    fn current_block_number() -> Self::BlockNumber;
}

} // verus!
