//! Taiko transactions: an Ethereum transaction with Taiko's extra fields.

use vstd::prelude::*;

pub mod error;

verus! {

/// A transaction as Taiko sees it: the enveloped Ethereum transaction and
/// what Taiko adds to it.
#[derive(Debug, PartialEq, Eq)]
pub struct TaikoTransaction<T> {
    /// The enveloped transaction.
    pub base: T,
    /// Treasury address for the transaction.
    pub treasury: [u8; 20],
    /// Base fee ratio for the transaction: the percentage of the base fee that
    /// goes to the block's beneficiary from Ontake on.
    pub basefee_ratio: u8,
    /// If the transaction is an anchor transaction.
    pub is_anchor: bool,
}

impl<T> TaikoTransaction<T> {
    /// A transaction around `base` with Taiko's defaults: the zero treasury
    /// address, a base fee ratio of zero, not an anchor transaction.
    pub fn new(base: T) -> (r: TaikoTransaction<T>)
        ensures
            r.base == base,
            r.treasury@ == Seq::new(20, |i: int| 0u8),
            r.basefee_ratio == 0,
            !r.is_anchor,
    {
        let r = TaikoTransaction { base, treasury: [0u8; 20], basefee_ratio: 0, is_anchor: false };
        assert(r.treasury@ =~= Seq::new(20, |i: int| 0u8));
        r
    }

    /// Returns the treasury address for the transaction.
    pub fn treasury(&self) -> (r: [u8; 20])
        ensures
            r == self.treasury,
    {
        self.treasury
    }

    /// Returns the base fee ratio.
    pub fn basefee_ratio(&self) -> (r: u8)
        ensures
            r == self.basefee_ratio,
    {
        self.basefee_ratio
    }

    /// Returns `true` if the transaction is an anchor transaction.
    pub fn is_anchor(&self) -> (r: bool)
        ensures
            r == self.is_anchor,
    {
        self.is_anchor
    }
}

} // verus!
