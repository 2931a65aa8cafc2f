//! 256-bit unsigned words, as balances and fees are kept in the EVM.
//!
//! The arithmetic itself is done by `ruint` (through `revm::primitives::U256`);
//! this module holds the value as its four little-endian 64-bit limbs so that
//! contracts can speak of the number it stands for.

use vstd::prelude::*;

verus! {

/// `2^64`, the weight of the second limb.
pub open spec fn limb_base() -> nat {
    0x1_0000_0000_0000_0000nat
}

/// `2^256`: every word is below it, and wrapping arithmetic is modulo it.
pub open spec fn word_modulus() -> nat {
    0x1_0000_0000_0000_0000_0000_0000_0000_0000_0000_0000_0000_0000_0000_0000_0000_0000_0000_0000nat
}

/// The largest word, `2^256 - 1`.
pub open spec fn word_max() -> nat {
    (word_modulus() - 1) as nat
}

/// The number that four little-endian limbs stand for.
pub open spec fn limbs_value(limbs: [u64; 4]) -> nat {
    (limbs[0] + limbs[1] * 0x1_0000_0000_0000_0000nat + limbs[2]
        * 0x1_0000_0000_0000_0000_0000_0000_0000_0000nat + limbs[3]
        * 0x1_0000_0000_0000_0000_0000_0000_0000_0000_0000_0000_0000_0000nat) as nat
}

/// A 256-bit unsigned integer, least significant limb first.
#[derive(Clone, Copy, Debug, PartialEq, Eq)]
pub struct U256 {
    pub limbs: [u64; 4],
}

impl View for U256 {
    type V = nat;

    open spec fn view(&self) -> nat {
        limbs_value(self.limbs)
    }
}

/// Every word is at most `2^256 - 1`.
pub proof fn lemma_word_bound(x: U256)
    ensures
        x@ <= word_max(),
{
    let l = x.limbs;
    assert(0 <= l[0] <= 0xffff_ffff_ffff_ffff);
    assert(0 <= l[1] <= 0xffff_ffff_ffff_ffff);
    assert(0 <= l[2] <= 0xffff_ffff_ffff_ffff);
    assert(0 <= l[3] <= 0xffff_ffff_ffff_ffff);
}

impl U256 {
    /// The word made of the given limbs, least significant first.
    pub fn from_limbs(limbs: [u64; 4]) -> (r: U256)
        ensures
            r.limbs == limbs,
            r@ == limbs_value(limbs),
    {
        U256 { limbs }
    }

    /// The limbs of the word, least significant first.
    pub fn into_limbs(self) -> (r: [u64; 4])
        ensures
            r == self.limbs,
    {
        self.limbs
    }

    /// Zero.
    pub fn zero() -> (r: U256)
        ensures
            r@ == 0,
    {
        U256 { limbs: [0u64, 0u64, 0u64, 0u64] }
    }

    /// The word whose value is `x`.
    pub fn from_u64(x: u64) -> (r: U256)
        ensures
            r@ == x,
    {
        U256 { limbs: [x, 0u64, 0u64, 0u64] }
    }
}

/// `ruint`'s `*` on 256-bit words, which wraps: the product modulo `2^256`.
#[verifier::external_body]
pub(crate) fn ruint_mul(a: U256, b: U256) -> (r: U256)
    ensures
        r@ == (a@ * b@) % word_modulus(),
{
    let x = revm::primitives::U256::from_limbs(a.limbs);
    let y = revm::primitives::U256::from_limbs(b.limbs);
    U256 { limbs: (x * y).into_limbs() }
}

/// `ruint`'s `/` on 256-bit words: the quotient rounded down. It panics on a
/// zero divisor, which the precondition rules out.
#[verifier::external_body]
pub(crate) fn ruint_div(a: U256, b: U256) -> (r: U256)
    requires
        b@ != 0,
    ensures
        r@ == a@ / b@,
{
    let x = revm::primitives::U256::from_limbs(a.limbs);
    let y = revm::primitives::U256::from_limbs(b.limbs);
    U256 { limbs: (x / y).into_limbs() }
}

/// `ruint`'s `-` on 256-bit words, which wraps: the difference modulo `2^256`.
#[verifier::external_body]
pub(crate) fn ruint_sub(a: U256, b: U256) -> (r: U256)
    ensures
        r@ == (if a@ >= b@ {
            a@ - b@
        } else {
            a@ + word_modulus() - b@
        }),
{
    let x = revm::primitives::U256::from_limbs(a.limbs);
    let y = revm::primitives::U256::from_limbs(b.limbs);
    U256 { limbs: (x - y).into_limbs() }
}

/// `ruint`'s `saturating_add`: the sum, or `2^256 - 1` where it would not fit.
#[verifier::external_body]
pub(crate) fn ruint_saturating_add(a: U256, b: U256) -> (r: U256)
    ensures
        r@ == (if a@ + b@ <= word_max() {
            a@ + b@
        } else {
            word_max()
        }),
{
    let x = revm::primitives::U256::from_limbs(a.limbs);
    let y = revm::primitives::U256::from_limbs(b.limbs);
    U256 { limbs: x.saturating_add(y).into_limbs() }
}

/// `ruint`'s `saturating_sub`: the difference, or zero where it would be negative.
#[verifier::external_body]
pub(crate) fn ruint_saturating_sub(a: U256, b: U256) -> (r: U256)
    ensures
        r@ == (if a@ >= b@ {
            a@ - b@
        } else {
            0
        }),
{
    let x = revm::primitives::U256::from_limbs(a.limbs);
    let y = revm::primitives::U256::from_limbs(b.limbs);
    U256 { limbs: x.saturating_sub(y).into_limbs() }
}

/// `ruint`'s `>` on 256-bit words, which compares the numbers.
#[verifier::external_body]
pub(crate) fn ruint_gt(a: U256, b: U256) -> (r: bool)
    ensures
        r == (a@ > b@),
{
    let x = revm::primitives::U256::from_limbs(a.limbs);
    let y = revm::primitives::U256::from_limbs(b.limbs);
    x > y
}

/// `Ord::max` on `ruint` words: the larger of the two numbers.
#[verifier::external_body]
pub(crate) fn ruint_max(a: U256, b: U256) -> (r: U256)
    ensures
        r@ == (if a@ >= b@ {
            a@
        } else {
            b@
        }),
{
    let x = revm::primitives::U256::from_limbs(a.limbs);
    let y = revm::primitives::U256::from_limbs(b.limbs);
    U256 { limbs: x.max(y).into_limbs() }
}

} // verus!
