//! Taiko's post-execution fee rules: anchor transactions pay nothing back and
//! reward nobody; otherwise the base fee that Ethereum burns goes to the
//! treasury, and from the Ontake fork on it is shared with the block's
//! beneficiary.

use vstd::prelude::*;

use crate::spec::TaikoSpecId;
use crate::u256::{ruint_div, ruint_mul, ruint_saturating_add, ruint_sub, word_max, word_modulus, U256};

verus! {

/// Gas that the transaction pays for: what it spent less what is refunded,
/// the refund taken as a `u64` (`refunded as u64`).
pub open spec fn spec_gas_used(gas_spent: u64, gas_refunded: i64) -> int {
    gas_spent - (gas_refunded as u64)
}

/// The base fee of the gas the transaction pays for.
pub open spec fn spec_total_basefee(basefee: u64, gas_spent: u64, gas_refunded: i64) -> int {
    basefee * spec_gas_used(gas_spent, gas_refunded)
}

/// The beneficiary's part of the base fee from Ontake on: `ratio` percent,
/// rounded down.
pub open spec fn spec_coinbase_share(total: int, basefee_ratio: u8) -> int {
    (total * basefee_ratio) / 100
}

/// The treasury's part: the rest of the base fee, as `ruint` subtracts it
/// (modulo `2^256`, which matters only where the ratio is above 100).
pub open spec fn spec_treasury_share(total: int, coinbase: int) -> int {
    if total >= coinbase {
        total - coinbase
    } else {
        total + word_modulus() - coinbase
    }
}

/// A balance after `amount` is credited to it, saturating at `2^256 - 1`.
pub open spec fn spec_credit(balance: nat, amount: nat) -> nat {
    if balance + amount <= word_max() {
        balance + amount
    } else {
        word_max()
    }
}

/// The two parts of the base fee under Ontake's base fee sharing.
#[derive(Clone, Copy, Debug, PartialEq, Eq)]
pub struct BasefeeShares {
    /// Credited to the treasury address of the transaction.
    pub treasury: U256,
    /// Credited to the block's beneficiary.
    pub coinbase: U256,
}

/// What Taiko adds to the beneficiary reward of a transaction.
#[derive(Clone, Copy, Debug, PartialEq, Eq)]
pub enum BeneficiaryReward {
    /// Anchor transaction: no reward at all, not even Ethereum's priority fee.
    NoReward,
    /// Before Ontake: the whole base fee goes to the treasury.
    Treasury(U256),
    /// Ontake: the base fee is shared between treasury and beneficiary.
    Shared(BasefeeShares),
}

/// Whether the caller gets the unused gas back: every transaction but an
/// anchor transaction is reimbursed.
pub fn reimburse_caller(is_anchor: bool) -> (r: bool)
    ensures
        r == !is_anchor,
{
    !is_anchor
}

/// The base fee of the gas that a transaction pays for, as a word.
fn total_basefee(basefee: u64, gas_spent: u64, gas_refunded: i64) -> (r: U256)
    requires
        (gas_refunded as u64) <= gas_spent,
    ensures
        r@ == spec_total_basefee(basefee, gas_spent, gas_refunded),
        r@ == basefee * (gas_spent - (gas_refunded as u64)),
        r@ + basefee * (gas_refunded as u64) == basefee * gas_spent,
        r@ < 0x1_0000_0000_0000_0000_0000_0000_0000_0000nat,
{
    let used: u64 = gas_spent - (gas_refunded as u64);
    let r = ruint_mul(U256::from_u64(basefee), U256::from_u64(used));
    proof {
        let p: int = basefee * used;
        assert(0 <= p <= 0xffff_ffff_ffff_ffff * 0xffff_ffff_ffff_ffff) by (nonlinear_arith)
            requires
                p == basefee * used,
                basefee <= 0xffff_ffff_ffff_ffff,
                used <= 0xffff_ffff_ffff_ffff,
        ;
        vstd::arithmetic::div_mod::lemma_small_mod(p as nat, word_modulus());
        lemma_total_basefee_closed_form(basefee, gas_spent, gas_refunded);
    }
    r
}

/// The fee that the treasury receives before Ontake: the whole base fee of
/// the gas used.
pub fn reward_beneficiary_hekla(basefee: u64, gas_spent: u64, gas_refunded: i64) -> (fee: U256)
    requires
        (gas_refunded as u64) <= gas_spent,
    ensures
        fee@ == spec_total_basefee(basefee, gas_spent, gas_refunded),
        fee@ == basefee * (gas_spent - (gas_refunded as u64)),
        fee@ + basefee * (gas_refunded as u64) == basefee * gas_spent,
{
    total_basefee(basefee, gas_spent, gas_refunded)
}

/// Ontake's base fee sharing: the beneficiary gets `basefee_ratio` percent of
/// the base fee (rounded down), the treasury the rest.
pub fn reward_beneficiary_ontake(
    basefee: u64,
    gas_spent: u64,
    gas_refunded: i64,
    basefee_ratio: u8,
) -> (shares: BasefeeShares)
    requires
        (gas_refunded as u64) <= gas_spent,
    ensures
        shares.coinbase@ == spec_coinbase_share(
            spec_total_basefee(basefee, gas_spent, gas_refunded),
            basefee_ratio,
        ),
        shares.treasury@ == spec_treasury_share(
            spec_total_basefee(basefee, gas_spent, gas_refunded),
            spec_coinbase_share(spec_total_basefee(basefee, gas_spent, gas_refunded), basefee_ratio),
        ),
        shares.coinbase@ * 100 <= basefee * (gas_spent - (gas_refunded as u64)) * basefee_ratio,
        basefee * (gas_spent - (gas_refunded as u64)) * basefee_ratio < shares.coinbase@ * 100 + 100,
        basefee_ratio <= 100 ==> shares.treasury@ + shares.coinbase@ == basefee * (gas_spent - (
        gas_refunded as u64)),
        (shares.treasury@ + shares.coinbase@) % word_modulus() == basefee * (gas_spent - (
        gas_refunded as u64)),
{
    let total = total_basefee(basefee, gas_spent, gas_refunded);
    let scaled = ruint_mul(total, U256::from_u64(basefee_ratio as u64));
    proof {
        let t: int = total@ as int;
        let p: int = t * basefee_ratio;
        assert(0 <= p < 0x1_0000_0000_0000_0000_0000_0000_0000_0000 * 256) by (nonlinear_arith)
            requires
                p == t * basefee_ratio,
                0 <= t < 0x1_0000_0000_0000_0000_0000_0000_0000_0000,
                0 <= basefee_ratio < 256,
        ;
        vstd::arithmetic::div_mod::lemma_small_mod(p as nat, word_modulus());
    }
    let coinbase = ruint_div(scaled, U256::from_u64(100));
    let treasury = ruint_sub(total, coinbase);
    proof {
        let t: int = total@ as int;
        let c: int = coinbase@ as int;
        let p: int = t * basefee_ratio;
        assert(c * 100 <= p < c * 100 + 100) by (nonlinear_arith)
            requires
                c == p / 100,
                p >= 0,
        ;
        if basefee_ratio <= 100 {
            assert(p <= t * 100) by (nonlinear_arith)
                requires
                    p == t * basefee_ratio,
                    t >= 0,
                    basefee_ratio <= 100,
            ;
        }
        if t >= c {
            vstd::arithmetic::div_mod::lemma_small_mod(t as nat, word_modulus());
        } else {
            vstd::arithmetic::div_mod::lemma_mod_add_multiples_vanish(t, word_modulus() as int);
            vstd::arithmetic::div_mod::lemma_small_mod(t as nat, word_modulus());
        }
    }
    BasefeeShares { treasury, coinbase }
}

/// A balance after `amount` is credited to it (`saturating_add`).
pub fn credit(balance: U256, amount: U256) -> (r: U256)
    ensures
        r@ == spec_credit(balance@, amount@),        balance@ + amount@ <= word_max() ==> r@ == balance@ + amount@,
        balance@ + amount@ > word_max() ==> r@ == word_max(),
{
    ruint_saturating_add(balance, amount)
}

/// What Taiko adds to the beneficiary reward of a transaction: nothing for an
/// anchor transaction; under Ontake the shared base fee; under any other fork
/// the whole base fee for the treasury. For any transaction but an anchor
/// transaction, Ethereum's own reward of the beneficiary comes first.
pub fn reward_beneficiary(
    is_anchor: bool,
    spec: TaikoSpecId,
    basefee: u64,
    gas_spent: u64,
    gas_refunded: i64,
    basefee_ratio: u8,
) -> (r: BeneficiaryReward)
    requires
        !is_anchor ==> (gas_refunded as u64) <= gas_spent,
    ensures
        is_anchor ==> r == BeneficiaryReward::NoReward,
        !is_anchor && spec == TaikoSpecId::ONTAKE ==> (r matches BeneficiaryReward::Shared(s)
            && s.coinbase@ == spec_coinbase_share(
            spec_total_basefee(basefee, gas_spent, gas_refunded),
            basefee_ratio,
        ) && s.treasury@ == spec_treasury_share(
            spec_total_basefee(basefee, gas_spent, gas_refunded),
            spec_coinbase_share(spec_total_basefee(basefee, gas_spent, gas_refunded), basefee_ratio),
        )),
        !is_anchor && spec != TaikoSpecId::ONTAKE ==> (r matches BeneficiaryReward::Treasury(fee)
            && fee@ == spec_total_basefee(basefee, gas_spent, gas_refunded)),        !is_anchor && spec == TaikoSpecId::ONTAKE ==> (r matches BeneficiaryReward::Shared(s)
            && s.coinbase@ == basefee * (gas_spent - (gas_refunded as u64)) * basefee_ratio / 100
            && (s.treasury@ + s.coinbase@) % word_modulus() == basefee * (gas_spent - (
        gas_refunded as u64))),
        !is_anchor && spec != TaikoSpecId::ONTAKE ==> (r matches BeneficiaryReward::Treasury(fee)
            && fee@ == basefee * (gas_spent - (gas_refunded as u64))),
{
    if is_anchor {
        return BeneficiaryReward::NoReward;
    }
    if spec == TaikoSpecId::ONTAKE {
        BeneficiaryReward::Shared(reward_beneficiary_ontake(basefee, gas_spent, gas_refunded, basefee_ratio))
    } else {
        BeneficiaryReward::Treasury(reward_beneficiary_hekla(basefee, gas_spent, gas_refunded))
    }
}

/// The gas paid for is what was spent less the refund, and the base fee
/// credited for it is the base fee of the gas spent less that of the refund.
pub proof fn lemma_total_basefee_closed_form(basefee: u64, gas_spent: u64, gas_refunded: i64)
    requires
        (gas_refunded as u64) <= gas_spent,
    ensures
        spec_gas_used(gas_spent, gas_refunded) + (gas_refunded as u64) == gas_spent,
        0 <= spec_gas_used(gas_spent, gas_refunded) <= gas_spent,
        spec_total_basefee(basefee, gas_spent, gas_refunded) + basefee * (gas_refunded as u64)
            == basefee * gas_spent,
        0 <= spec_total_basefee(basefee, gas_spent, gas_refunded) <= basefee * gas_spent,
{
    let u = spec_gas_used(gas_spent, gas_refunded);
    let r: int = (gas_refunded as u64) as int;
    assert(basefee * u + basefee * r == basefee * gas_spent && 0 <= basefee * u && 0 <= basefee
        * r) by (nonlinear_arith)
        requires
            u + r == gas_spent,
            u >= 0,
            r >= 0,
            basefee >= 0,
    ;
}

/// Ontake's base fee sharing splits the base fee without creating or losing
/// any: with a ratio of at most 100 percent, the two shares add up to the base
/// fee of the gas used.
pub proof fn lemma_ontake_shares_sum_to_basefee(
    basefee: u64,
    gas_spent: u64,
    gas_refunded: i64,
    basefee_ratio: u8,
)
    requires
        (gas_refunded as u64) <= gas_spent,
        basefee_ratio <= 100,
    ensures
        0 <= spec_coinbase_share(spec_total_basefee(basefee, gas_spent, gas_refunded), basefee_ratio)
            <= spec_total_basefee(basefee, gas_spent, gas_refunded),
        spec_treasury_share(
            spec_total_basefee(basefee, gas_spent, gas_refunded),
            spec_coinbase_share(spec_total_basefee(basefee, gas_spent, gas_refunded), basefee_ratio),
        ) + spec_coinbase_share(spec_total_basefee(basefee, gas_spent, gas_refunded), basefee_ratio)
            == spec_total_basefee(basefee, gas_spent, gas_refunded),
{
    let total = spec_total_basefee(basefee, gas_spent, gas_refunded);
    assert(total >= 0) by (nonlinear_arith)
        requires
            total == basefee * spec_gas_used(gas_spent, gas_refunded),
            spec_gas_used(gas_spent, gas_refunded) >= 0,
            basefee >= 0,
    ;
    assert(0 <= (total * basefee_ratio) / 100 <= total) by (nonlinear_arith)
        requires
            total >= 0,
            0 <= basefee_ratio <= 100,
    ;
}

/// With a ratio of zero the beneficiary gets nothing and the treasury the
/// whole base fee, as before Ontake.
pub proof fn lemma_ontake_zero_ratio_is_hekla(basefee: u64, gas_spent: u64, gas_refunded: i64)
    requires
        (gas_refunded as u64) <= gas_spent,
    ensures
        spec_coinbase_share(spec_total_basefee(basefee, gas_spent, gas_refunded), 0) == 0,
        spec_treasury_share(spec_total_basefee(basefee, gas_spent, gas_refunded), 0)
            == spec_total_basefee(basefee, gas_spent, gas_refunded),
{
    let total = spec_total_basefee(basefee, gas_spent, gas_refunded);
    assert(total >= 0) by (nonlinear_arith)
        requires
            total == basefee * spec_gas_used(gas_spent, gas_refunded),
            spec_gas_used(gas_spent, gas_refunded) >= 0,
            basefee >= 0,
    ;
}

/// Crediting never lowers a balance, and adds exactly the amount unless the
/// balance would pass `2^256 - 1`.
pub proof fn lemma_credit_monotone(balance: nat, amount: nat)
    requires
        balance <= word_max(),
    ensures
        balance <= spec_credit(balance, amount) <= word_max(),
        balance + amount <= word_max() ==> spec_credit(balance, amount) == balance + amount,
{
}

} // verus!
