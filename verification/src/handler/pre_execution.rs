//! Taiko's check of the caller's balance before execution. It is Ethereum's,
//! except that an anchor transaction is not charged for gas.

use vstd::prelude::*;

use crate::u256::{ruint_gt, ruint_max, ruint_saturating_sub, ruint_sub, word_modulus, U256};

verus! {

/// Why a transaction is rejected by the balance check.
#[derive(Clone, Copy, Debug, PartialEq, Eq)]
pub enum CallerBalanceError {
    /// The caller cannot pay `gas_limit * max_fee` plus the value transferred.
    LackOfFundForMaxFee {
        /// What the transaction may spend at most.
        fee: U256,
        /// What the caller holds.
        balance: U256,
    },
}

/// `a - b` as `ruint` computes it, modulo `2^256`.
pub open spec fn spec_wrapping_sub(a: nat, b: nat) -> nat {
    if a >= b {
        (a - b) as nat
    } else {
        (a + word_modulus() - b) as nat
    }
}

/// `a - b`, or zero where `b` is larger.
pub open spec fn spec_saturating_sub(a: nat, b: nat) -> nat {
    if a >= b {
        (a - b) as nat
    } else {
        0
    }
}

/// The caller's balance after a transaction that passed the balance check.
///
/// With the balance check disabled, the balance is raised to at least the
/// value transferred. Otherwise the gas part of what the transaction spends
/// (its effective spending less the value, which is moved later) is taken
/// from the balance, unless it is an anchor transaction.
pub open spec fn spec_balance_after_deduction(
    balance: nat,
    value: nat,
    effective_balance_spending: nat,
    is_balance_check_disabled: bool,
    is_anchor: bool,
) -> nat {
    if is_balance_check_disabled {
        if balance >= value {
            balance
        } else {
            value
        }
    } else if is_anchor {
        balance
    } else {
        spec_saturating_sub(balance, spec_wrapping_sub(effective_balance_spending, value))
    }
}

/// Checks that the caller can pay for the transaction and returns its balance
/// after the gas is deducted.
///
/// `max_balance_spending` is what the transaction may spend at most
/// (`gas_limit * max_fee` plus value and blob fees), and
/// `effective_balance_spending` what it spends at the block's prices; the
/// latter is read only where the balance check is on and passes.
pub fn validate_against_state_and_deduct_caller(
    balance: U256,
    value: U256,
    max_balance_spending: U256,
    effective_balance_spending: Option<U256>,
    is_balance_check_disabled: bool,
    is_anchor: bool,
) -> (r: Result<U256, CallerBalanceError>)
    requires
        !is_balance_check_disabled && max_balance_spending@ <= balance@
            ==> effective_balance_spending is Some,
    ensures
        !is_balance_check_disabled && max_balance_spending@ > balance@ ==> r == Err::<
            U256,
            CallerBalanceError,
        >(CallerBalanceError::LackOfFundForMaxFee { fee: max_balance_spending, balance }),
        is_balance_check_disabled ==> (r matches Ok(b) && b@ == spec_balance_after_deduction(
            balance@,
            value@,
            0,
            true,
            is_anchor,
        )),
        !is_balance_check_disabled && max_balance_spending@ <= balance@ ==> (r matches Ok(b)
            && b@ == spec_balance_after_deduction(
            balance@,
            value@,
            effective_balance_spending.unwrap()@,
            false,
            is_anchor,
        )),        is_balance_check_disabled ==> (r matches Ok(b) && b@ >= balance@ && b@ >= value@ && (b@
            == balance@ || b@ == value@)),
        !is_balance_check_disabled && max_balance_spending@ <= balance@ && is_anchor ==> r == Ok::<
            U256,
            CallerBalanceError,
        >(balance),
        !is_balance_check_disabled && max_balance_spending@ <= balance@ && !is_anchor && value@
            <= effective_balance_spending.unwrap()@ ==> (r matches Ok(b) && (if effective_balance_spending.unwrap()@
            - value@ <= balance@ {
            b@ + (effective_balance_spending.unwrap()@ - value@) == balance@
        } else {
            b@ == 0
        })),
        !is_balance_check_disabled && max_balance_spending@ <= balance@ && !is_anchor
            && effective_balance_spending.unwrap()@ < value@ ==> (r matches Ok(b) && (if effective_balance_spending.unwrap()@
            + word_modulus() - value@ <= balance@ {
            b@ + (effective_balance_spending.unwrap()@ + word_modulus() - value@) == balance@
        } else {
            b@ == 0
        })),
{
    if is_balance_check_disabled {
        // The caller's balance is at least the value of the transaction.
        Ok(ruint_max(balance, value))
    } else if ruint_gt(max_balance_spending, balance) {
        Err(CallerBalanceError::LackOfFundForMaxFee { fee: max_balance_spending, balance })
    } else {
        let effective = effective_balance_spending.unwrap();
        // The value is moved later, by the call itself.
        let gas_balance_spending = ruint_sub(effective, value);
        if !is_anchor {
            Ok(ruint_saturating_sub(balance, gas_balance_spending))
        } else {
            Ok(balance)
        }
    }
}

/// An anchor transaction that passes the balance check is not charged: the
/// caller's balance stays as it was.
pub proof fn lemma_anchor_not_charged(balance: nat, value: nat, effective_balance_spending: nat)
    ensures
        spec_balance_after_deduction(balance, value, effective_balance_spending, false, true)
            == balance,
{
}

/// With the balance check on, the deduction never raises the caller's
/// balance; where the caller can pay the effective spending, exactly its gas
/// part is taken.
pub proof fn lemma_deduction_takes_gas_part(
    balance: nat,
    value: nat,
    effective_balance_spending: nat,
    is_anchor: bool,
)
    requires
        value <= effective_balance_spending <= balance,
    ensures
        spec_balance_after_deduction(balance, value, effective_balance_spending, false, is_anchor)
            <= balance,
        !is_anchor ==> spec_balance_after_deduction(
            balance,
            value,
            effective_balance_spending,
            false,
            is_anchor,
        ) == balance - (effective_balance_spending - value),
{
}

/// With the balance check off, the caller ends up holding at least the value
/// transferred, and nothing is taken from a balance that already covers it.
pub proof fn lemma_disabled_check_covers_value(
    balance: nat,
    value: nat,
    effective_balance_spending: nat,
    is_anchor: bool,
)
    ensures
        spec_balance_after_deduction(balance, value, effective_balance_spending, true, is_anchor)
            >= value,
        spec_balance_after_deduction(balance, value, effective_balance_spending, true, is_anchor)
            >= balance,
{
}

} // verus!
