//! Taiko transaction validation error.

use revm::context_interface::result::InvalidTransaction;
use vstd::prelude::*;

verus! {

#[verifier::external_type_specification]
#[verifier::external_body]
pub struct ExInvalidTransaction(InvalidTransaction);

/// revm's derived `Clone` on `InvalidTransaction`, called by the derived
/// `Clone` of `TaikoTransactionError`. Nothing is claimed of the copy: the
/// type is opaque to the verifier.
pub assume_specification[ <InvalidTransaction as Clone>::clone ](
    value: &InvalidTransaction,
) -> InvalidTransaction;

/// Taiko transaction validation error.
#[derive(Debug, Clone, PartialEq, Eq, Hash)]
pub enum TaikoTransactionError {
    /// An error of Ethereum's transaction validation.
    Base(InvalidTransaction),
}

impl From<InvalidTransaction> for TaikoTransactionError {
    fn from(value: InvalidTransaction) -> TaikoTransactionError {
        TaikoTransactionError::Base(value)
    }
}

impl vstd::std_specs::convert::FromSpecImpl<InvalidTransaction> for TaikoTransactionError {
    open spec fn obeys_from_spec() -> bool {
        true
    }

    open spec fn from_spec(value: InvalidTransaction) -> TaikoTransactionError {
        TaikoTransactionError::Base(value)
    }
}

} // verus!
