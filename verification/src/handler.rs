//! Taiko's changes to the transaction handler of the EVM.

use revm::context_interface::result::EVMError;
use vstd::prelude::*;

pub mod post_execution;
pub mod pre_execution;

verus! {

#[verifier::external_type_specification]
#[verifier::external_body]
#[verifier::reject_recursive_types(DB)]
#[verifier::reject_recursive_types(TX)]
pub struct ExEVMError<DB, TX>(EVMError<DB, TX>);

/// Errors that can tell whether they come from transaction validation.
pub trait IsTxError {
    /// Returns `true` if the error is a transaction validation error.
    fn is_tx_error(&self) -> bool;
}

/// Which variant of revm's `EVMError` an error is.
#[derive(Clone, Copy, Debug, PartialEq, Eq, Structural)]
pub enum EvmErrorKind {
    /// Transaction validation error.
    Transaction,
    /// Header validation error.
    Header,
    /// Database error.
    Database,
    /// Custom error.
    Custom,
}

impl IsTxError for EvmErrorKind {
    fn is_tx_error(&self) -> (r: bool)
        ensures
            r == (*self == EvmErrorKind::Transaction),
    {
        match self {
            EvmErrorKind::Transaction => true,
            EvmErrorKind::Header => false,
            EvmErrorKind::Database => false,
            EvmErrorKind::Custom => false,
        }
    }
}

/// The variant of revm's `EVMError`, one arm per variant. No clause states
/// the result: the crate declares `EVMError` as an opaque outside type
/// (`external_type_specification` with `external_body`), so its variants are
/// not visible to the verifier and no clause can name them.
#[verifier::external_body]
fn evm_error_kind<DB, TX>(error: &EVMError<DB, TX>) -> EvmErrorKind {
    match error {
        EVMError::Transaction(_) => EvmErrorKind::Transaction,
        EVMError::Header(_) => EvmErrorKind::Header,
        EVMError::Database(_) => EvmErrorKind::Database,
        EVMError::Custom(_) => EvmErrorKind::Custom,
    }
}

impl<DB, TX> IsTxError for EVMError<DB, TX> {
    fn is_tx_error(&self) -> bool {
        evm_error_kind(self).is_tx_error()
    }
}

} // verus!
