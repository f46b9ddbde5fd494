use vstd::prelude::*;

pub mod account;
pub mod input;
pub mod lemmas;
pub mod processor;
pub mod transactions;
pub mod tx_resolver;

verus! {

/// Every way in which one transaction can fail. An error is local to the
/// transaction that caused it and never stops the engine.
#[allow(non_camel_case_types)]
#[derive(Clone, Copy, Debug, PartialEq, Eq, Structural)]
pub enum EngineError {
    Resolver_TransactionNotFound,
    Resolver_TransactionNotUnderDispute,
    Resolver_TransactionAlreadyUnderDispute,
    Account_DisputeReferencesDifferentClient_OnCreation,
    Account_DisputeReferencesDifferentClient_OnResolution,
    Account_AccountLocked,
    Account_NotEnoughFunds,
    /// A balance would leave the range that the ledger can represent.
    Account_BalanceOutOfRange,
    Parsing_MissingAmountFieldConstructingAdjustment,
    Parsing_TryingToConstructAdjustmentFromIncompatibileTransaction,
    Parsing_TryingToConstructDisputeFromIncompatibileTransaction,
}

} // verus!
