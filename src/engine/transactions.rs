use vstd::prelude::*;

use crate::engine::EngineError;

verus! {

/// Number of amount units in one whole currency unit: amounts carry four
/// decimal places.
pub const AMOUNT_SCALE: i64 = 10_000;

/// Identifies a transaction; unique across the whole input stream.
#[derive(Clone, Copy, Debug, PartialEq, Eq, Hash, Structural)]
pub struct TransactionId(pub u32);

/// Identifies a client; the key of its account and of its shard.
#[derive(Clone, Copy, Debug, PartialEq, Eq, Hash, Structural)]
pub struct ClientId(pub u16);

/// A signed amount in ten-thousandths of a currency unit.
#[derive(Clone, Copy, Debug, PartialEq, Eq, Structural)]
pub struct TxAmount(pub i64);

#[derive(Clone, Copy, Debug, PartialEq, Eq, Structural)]
pub enum TxKind {
    Deposit,
    Withdrawal,
    Dispute,
    Resolve,
    Chargeback,
}

/// The transactions that move funds.
#[derive(Clone, Copy, Debug, PartialEq, Eq, Structural)]
pub enum AdjustmentKind {
    Deposit,
    Withdrawal,
}

/// The transactions that close a dispute.
#[derive(Clone, Copy, Debug, PartialEq, Eq, Structural)]
pub enum ResolutionKind {
    Resolve,
    Chargeback,
}

/// One parsed input record. Deposits and withdrawals carry an amount;
/// disputes, resolves and chargebacks cite an earlier transaction by `id`.
#[derive(Clone, Copy, Debug, PartialEq, Eq, Structural)]
pub struct TransactionDTO {
    pub id: TransactionId,
    pub client_id: ClientId,
    pub kind: TxKind,
    pub amount: Option<TxAmount>,
}

#[derive(Clone, Copy, Debug, PartialEq, Eq, Structural)]
pub struct TxDetails {
    pub id: TransactionId,
    pub client_id: ClientId,
}

/// The record of a deposit or withdrawal that was applied to an account.
#[derive(Clone, Copy, Debug, PartialEq, Eq, Structural)]
pub struct Adjustment {
    pub category: AdjustmentKind,
    pub details: TxDetails,
    pub amount: TxAmount,
}

/// An open dispute on an earlier adjustment.
#[derive(Clone, Copy, Debug, PartialEq, Eq, Structural)]
pub struct DisputeClaim {
    pub client_id: ClientId,
    pub kind: AdjustmentKind,
    pub amount: TxAmount,
}

/// The adjustment kind that a transaction kind stands for, if any.
pub open spec fn adjustment_kind_of(kind: TxKind) -> Result<AdjustmentKind, EngineError> {
    match kind {
        TxKind::Deposit => Ok(AdjustmentKind::Deposit),
        TxKind::Withdrawal => Ok(AdjustmentKind::Withdrawal),
        _ => Err(EngineError::Parsing_TryingToConstructAdjustmentFromIncompatibileTransaction),
    }
}

/// The resolution kind that a transaction kind stands for, if any.
pub open spec fn resolution_kind_of(kind: TxKind) -> Result<ResolutionKind, EngineError> {
    match kind {
        TxKind::Resolve => Ok(ResolutionKind::Resolve),
        TxKind::Chargeback => Ok(ResolutionKind::Chargeback),
        _ => Err(EngineError::Parsing_TryingToConstructDisputeFromIncompatibileTransaction),
    }
}

/// The adjustment that a deposit or withdrawal record describes.
pub open spec fn adjustment_of(tx: TransactionDTO) -> Result<Adjustment, EngineError> {
    match adjustment_kind_of(tx.kind) {
        Err(e) => Err(e),
        Ok(category) => match tx.amount {
            None => Err(EngineError::Parsing_MissingAmountFieldConstructingAdjustment),
            Some(amount) => Ok(
                Adjustment {
                    category,
                    details: TxDetails { id: tx.id, client_id: tx.client_id },
                    amount,
                },
            ),
        },
    }
}

impl AdjustmentKind {
    pub fn from_tx_kind(kind: TxKind) -> (r: Result<AdjustmentKind, EngineError>)
        ensures
            r == adjustment_kind_of(kind),
    {
        match kind {
            TxKind::Deposit => Ok(AdjustmentKind::Deposit),
            TxKind::Withdrawal => Ok(AdjustmentKind::Withdrawal),
            _ => Err(EngineError::Parsing_TryingToConstructAdjustmentFromIncompatibileTransaction),
        }
    }
}

impl ResolutionKind {
    pub fn from_tx_kind(kind: TxKind) -> (r: Result<ResolutionKind, EngineError>)
        ensures
            r == resolution_kind_of(kind),
    {
        match kind {
            TxKind::Resolve => Ok(ResolutionKind::Resolve),
            TxKind::Chargeback => Ok(ResolutionKind::Chargeback),
            _ => Err(EngineError::Parsing_TryingToConstructDisputeFromIncompatibileTransaction),
        }
    }
}

impl Adjustment {
    pub fn from_transaction(tx: TransactionDTO) -> (r: Result<Adjustment, EngineError>)
        ensures
            r == adjustment_of(tx),
    {
        let category = match AdjustmentKind::from_tx_kind(tx.kind) {
            Ok(category) => category,
            Err(e) => return Err(e),
        };
        match tx.amount {
            None => Err(EngineError::Parsing_MissingAmountFieldConstructingAdjustment),
            Some(amount) => Ok(
                Adjustment {
                    category,
                    details: TxDetails { id: tx.id, client_id: tx.client_id },
                    amount,
                },
            ),
        }
    }
}

} // verus!
