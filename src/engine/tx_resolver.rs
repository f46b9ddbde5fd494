use std::collections::HashMap;

use vstd::prelude::*;

use crate::engine::account::Account;
use crate::engine::transactions::{
    adjustment_of, resolution_kind_of, Adjustment, DisputeClaim, ResolutionKind, TransactionDTO,
    TransactionId,
};
use crate::engine::EngineError;

verus! {

broadcast use vstd::std_specs::hash::group_hash_axioms;

/// What a resolver holds: the applied adjustments and the open disputes,
/// each keyed by transaction id.
pub struct LedgerView {
    pub log: Map<u32, Adjustment>,
    pub disputes: Map<u32, DisputeClaim>,
}

impl LedgerView {
    /// Every open dispute cites a logged adjustment.
    pub open spec fn wf(self) -> bool {
        forall|id: u32| #[trigger] self.disputes.contains_key(id) ==> self.log.contains_key(id)
    }

    /// State after a deposit or withdrawal, or the error that rejects it.
    pub open spec fn after_adjustment(self, account: Account, tx: TransactionDTO) -> Result<
        (LedgerView, Account),
        EngineError,
    > {
        match account.adjusted(tx) {
            Err(e) => Err(e),
            Ok(a) => Ok(
                (LedgerView { log: self.log.insert(tx.id.0, adjustment_of(tx)->Ok_0), ..self }, a),
            ),
        }
    }

    /// State after a dispute opens on transaction `id`, or the error that
    /// rejects it.
    pub open spec fn after_dispute(self, account: Account, id: u32) -> Result<
        (LedgerView, Account),
        EngineError,
    > {
        if !self.log.contains_key(id) {
            Err(EngineError::Resolver_TransactionNotFound)
        } else if self.disputes.contains_key(id) {
            Err(EngineError::Resolver_TransactionAlreadyUnderDispute)
        } else {
            match account.disputed(self.log[id]) {
                Err(e) => Err(e),
                Ok(a) => Ok(
                    (
                        LedgerView {
                            disputes: self.disputes.insert(id, Account::claim_of(self.log[id])),
                            ..self
                        },
                        a,
                    ),
                ),
            }
        }
    }

    /// State after a resolve or chargeback closes the dispute on `tx.id`,
    /// or the error that rejects it.
    pub open spec fn after_resolution(self, account: Account, tx: TransactionDTO) -> Result<
        (LedgerView, Account),
        EngineError,
    > {
        let id = tx.id.0;
        if !self.disputes.contains_key(id) {
            Err(EngineError::Resolver_TransactionNotUnderDispute)
        } else {
            match resolution_kind_of(tx.kind) {
                Err(e) => Err(e),
                Ok(kind) => match account.resolved(self.disputes[id], tx.client_id, kind) {
                    Err(e) => Err(e),
                    Ok(a) => Ok((LedgerView { disputes: self.disputes.remove(id), ..self }, a)),
                },
            }
        }
    }
}

/// The transaction log and the open disputes of one shard.
pub struct TxResolver {
    transaction_log: HashMap<u32, Adjustment>,
    active_disputes: HashMap<u32, DisputeClaim>,
}

impl View for TxResolver {
    type V = LedgerView;

    closed spec fn view(&self) -> LedgerView {
        LedgerView { log: self.transaction_log@, disputes: self.active_disputes@ }
    }
}

impl TxResolver {
    pub fn new() -> (r: TxResolver)
        ensures
            r@.log == Map::<u32, Adjustment>::empty(),
            r@.disputes == Map::<u32, DisputeClaim>::empty(),
            r@.wf(),
    {
        TxResolver { transaction_log: HashMap::new(), active_disputes: HashMap::new() }
    }

    /// Applies a deposit or withdrawal to `account` and logs it. On failure
    /// neither the log nor the account changes.
    pub fn apply_adjustment(&mut self, tx: TransactionDTO, account: &mut Account) -> (r: Result<
        (),
        EngineError,
    >)
        ensures
            match old(self)@.after_adjustment(*old(account), tx) {
                Ok((v, a)) => r == Ok::<(), EngineError>(()) && final(self)@ == v && *final(account) == a,
                Err(e) => r == Err::<(), EngineError>(e) && final(self)@ == old(self)@
                    && *final(account) == *old(account),
            },
            old(account).wf() ==> final(account).wf(),
            old(self)@.wf() ==> final(self)@.wf(),
    {
        match account.apply_adjustment(tx) {
            Ok(applied_adjustment) => {
                self.transaction_log.insert(tx.id.0, applied_adjustment);
                Ok(())
            },
            Err(e) => Err(e),
        }
    }

    /// Opens a dispute on the logged transaction `tx_id`. On failure neither
    /// the open disputes nor the account change.
    pub fn open_dispute(&mut self, tx_id: &TransactionId, account: &mut Account) -> (r: Result<
        (),
        EngineError,
    >)
        ensures
            match old(self)@.after_dispute(*old(account), tx_id.0) {
                Ok((v, a)) => r == Ok::<(), EngineError>(()) && final(self)@ == v && *final(account) == a,
                Err(e) => r == Err::<(), EngineError>(e) && final(self)@ == old(self)@
                    && *final(account) == *old(account),
            },
            old(account).wf() ==> final(account).wf(),
            old(self)@.wf() ==> final(self)@.wf(),
    {
        let id = tx_id.0;
        match self.transaction_log.get(&id) {
            Some(disputed_tx) => {
                if self.active_disputes.contains_key(&id) {
                    return Err(EngineError::Resolver_TransactionAlreadyUnderDispute);
                }
                match account.open_dispute(disputed_tx) {
                    Ok(claim) => {
                        self.active_disputes.insert(id, claim);
                        Ok(())
                    },
                    Err(e) => Err(e),
                }
            },
            None => Err(EngineError::Resolver_TransactionNotFound),
        }
    }

    /// Closes the dispute that `tx` cites by its id, as a resolve or a
    /// chargeback. On failure neither the open disputes nor the account change.
    pub fn close_dispute(&mut self, tx: TransactionDTO, account: &mut Account) -> (r: Result<
        (),
        EngineError,
    >)
        ensures
            match old(self)@.after_resolution(*old(account), tx) {
                Ok((v, a)) => r == Ok::<(), EngineError>(()) && final(self)@ == v && *final(account) == a,
                Err(e) => r == Err::<(), EngineError>(e) && final(self)@ == old(self)@
                    && *final(account) == *old(account),
            },
            old(account).wf() ==> final(account).wf(),
            old(self)@.wf() ==> final(self)@.wf(),
    {
        let id = tx.id.0;
        match self.active_disputes.get(&id) {
            Some(disputed_tx) => {
                let kind = match ResolutionKind::from_tx_kind(tx.kind) {
                    Ok(kind) => kind,
                    Err(e) => return Err(e),
                };
                match account.resolve_dispute(disputed_tx, &tx.id, &tx.client_id, &kind) {
                    Ok(resolved_tx_id) => {
                        self.active_disputes.remove(&resolved_tx_id.0);
                        Ok(())
                    },
                    Err(e) => Err(e),
                }
            },
            None => Err(EngineError::Resolver_TransactionNotUnderDispute),
        }
    }
}

} // verus!
