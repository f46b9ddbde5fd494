use vstd::prelude::*;

use crate::engine::transactions::{
    adjustment_of, Adjustment, AdjustmentKind, ClientId, DisputeClaim, ResolutionKind,
    TransactionDTO, TransactionId,
};
use crate::engine::EngineError;

verus! {

/// Largest magnitude, in amount units, that a balance may reach.
pub const MAX_BALANCE: i64 = 1_000_000_000_000_000_000;

pub open spec fn in_balance_range(x: int) -> bool {
    -MAX_BALANCE <= x <= MAX_BALANCE
}

/// The ledger of one client. Total funds are `available + held` and are
/// derived, never stored.
#[derive(Clone, Copy, Debug, PartialEq, Eq, Structural)]
pub struct Account {
    pub client_id: ClientId,
    /// Funds that can be withdrawn, in amount units.
    pub available: i64,
    /// Funds held by open disputes, in amount units.
    pub held: i64,
    pub locked: bool,
}

impl Account {
    /// Both balances lie in the representable range.
    pub open spec fn wf(self) -> bool {
        in_balance_range(self.available as int) && in_balance_range(self.held as int)
    }

    pub open spec fn total(self) -> int {
        self.available + self.held
    }

    /// This account with new balances, or an error where one leaves the range.
    pub open spec fn with_balances(self, available: int, held: int) -> Result<Account, EngineError> {
        if in_balance_range(available) && in_balance_range(held) {
            Ok(Account { available: available as i64, held: held as i64, ..self })
        } else {
            Err(EngineError::Account_BalanceOutOfRange)
        }
    }

    /// The account after a deposit or withdrawal, or the error that rejects it.
    pub open spec fn adjusted(self, tx: TransactionDTO) -> Result<Account, EngineError> {
        if self.locked {
            Err(EngineError::Account_AccountLocked)
        } else {
            match adjustment_of(tx) {
                Err(e) => Err(e),
                Ok(adj) => {
                    let amount = adj.amount.0 as int;
                    match adj.category {
                        AdjustmentKind::Deposit => self.with_balances(
                            self.available + amount,
                            self.held as int,
                        ),
                        AdjustmentKind::Withdrawal => if self.available - amount < 0 {
                            Err(EngineError::Account_NotEnoughFunds)
                        } else {
                            self.with_balances(self.available - amount, self.held as int)
                        },
                    }
                },
            }
        }
    }

    /// The account after a dispute opens on `adj`: a disputed deposit moves
    /// its amount from available to held; a disputed withdrawal moves nothing.
    pub open spec fn disputed(self, adj: Adjustment) -> Result<Account, EngineError> {
        if self.locked {
            Err(EngineError::Account_AccountLocked)
        } else if self.client_id != adj.details.client_id {
            Err(EngineError::Account_DisputeReferencesDifferentClient_OnCreation)
        } else {
            match adj.category {
                AdjustmentKind::Deposit => self.with_balances(
                    self.available - adj.amount.0,
                    self.held + adj.amount.0,
                ),
                AdjustmentKind::Withdrawal => Ok(self),
            }
        }
    }

    /// The claim that opening a dispute on `adj` records.
    pub open spec fn claim_of(adj: Adjustment) -> DisputeClaim {
        DisputeClaim { client_id: adj.details.client_id, kind: adj.category, amount: adj.amount }
    }

    /// The account after `claim` closes by `resolution`. A chargeback locks
    /// the account; a chargeback of a deposit fails where the total funds
    /// fall short of the amount.
    pub open spec fn resolved(
        self,
        claim: DisputeClaim,
        tx_client_id: ClientId,
        resolution: ResolutionKind,
    ) -> Result<Account, EngineError> {
        let amount = claim.amount.0 as int;
        if self.locked {
            Err(EngineError::Account_AccountLocked)
        } else if claim.client_id != tx_client_id {
            Err(EngineError::Account_DisputeReferencesDifferentClient_OnResolution)
        } else {
            match (claim.kind, resolution) {
                (AdjustmentKind::Deposit, ResolutionKind::Resolve) => self.with_balances(
                    self.available + amount,
                    self.held - amount,
                ),
                (AdjustmentKind::Deposit, ResolutionKind::Chargeback) => if amount > self.total() {
                    Err(EngineError::Account_NotEnoughFunds)
                } else {
                    lock_on_success(self.with_balances(self.available as int, self.held - amount))
                },
                (AdjustmentKind::Withdrawal, ResolutionKind::Chargeback) => lock_on_success(
                    self.with_balances(self.available + amount, self.held as int),
                ),
                (AdjustmentKind::Withdrawal, ResolutionKind::Resolve) => Ok(self),
            }
        }
    }

    pub fn new(client_id: ClientId) -> (r: Account)
        ensures
            r == (Account { client_id, available: 0, held: 0, locked: false }),
            r.wf(),
    {
        Account { client_id, available: 0, held: 0, locked: false }
    }

    /// Sets both balances where they lie in range; else fails and changes nothing.
    fn set_balances(&mut self, available: i128, held: i128) -> (r: Result<(), EngineError>)
        ensures
            match old(self).with_balances(available as int, held as int) {
                Ok(a) => r is Ok && *final(self) == a,
                Err(e) => r == Err::<(), EngineError>(e) && *final(self) == *old(self),
            },
    {
        if -(MAX_BALANCE as i128) <= available && available <= MAX_BALANCE as i128
            && -(MAX_BALANCE as i128) <= held && held <= MAX_BALANCE as i128 {
            self.available = available as i64;
            self.held = held as i64;
            Ok(())
        } else {
            Err(EngineError::Account_BalanceOutOfRange)
        }
    }

    fn check_account_lock(&self) -> (r: Result<(), EngineError>)
        ensures
            r is Err <==> self.locked,
            r is Err ==> r == Err::<(), EngineError>(EngineError::Account_AccountLocked),
    {
        if self.locked {
            Err(EngineError::Account_AccountLocked)
        } else {
            Ok(())
        }
    }

    /// Applies a deposit or withdrawal and returns the adjustment to log.
    /// A failure leaves the account as it was.
    pub fn apply_adjustment(&mut self, tx: TransactionDTO) -> (r: Result<Adjustment, EngineError>)
        ensures
            match old(self).adjusted(tx) {
                Ok(a) => r == adjustment_of(tx) && *final(self) == a,
                Err(e) => r == Err::<Adjustment, EngineError>(e) && *final(self) == *old(self),
            },
            old(self).wf() ==> final(self).wf(),
    {
        if let Err(e) = self.check_account_lock() {
            return Err(e);
        }
        let adjustment = match Adjustment::from_transaction(tx) {
            Ok(adjustment) => adjustment,
            Err(e) => return Err(e),
        };
        let amount = adjustment.amount.0 as i128;
        let available = self.available as i128;
        let held = self.held as i128;
        match adjustment.category {
            AdjustmentKind::Deposit => {
                if let Err(e) = self.set_balances(available + amount, held) {
                    return Err(e);
                }
            },
            AdjustmentKind::Withdrawal => {
                let new_balance = available - amount;
                if new_balance < 0 {
                    return Err(EngineError::Account_NotEnoughFunds);
                }
                if let Err(e) = self.set_balances(new_balance, held) {
                    return Err(e);
                }
            },
        }
        Ok(adjustment)
    }

    /// Opens a dispute on an adjustment of this account and returns the claim
    /// to record. A failure leaves the account as it was.
    pub fn open_dispute(&mut self, disputed_adjustment: &Adjustment) -> (r: Result<
        DisputeClaim,
        EngineError,
    >)
        ensures
            match old(self).disputed(*disputed_adjustment) {
                Ok(a) => r == Ok::<DisputeClaim, EngineError>(
                    Account::claim_of(*disputed_adjustment),
                ) && *final(self) == a,
                Err(e) => r == Err::<DisputeClaim, EngineError>(e) && *final(self) == *old(self),
            },
            old(self).wf() ==> final(self).wf(),
    {
        if let Err(e) = self.check_account_lock() {
            return Err(e);
        }
        if self.client_id != disputed_adjustment.details.client_id {
            return Err(EngineError::Account_DisputeReferencesDifferentClient_OnCreation);
        }
        let amount = disputed_adjustment.amount.0 as i128;
        match disputed_adjustment.category {
            AdjustmentKind::Deposit => {
                let available = self.available as i128 - amount;
                let held = self.held as i128 + amount;
                if let Err(e) = self.set_balances(available, held) {
                    return Err(e);
                }
            },
            AdjustmentKind::Withdrawal => {},
        }
        Ok(
            DisputeClaim {
                client_id: disputed_adjustment.details.client_id,
                kind: disputed_adjustment.category,
                amount: disputed_adjustment.amount,
            },
        )
    }

    /// Closes `claim` by a resolve or a chargeback issued as transaction
    /// `tx_id` of client `tx_client_id`, and returns `tx_id`. A failure leaves
    /// the account as it was.
    pub fn resolve_dispute(
        &mut self,
        claim: &DisputeClaim,
        tx_id: &TransactionId,
        tx_client_id: &ClientId,
        resolution_category: &ResolutionKind,
    ) -> (r: Result<TransactionId, EngineError>)
        ensures
            match old(self).resolved(*claim, *tx_client_id, *resolution_category) {
                Ok(a) => r == Ok::<TransactionId, EngineError>(*tx_id) && *final(self) == a,
                Err(e) => r == Err::<TransactionId, EngineError>(e) && *final(self) == *old(self),
            },
            old(self).wf() ==> final(self).wf(),
    {
        if let Err(e) = self.check_account_lock() {
            return Err(e);
        }
        if claim.client_id != *tx_client_id {
            return Err(EngineError::Account_DisputeReferencesDifferentClient_OnResolution);
        }
        let amount = claim.amount.0 as i128;
        let available = self.available as i128;
        let held = self.held as i128;
        match (claim.kind, *resolution_category) {
            (AdjustmentKind::Deposit, ResolutionKind::Resolve) => {
                if let Err(e) = self.set_balances(available + amount, held - amount) {
                    return Err(e);
                }
            },
            (AdjustmentKind::Deposit, ResolutionKind::Chargeback) => {
                if amount > available + held {
                    return Err(EngineError::Account_NotEnoughFunds);
                }
                if let Err(e) = self.set_balances(available, held - amount) {
                    return Err(e);
                }
                self.locked = true;
            },
            (AdjustmentKind::Withdrawal, ResolutionKind::Chargeback) => {
                if let Err(e) = self.set_balances(available + amount, held) {
                    return Err(e);
                }
                self.locked = true;
            },
            (AdjustmentKind::Withdrawal, ResolutionKind::Resolve) => {},
        }
        Ok(*tx_id)
    }
}

/// Locks the account of a successful step; passes an error on.
pub open spec fn lock_on_success(r: Result<Account, EngineError>) -> Result<Account, EngineError> {
    match r {
        Ok(a) => Ok(Account { locked: true, ..a }),
        Err(e) => Err(e),
    }
}

} // verus!
