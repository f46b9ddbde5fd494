use vstd::prelude::*;

use crate::engine::account::{in_balance_range, Account, MAX_BALANCE};
use crate::engine::processor::ShardView;
use crate::engine::transactions::{
    Adjustment, ClientId, DisputeClaim, ResolutionKind, TransactionDTO, TxKind,
};
use crate::engine::tx_resolver::LedgerView;
use crate::engine::EngineError;

verus! {

/// The change that a deposit or withdrawal makes to the total funds.
pub open spec fn signed_amount(tx: TransactionDTO) -> int {
    let amount = match tx.amount {
        Some(a) => a.0 as int,
        None => 0,
    };
    match tx.kind {
        TxKind::Deposit => amount,
        TxKind::Withdrawal => -amount,
        _ => 0,
    }
}

pub open spec fn signed_sum(txs: Seq<TransactionDTO>) -> int
    decreases txs.len(),
{
    if txs.len() == 0 {
        0
    } else {
        signed_sum(txs.drop_last()) + signed_amount(txs.last())
    }
}

/// The account after applying `txs` as deposits and withdrawals in order,
/// or the first error.
pub open spec fn adjusted_all(account: Account, txs: Seq<TransactionDTO>) -> Result<
    Account,
    EngineError,
>
    decreases txs.len(),
{
    if txs.len() == 0 {
        Ok(account)
    } else {
        match adjusted_all(account, txs.drop_last()) {
            Ok(a) => a.adjusted(txs.last()),
            Err(e) => Err(e),
        }
    }
}

/// The shard after processing `txs` in order.
pub open spec fn processed_all(shard: ShardView, txs: Seq<TransactionDTO>) -> ShardView
    decreases txs.len(),
{
    if txs.len() == 0 {
        shard
    } else {
        processed_all(shard, txs.drop_last()).after(txs.last())
    }
}

/// Where every deposit and withdrawal of a sequence succeeds, the total funds
/// change by the sum of their amounts, deposits counted positive and
/// withdrawals negative.
pub proof fn lemma_total_follows_adjustments(account: Account, txs: Seq<TransactionDTO>)
    requires
        adjusted_all(account, txs) is Ok,
    ensures
        adjusted_all(account, txs)->Ok_0.total() == account.total() + signed_sum(txs),
    decreases txs.len(),
{
    if txs.len() > 0 {
        lemma_total_follows_adjustments(account, txs.drop_last());
    }
}

/// On an unlocked account, a withdrawal is accepted exactly when its amount
/// does not exceed the available funds; it then takes the amount from the
/// available funds alone.
pub proof fn lemma_withdrawal_accepted_iff_covered(account: Account, tx: TransactionDTO)
    requires
        account.wf(),
        !account.locked,
        tx.kind == TxKind::Withdrawal,
        tx.amount is Some,
        account.available - tx.amount->Some_0.0 <= MAX_BALANCE,
    ensures
        account.adjusted(tx) is Ok <==> tx.amount->Some_0.0 <= account.available,
        account.adjusted(tx) is Err ==> account.adjusted(tx) == Err::<Account, EngineError>(
            EngineError::Account_NotEnoughFunds,
        ),
        account.adjusted(tx) is Ok ==> ({
            let a = account.adjusted(tx)->Ok_0;
            &&& a.available == account.available - tx.amount->Some_0.0
            &&& a.held == account.held
            &&& a.locked == account.locked
        }),
{
}

/// A dispute on a transaction that the log does not hold fails with
/// `Resolver_TransactionNotFound`; the shard keeps its ledger, and the
/// client's account keeps its balances.
pub proof fn lemma_dispute_of_unknown_fails(shard: ShardView, tx: TransactionDTO)
    requires
        tx.kind == TxKind::Dispute,
        !shard.ledger.log.contains_key(tx.id.0),
    ensures
        shard.ledger.after_dispute(shard.account_for(tx.client_id), tx.id.0) == Err::<
            (LedgerView, Account),
            EngineError,
        >(EngineError::Resolver_TransactionNotFound),
        shard.result(tx) == Err::<(), EngineError>(EngineError::Resolver_TransactionNotFound),
        shard.after(tx).ledger == shard.ledger,
        shard.after(tx).accounts[tx.client_id.0] == shard.account_for(tx.client_id),
{
}

/// Once a dispute on a transaction has opened, a second one on the same
/// transaction fails with `Resolver_TransactionAlreadyUnderDispute`.
pub proof fn lemma_second_dispute_fails(
    ledger: LedgerView,
    account: Account,
    id: u32,
    later: Account,
)
    requires
        ledger.after_dispute(account, id) is Ok,
    ensures
        ledger.after_dispute(account, id)->Ok_0.0.after_dispute(later, id) == Err::<
            (LedgerView, Account),
            EngineError,
        >(EngineError::Resolver_TransactionAlreadyUnderDispute),
{
}

/// In a well-formed ledger, a dispute on a transaction under dispute fails
/// with `Resolver_TransactionAlreadyUnderDispute`.
pub proof fn lemma_dispute_of_disputed_fails(ledger: LedgerView, account: Account, id: u32)
    requires
        ledger.wf(),
        ledger.disputes.contains_key(id),
    ensures
        ledger.after_dispute(account, id) == Err::<(LedgerView, Account), EngineError>(
            EngineError::Resolver_TransactionAlreadyUnderDispute,
        ),
{
}

/// In a well-formed shard, a dispute on a transaction under dispute fails
/// with `Resolver_TransactionAlreadyUnderDispute` and leaves the ledger as it
/// was.
pub proof fn lemma_shard_dispute_of_disputed_fails(shard: ShardView, tx: TransactionDTO)
    requires
        shard.wf(),
        tx.kind == TxKind::Dispute,
        shard.ledger.disputes.contains_key(tx.id.0),
    ensures
        shard.result(tx) == Err::<(), EngineError>(
            EngineError::Resolver_TransactionAlreadyUnderDispute,
        ),
        shard.after(tx).ledger == shard.ledger,
{
    lemma_dispute_of_disputed_fails(shard.ledger, shard.account_for(tx.client_id), tx.id.0);
}

/// Every step of the ledger keeps it well formed.
pub proof fn lemma_ledger_steps_keep_wf(
    ledger: LedgerView,
    account: Account,
    tx: TransactionDTO,
)
    requires
        ledger.wf(),
    ensures
        ledger.after_adjustment(account, tx) is Ok ==> ledger.after_adjustment(
            account,
            tx,
        )->Ok_0.0.wf(),
        ledger.after_dispute(account, tx.id.0) is Ok ==> ledger.after_dispute(
            account,
            tx.id.0,
        )->Ok_0.0.wf(),
        ledger.after_resolution(account, tx) is Ok ==> ledger.after_resolution(
            account,
            tx,
        )->Ok_0.0.wf(),
{
}

/// A resolve or chargeback of a transaction with no open dispute fails with
/// `Resolver_TransactionNotUnderDispute`.
pub proof fn lemma_resolution_without_dispute_fails(
    ledger: LedgerView,
    account: Account,
    tx: TransactionDTO,
)
    requires
        !ledger.disputes.contains_key(tx.id.0),
    ensures
        ledger.after_resolution(account, tx) == Err::<(LedgerView, Account), EngineError>(
            EngineError::Resolver_TransactionNotUnderDispute,
        ),
{
}

/// A successful chargeback locks the account.
pub proof fn lemma_chargeback_locks(account: Account, claim: DisputeClaim, client_id: ClientId)
    requires
        account.resolved(claim, client_id, ResolutionKind::Chargeback) is Ok,
    ensures
        account.resolved(claim, client_id, ResolutionKind::Chargeback)->Ok_0.locked,
{
}

/// A locked account rejects every operation with `Account_AccountLocked`.
pub proof fn lemma_locked_account_rejects_all(
    account: Account,
    tx: TransactionDTO,
    adj: Adjustment,
    claim: DisputeClaim,
    client_id: ClientId,
    resolution: ResolutionKind,
)
    requires
        account.locked,
    ensures
        account.adjusted(tx) == Err::<Account, EngineError>(EngineError::Account_AccountLocked),
        account.disputed(adj) == Err::<Account, EngineError>(EngineError::Account_AccountLocked),
        account.resolved(claim, client_id, resolution) == Err::<Account, EngineError>(
            EngineError::Account_AccountLocked,
        ),
{
}

/// A locked account stays as it is, and locked, through any sequence of
/// transactions that a shard processes, and each of its transactions fails.
pub proof fn lemma_locked_account_is_final(shard: ShardView, txs: Seq<TransactionDTO>, c: u16)
    requires
        shard.accounts.contains_key(c),
        shard.accounts[c].locked,
    ensures
        processed_all(shard, txs).accounts.contains_key(c),
        processed_all(shard, txs).accounts[c] == shard.accounts[c],
        forall|i: int|
            0 <= i < txs.len() && txs[i].client_id.0 == c ==> (#[trigger] processed_all(
                shard,
                txs.take(i),
            )).result(txs[i]) is Err,
    decreases txs.len(),
{
    if txs.len() > 0 {
        let prefix = txs.drop_last();
        lemma_locked_account_is_final(shard, prefix, c);
        let before = processed_all(shard, prefix);
        let tx = txs.last();
        if tx.client_id.0 == c {
            lemma_locked_account_rejects_all(
                before.accounts[c],
                tx,
                before.ledger.log[tx.id.0],
                before.ledger.disputes[tx.id.0],
                tx.client_id,
                ResolutionKind::Resolve,
            );
            lemma_locked_account_rejects_all(
                before.accounts[c],
                tx,
                before.ledger.log[tx.id.0],
                before.ledger.disputes[tx.id.0],
                tx.client_id,
                ResolutionKind::Chargeback,
            );
        }
        assert forall|i: int|
            0 <= i < txs.len() && txs[i].client_id.0 == c implies (#[trigger] processed_all(
                shard,
                txs.take(i),
            )).result(txs[i]) is Err by {
            if i < prefix.len() {
                assert(txs.take(i) == prefix.take(i));
                assert(txs[i] == prefix[i]);
            } else {
                assert(txs.take(i) == prefix);
            }
        }
    }
}

/// A deposit that is disputed and then resolved leaves the account with the
/// balances it had right after the deposit, and leaves no dispute open.
pub proof fn lemma_deposit_dispute_resolve_round_trip(
    ledger: LedgerView,
    account: Account,
    deposit: TransactionDTO,
    resolve: TransactionDTO,
)
    requires
        account.wf(),
        deposit.kind == TxKind::Deposit,
        account.client_id == deposit.client_id,
        ledger.after_adjustment(account, deposit) is Ok,
        !ledger.disputes.contains_key(deposit.id.0),
        in_balance_range(account.held + deposit.amount->Some_0.0),
        resolve == (TransactionDTO {
            id: deposit.id,
            client_id: deposit.client_id,
            kind: TxKind::Resolve,
            amount: None,
        }),
    ensures
        ({
            let (l1, a1) = ledger.after_adjustment(account, deposit)->Ok_0;
            let disputed = l1.after_dispute(a1, deposit.id.0);
            &&& disputed is Ok
            &&& disputed->Ok_0.1.available == a1.available - deposit.amount->Some_0.0
            &&& disputed->Ok_0.1.held == a1.held + deposit.amount->Some_0.0
            &&& {
                let (l2, a2) = disputed->Ok_0;
                let resolved = l2.after_resolution(a2, resolve);
                &&& resolved is Ok
                &&& resolved->Ok_0.1.available == a1.available
                &&& resolved->Ok_0.1.held == a1.held
                &&& !resolved->Ok_0.1.locked
                &&& resolved->Ok_0.0.disputes == l1.disputes
            }
        }),
{
    let (l1, a1) = ledger.after_adjustment(account, deposit)->Ok_0;
    let (l2, a2) = l1.after_dispute(a1, deposit.id.0)->Ok_0;
    assert(l2.disputes.remove(deposit.id.0) =~= l1.disputes);
}

} // verus!
