use payments_engine::engine::processor::{shard_index, ProcessorImpl, TransactionError};
use payments_engine::engine::transactions::{
    ClientId, TransactionDTO, TransactionId, TxAmount, TxKind, AMOUNT_SCALE,
};
use payments_engine::engine::EngineError;

fn units(whole: i64) -> i64 {
    whole * AMOUNT_SCALE
}

fn record(id: u32, client: u16, kind: TxKind, whole: Option<i64>) -> TransactionDTO {
    TransactionDTO {
        id: TransactionId(id),
        client_id: ClientId(client),
        kind,
        amount: whole.map(|w| TxAmount(units(w))),
    }
}

#[test]
fn processor_processor_returns_results_and_errors() {
    let client_id = 1;
    let transactions: Vec<(TransactionDTO, TransactionError)> = vec![
        (record(1, client_id, TxKind::Deposit, Some(100)), (TransactionId(1), None)),
        (record(2, client_id, TxKind::Withdrawal, Some(50)), (TransactionId(2), None)),
        (record(2, client_id, TxKind::Dispute, None), (TransactionId(2), None)),
        (record(2, client_id, TxKind::Chargeback, None), (TransactionId(2), None)),
        (
            record(100, client_id, TxKind::Chargeback, None),
            (TransactionId(100), Some(EngineError::Resolver_TransactionNotUnderDispute)),
        ),
        // the chargeback above locked the account
        (
            record(3, client_id, TxKind::Withdrawal, Some(70)),
            (TransactionId(3), Some(EngineError::Account_AccountLocked)),
        ),
        (
            record(4, client_id, TxKind::Withdrawal, Some(40)),
            (TransactionId(4), Some(EngineError::Account_AccountLocked)),
        ),
        (
            record(500, client_id, TxKind::Dispute, Some(40)),
            (TransactionId(500), Some(EngineError::Resolver_TransactionNotFound)),
        ),
    ];

    let mut processor = ProcessorImpl::new(1);
    for (transaction, (expect_id, expect_res)) in transactions {
        let (id, res) = processor.handle(transaction);
        assert_eq!(id, expect_id);
        assert_eq!(res, expect_res);
    }
}

#[test]
fn withdrawal_dispute_and_chargeback_scenario() {
    let mut processor = ProcessorImpl::new(0);
    assert_eq!(processor.process(record(1, 1, TxKind::Deposit, Some(100))), Ok(()));
    assert_eq!(processor.process(record(2, 1, TxKind::Withdrawal, Some(50))), Ok(()));
    let account = processor.account(ClientId(1)).unwrap();
    assert_eq!((account.available, account.held), (units(50), 0));

    assert_eq!(processor.process(record(2, 1, TxKind::Dispute, None)), Ok(()));
    let account = processor.account(ClientId(1)).unwrap();
    assert_eq!((account.available, account.held), (units(50), 0));
    assert_eq!(
        processor.process(record(2, 1, TxKind::Dispute, None)),
        Err(EngineError::Resolver_TransactionAlreadyUnderDispute)
    );

    assert_eq!(processor.process(record(2, 1, TxKind::Chargeback, None)), Ok(()));
    let account = processor.account(ClientId(1)).unwrap();
    assert_eq!(account.available, units(100));
    assert!(account.locked);
}

#[test]
fn deposit_dispute_resolve_scenario() {
    let mut processor = ProcessorImpl::new(0);
    assert_eq!(processor.process(record(1, 1, TxKind::Deposit, Some(100))), Ok(()));
    assert_eq!(processor.process(record(1, 1, TxKind::Dispute, None)), Ok(()));
    let account = processor.account(ClientId(1)).unwrap();
    assert_eq!((account.available, account.held), (0, units(100)));
    assert_eq!(processor.process(record(1, 1, TxKind::Resolve, None)), Ok(()));
    let account = processor.account(ClientId(1)).unwrap();
    assert_eq!((account.available, account.held), (units(100), 0));
    assert!(!account.locked);
}

#[test]
fn unknown_transaction_dispute_scenario() {
    let mut processor = ProcessorImpl::new(0);
    assert_eq!(processor.process(record(1, 1, TxKind::Deposit, Some(100))), Ok(()));
    let before = processor.account(ClientId(1)).unwrap();
    assert_eq!(
        processor.process(record(999, 1, TxKind::Dispute, None)),
        Err(EngineError::Resolver_TransactionNotFound)
    );
    assert_eq!(processor.account(ClientId(1)).unwrap(), before);
}

#[test]
fn locked_account_stays_locked() {
    let mut processor = ProcessorImpl::new(0);
    assert_eq!(processor.process(record(1, 1, TxKind::Deposit, Some(10))), Ok(()));
    assert_eq!(processor.process(record(2, 1, TxKind::Deposit, Some(5))), Ok(()));
    assert_eq!(processor.process(record(1, 1, TxKind::Dispute, None)), Ok(()));
    assert_eq!(processor.process(record(1, 1, TxKind::Chargeback, None)), Ok(()));
    let locked = processor.account(ClientId(1)).unwrap();
    assert!(locked.locked);
    assert_eq!((locked.available, locked.held), (units(5), 0));
    assert_eq!(
        processor.process(record(3, 1, TxKind::Deposit, Some(1))),
        Err(EngineError::Account_AccountLocked)
    );
    assert_eq!(
        processor.process(record(2, 1, TxKind::Dispute, None)),
        Err(EngineError::Account_AccountLocked)
    );
    assert_eq!(processor.account(ClientId(1)).unwrap(), locked);
}

#[test]
fn failures_do_not_touch_other_clients() {
    let mut processor = ProcessorImpl::new(0);
    assert_eq!(processor.process(record(1, 1, TxKind::Deposit, Some(10))), Ok(()));
    assert_eq!(
        processor.process(record(2, 2, TxKind::Withdrawal, Some(10))),
        Err(EngineError::Account_NotEnoughFunds)
    );
    assert_eq!(
        processor.process(record(1, 2, TxKind::Dispute, None)),
        Err(EngineError::Account_DisputeReferencesDifferentClient_OnCreation)
    );
    let accounts = processor.accounts();
    assert_eq!(accounts.len(), 2);
    assert_eq!(accounts[0].client_id, ClientId(1));
    assert_eq!(accounts[0].available, units(10));
    assert_eq!(accounts[1].client_id, ClientId(2));
    assert_eq!(accounts[1].available, 0);
    assert_eq!(processor.account(ClientId(3)), None);
}

#[test]
fn total_is_sum_of_signed_amounts() {
    let mut processor = ProcessorImpl::new(0);
    let steps = [(TxKind::Deposit, 30), (TxKind::Withdrawal, 10), (TxKind::Deposit, 7), (TxKind::Withdrawal, 20)];
    for (i, (kind, whole)) in steps.iter().enumerate() {
        assert_eq!(processor.process(record(i as u32, 4, *kind, Some(*whole))), Ok(()));
    }
    let account = processor.account(ClientId(4)).unwrap();
    assert_eq!(account.available + account.held, units(30 - 10 + 7 - 20));
}

#[test]
fn router_keeps_each_client_on_one_shard() {
    assert_eq!(shard_index(ClientId(5), 2), 1);
    assert_eq!(shard_index(ClientId(4), 2), 0);
    assert_eq!(shard_index(ClientId(17), 5), 2);
    assert_eq!(shard_index(ClientId(3), 1), 0);
    assert_eq!(shard_index(ClientId(65535), 7), 65535 % 7);
}

#[test]
fn processor_keeps_its_instance_id() {
    let mut processor = ProcessorImpl::new(3);
    let _ = processor.process(record(1, 1, TxKind::Deposit, Some(1)));
    assert_eq!(processor.instance_id(), 3);
}
