use payments_engine::engine::account::{Account, MAX_BALANCE};
use payments_engine::engine::transactions::{
    Adjustment, AdjustmentKind, ClientId, DisputeClaim, ResolutionKind, TransactionDTO,
    TransactionId, TxAmount, TxDetails, TxKind, AMOUNT_SCALE,
};
use payments_engine::engine::EngineError;

fn units(whole: i64) -> i64 {
    whole * AMOUNT_SCALE
}

fn amount(whole: i64) -> TxAmount {
    TxAmount(units(whole))
}

#[test]
fn adjustment_fails_on_locked_account() {
    let mut account = Account {
        locked: true,
        ..Account::new(ClientId(1))
    };
    let tx = TransactionDTO {
        id: TransactionId(1),
        client_id: ClientId(1),
        kind: TxKind::Deposit,
        amount: Some(amount(100)),
    };

    let res = account.apply_adjustment(tx);

    assert!(res.is_err())
}

#[test]
fn withdrawal_fails_when_insufficient_funds() {
    let mut account = Account {
        available: units(100),
        ..Account::new(ClientId(1))
    };
    let tx = TransactionDTO {
        id: TransactionId(1),
        client_id: ClientId(1),
        kind: TxKind::Withdrawal,
        amount: Some(amount(110)),
    };

    let res = account.apply_adjustment(tx);

    assert!(res.is_err());
    assert_eq!(account.available, units(100));
    assert_eq!(account.held, 0);
}

#[test]
fn dispute_on_deposit_blocks_funds() {
    let mut account = Account {
        available: units(100),
        ..Account::new(ClientId(1))
    };
    let tx = TransactionDTO {
        id: TransactionId(1),
        client_id: ClientId(1),
        kind: TxKind::Deposit,
        amount: Some(amount(50)),
    };

    let adjustment = account.apply_adjustment(tx).unwrap();

    assert_eq!(account.available, units(150));
    assert_eq!(account.held, 0);

    let res = account.open_dispute(&adjustment);

    assert!(res.is_ok());
    assert_eq!(account.available, units(100));
    assert_eq!(account.held, units(50));
}

#[test]
fn resolution_on_disputed_deposit_unblocks_funds() {
    let mut account = Account {
        available: units(100),
        held: units(100),
        ..Account::new(ClientId(1))
    };
    let claim = DisputeClaim {
        client_id: ClientId(1),
        kind: AdjustmentKind::Deposit,
        amount: amount(50),
    };
    let tx = TransactionDTO {
        id: TransactionId(0),
        client_id: ClientId(1),
        kind: TxKind::Resolve,
        amount: None,
    };

    let res = account.resolve_dispute(
        &claim,
        &tx.id,
        &tx.client_id,
        &ResolutionKind::from_tx_kind(tx.kind).unwrap(),
    );

    assert!(res.is_ok());
    assert_eq!(account.available, units(150));
    assert_eq!(account.held, units(50));
}

#[test]
fn chargeback_on_disputed_deposit_decreases_funds() {
    let mut account = Account {
        available: units(100),
        held: units(100),
        ..Account::new(ClientId(1))
    };
    let claim = DisputeClaim {
        client_id: ClientId(1),
        kind: AdjustmentKind::Deposit,
        amount: amount(50),
    };

    let tx = TransactionDTO {
        id: TransactionId(0),
        client_id: ClientId(1),
        kind: TxKind::Chargeback,
        amount: None,
    };

    let res = account.resolve_dispute(
        &claim,
        &tx.id,
        &tx.client_id,
        &ResolutionKind::from_tx_kind(tx.kind).unwrap(),
    );

    assert!(res.is_ok());
    assert!(account.locked);
    assert_eq!(account.available, units(100));
    assert_eq!(account.held, units(50));
}

#[test]
fn deposit_and_withdraw_are_processed_succesfully() {
    let mut account = Account {
        available: units(100),
        ..Account::new(ClientId(1))
    };
    let tx0 = TransactionDTO {
        id: TransactionId(1),
        client_id: ClientId(1),
        kind: TxKind::Deposit,
        amount: Some(amount(50)),
    };
    let tx1 = TransactionDTO {
        id: TransactionId(2),
        client_id: ClientId(1),
        kind: TxKind::Withdrawal,
        amount: Some(amount(50)),
    };

    let _adjustment = account.apply_adjustment(tx0).unwrap();

    assert_eq!(account.available, units(150));
    assert_eq!(account.held, 0);

    let _adjustment = account.apply_adjustment(tx1).unwrap();

    assert_eq!(account.available, units(100));
    assert_eq!(account.held, 0);
}

#[test]
fn new_account_is_empty_and_unlocked() {
    let account = Account::new(ClientId(7));
    assert_eq!(account.client_id, ClientId(7));
    assert_eq!(account.available, 0);
    assert_eq!(account.held, 0);
    assert!(!account.locked);
}

#[test]
fn withdrawal_of_exactly_available_is_accepted() {
    let mut account = Account {
        available: units(40),
        ..Account::new(ClientId(1))
    };
    let tx = TransactionDTO {
        id: TransactionId(3),
        client_id: ClientId(1),
        kind: TxKind::Withdrawal,
        amount: Some(amount(40)),
    };
    let adjustment = account.apply_adjustment(tx).unwrap();
    assert_eq!(adjustment.category, AdjustmentKind::Withdrawal);
    assert_eq!(adjustment.details.id, TransactionId(3));
    assert_eq!(adjustment.amount, amount(40));
    assert_eq!(account.available, 0);
}

#[test]
fn rejected_withdrawal_leaves_account_unchanged() {
    let before = Account {
        available: units(10),
        held: units(5),
        ..Account::new(ClientId(1))
    };
    let mut account = before;
    let tx = TransactionDTO {
        id: TransactionId(3),
        client_id: ClientId(1),
        kind: TxKind::Withdrawal,
        amount: Some(TxAmount(units(10) + 1)),
    };
    assert_eq!(account.apply_adjustment(tx), Err(EngineError::Account_NotEnoughFunds));
    assert_eq!(account, before);
}

#[test]
fn adjustment_without_amount_is_rejected() {
    let mut account = Account::new(ClientId(1));
    let tx = TransactionDTO {
        id: TransactionId(1),
        client_id: ClientId(1),
        kind: TxKind::Deposit,
        amount: None,
    };
    assert_eq!(
        account.apply_adjustment(tx),
        Err(EngineError::Parsing_MissingAmountFieldConstructingAdjustment)
    );
    assert_eq!(account, Account::new(ClientId(1)));
}

#[test]
fn adjustment_from_dispute_record_is_rejected() {
    let mut account = Account::new(ClientId(1));
    let tx = TransactionDTO {
        id: TransactionId(1),
        client_id: ClientId(1),
        kind: TxKind::Dispute,
        amount: Some(amount(5)),
    };
    assert_eq!(
        account.apply_adjustment(tx),
        Err(EngineError::Parsing_TryingToConstructAdjustmentFromIncompatibileTransaction)
    );
}

#[test]
fn deposit_beyond_balance_range_is_rejected() {
    let mut account = Account {
        available: MAX_BALANCE,
        ..Account::new(ClientId(1))
    };
    let tx = TransactionDTO {
        id: TransactionId(1),
        client_id: ClientId(1),
        kind: TxKind::Deposit,
        amount: Some(TxAmount(1)),
    };
    assert_eq!(account.apply_adjustment(tx), Err(EngineError::Account_BalanceOutOfRange));
    assert_eq!(account.available, MAX_BALANCE);
}

#[test]
fn dispute_on_other_clients_adjustment_is_rejected() {
    let mut account = Account::new(ClientId(1));
    let adjustment = Adjustment {
        category: AdjustmentKind::Deposit,
        details: TxDetails { id: TransactionId(1), client_id: ClientId(2) },
        amount: amount(5),
    };
    assert_eq!(
        account.open_dispute(&adjustment),
        Err(EngineError::Account_DisputeReferencesDifferentClient_OnCreation)
    );
    assert_eq!(account, Account::new(ClientId(1)));
}

#[test]
fn dispute_on_withdrawal_holds_nothing() {
    let mut account = Account {
        available: units(50),
        ..Account::new(ClientId(1))
    };
    let adjustment = Adjustment {
        category: AdjustmentKind::Withdrawal,
        details: TxDetails { id: TransactionId(2), client_id: ClientId(1) },
        amount: amount(50),
    };
    let claim = account.open_dispute(&adjustment).unwrap();
    assert_eq!(
        claim,
        DisputeClaim { client_id: ClientId(1), kind: AdjustmentKind::Withdrawal, amount: amount(50) }
    );
    assert_eq!(account.available, units(50));
    assert_eq!(account.held, 0);
}

#[test]
fn resolution_by_other_client_is_rejected() {
    let mut account = Account {
        held: units(5),
        ..Account::new(ClientId(1))
    };
    let claim = DisputeClaim { client_id: ClientId(1), kind: AdjustmentKind::Deposit, amount: amount(5) };
    assert_eq!(
        account.resolve_dispute(&claim, &TransactionId(1), &ClientId(2), &ResolutionKind::Resolve),
        Err(EngineError::Account_DisputeReferencesDifferentClient_OnResolution)
    );
    assert_eq!(account.held, units(5));
}

#[test]
fn chargeback_of_withdrawal_reinstates_funds_and_locks() {
    let mut account = Account {
        available: units(50),
        ..Account::new(ClientId(1))
    };
    let claim = DisputeClaim { client_id: ClientId(1), kind: AdjustmentKind::Withdrawal, amount: amount(50) };
    assert_eq!(
        account.resolve_dispute(&claim, &TransactionId(2), &ClientId(1), &ResolutionKind::Chargeback),
        Ok(TransactionId(2))
    );
    assert_eq!(account.available, units(100));
    assert_eq!(account.held, 0);
    assert!(account.locked);
}

#[test]
fn resolve_of_withdrawal_changes_nothing() {
    let mut account = Account {
        available: units(50),
        ..Account::new(ClientId(1))
    };
    let claim = DisputeClaim { client_id: ClientId(1), kind: AdjustmentKind::Withdrawal, amount: amount(50) };
    assert!(account
        .resolve_dispute(&claim, &TransactionId(2), &ClientId(1), &ResolutionKind::Resolve)
        .is_ok());
    assert_eq!(account.available, units(50));
    assert!(!account.locked);
}

#[test]
fn chargeback_of_deposit_beyond_total_funds_is_rejected() {
    let mut account = Account {
        available: units(-30),
        held: units(100),
        ..Account::new(ClientId(1))
    };
    let claim = DisputeClaim { client_id: ClientId(1), kind: AdjustmentKind::Deposit, amount: amount(100) };
    assert_eq!(
        account.resolve_dispute(&claim, &TransactionId(1), &ClientId(1), &ResolutionKind::Chargeback),
        Err(EngineError::Account_NotEnoughFunds)
    );
    assert!(!account.locked);
    assert_eq!(account.held, units(100));
}

#[test]
fn locked_account_rejects_every_operation() {
    let before = Account {
        available: units(10),
        held: units(10),
        locked: true,
        ..Account::new(ClientId(1))
    };
    let mut account = before;
    let adjustment = Adjustment {
        category: AdjustmentKind::Deposit,
        details: TxDetails { id: TransactionId(1), client_id: ClientId(1) },
        amount: amount(10),
    };
    let claim = DisputeClaim { client_id: ClientId(1), kind: AdjustmentKind::Deposit, amount: amount(10) };
    assert_eq!(account.open_dispute(&adjustment), Err(EngineError::Account_AccountLocked));
    assert_eq!(
        account.resolve_dispute(&claim, &TransactionId(1), &ClientId(1), &ResolutionKind::Resolve),
        Err(EngineError::Account_AccountLocked)
    );
    assert_eq!(account, before);
}

#[test]
fn kinds_convert_only_where_they_match() {
    assert_eq!(AdjustmentKind::from_tx_kind(TxKind::Deposit), Ok(AdjustmentKind::Deposit));
    assert_eq!(AdjustmentKind::from_tx_kind(TxKind::Withdrawal), Ok(AdjustmentKind::Withdrawal));
    assert!(AdjustmentKind::from_tx_kind(TxKind::Resolve).is_err());
    assert_eq!(ResolutionKind::from_tx_kind(TxKind::Chargeback), Ok(ResolutionKind::Chargeback));
    assert_eq!(
        ResolutionKind::from_tx_kind(TxKind::Deposit),
        Err(EngineError::Parsing_TryingToConstructDisputeFromIncompatibileTransaction)
    );
}
