use std::collections::HashMap;

use vstd::prelude::*;

use crate::engine::account::Account;
use crate::engine::transactions::{ClientId, TransactionDTO, TransactionId, TxKind};
use crate::engine::tx_resolver::{LedgerView, TxResolver};
use crate::engine::EngineError;

verus! {

broadcast use {vstd::std_specs::hash::group_hash_axioms, vstd::seq_lib::group_seq_properties};

/// The outcome reported for one transaction: its id, and the error if it failed.
pub type TransactionError = (TransactionId, Option<EngineError>);

/// The outcome of one transaction, as a consumer of a shard's reports sees it.
pub enum ProcessingResult {
    Success,
    Error(EngineError),
}

/// What a shard holds: its accounts by client, the clients in the order in
/// which they first appeared, and its ledger.
pub struct ShardView {
    pub accounts: Map<u16, Account>,
    pub clients: Seq<u16>,
    pub ledger: LedgerView,
}

impl ShardView {
    /// The account of `client_id`, or a fresh one where the shard has none yet.
    pub open spec fn account_for(self, client_id: ClientId) -> Account {
        if self.accounts.contains_key(client_id.0) {
            self.accounts[client_id.0]
        } else {
            Account { client_id, available: 0, held: 0, locked: false }
        }
    }

    /// The ledger and account after `tx`, dispatched by its kind, or its error.
    pub open spec fn outcome(self, tx: TransactionDTO) -> Result<(LedgerView, Account), EngineError> {
        let account = self.account_for(tx.client_id);
        match tx.kind {
            TxKind::Deposit | TxKind::Withdrawal => self.ledger.after_adjustment(account, tx),
            TxKind::Dispute => self.ledger.after_dispute(account, tx.id.0),
            TxKind::Resolve | TxKind::Chargeback => self.ledger.after_resolution(account, tx),
        }
    }

    /// The shard after `tx`. The client's account exists afterwards, even
    /// where `tx` failed; a failure changes nothing else.
    pub open spec fn after(self, tx: TransactionDTO) -> ShardView {
        let c = tx.client_id.0;
        let clients = if self.accounts.contains_key(c) {
            self.clients
        } else {
            self.clients.push(c)
        };
        match self.outcome(tx) {
            Ok((ledger, account)) => ShardView {
                accounts: self.accounts.insert(c, account),
                clients,
                ledger,
            },
            Err(_) => ShardView {
                accounts: self.accounts.insert(c, self.account_for(tx.client_id)),
                clients,
                ledger: self.ledger,
            },
        }
    }

    /// The result reported for `tx`.
    pub open spec fn result(self, tx: TransactionDTO) -> Result<(), EngineError> {
        match self.outcome(tx) {
            Ok(_) => Ok(()),
            Err(e) => Err(e),
        }
    }

    /// Every listed client has an account, once, every account is listed and
    /// within the balance range, and every open dispute cites a logged
    /// adjustment.
    pub open spec fn wf(self) -> bool {
        &&& self.clients.no_duplicates()
        &&& forall|c: u16| self.accounts.contains_key(c) <==> self.clients.contains(c)
        &&& forall|c: u16| #[trigger] self.accounts.contains_key(c) ==> self.accounts[c].wf()
        &&& self.ledger.wf()
    }
}

/// The accounts, client list and ledger of one shard.
struct ShardState {
    accounts: HashMap<u16, Account>,
    clients: Vec<u16>,
    resolver: TxResolver,
}

impl View for ShardState {
    type V = ShardView;

    closed spec fn view(&self) -> ShardView {
        ShardView { accounts: self.accounts@, clients: self.clients@, ledger: self.resolver@ }
    }
}

impl ShardState {
    fn new() -> (r: ShardState)
        ensures
            r@.accounts == Map::<u16, Account>::empty(),
            r@.clients == Seq::<u16>::empty(),
            r@.ledger.log.is_empty(),
            r@.ledger.disputes.is_empty(),
            r@.wf(),
    {
        let r = ShardState { accounts: HashMap::new(), clients: Vec::new(), resolver: TxResolver::new() };
        assert(r@.clients.no_duplicates());
        r
    }

    fn process(&mut self, tx: TransactionDTO) -> (r: Result<(), EngineError>)
        requires
            old(self)@.wf(),
        ensures
            r == old(self)@.result(tx),
            final(self)@ == old(self)@.after(tx),
            final(self)@.wf(),
    {
        let c = tx.client_id.0;
        let ghost before = self@;
        let mut account = match self.accounts.remove(&c) {
            Some(account) => account,
            None => {
                self.clients.push(c);
                Account::new(tx.client_id)
            },
        };
        assert(account == before.account_for(tx.client_id));
        assert(account.wf());
        let r = match tx.kind {
            TxKind::Deposit | TxKind::Withdrawal => self.resolver.apply_adjustment(tx, &mut account),
            TxKind::Dispute => self.resolver.open_dispute(&tx.id, &mut account),
            TxKind::Resolve | TxKind::Chargeback => self.resolver.close_dispute(tx, &mut account),
        };
        self.accounts.insert(c, account);
        proof {
            let after = before.after(tx);
            assert(account.wf());
            if !before.accounts.contains_key(c) {
                assert(!before.clients.contains(c));
                assert(self@.clients.no_duplicates());
            }
            assert(self@.accounts =~= after.accounts);
            assert(self@.clients =~= after.clients);
            assert forall|k: u16| self@.accounts.contains_key(k) <==> self@.clients.contains(k) by {
                if k != c {
                    assert(before.accounts.contains_key(k) <==> before.clients.contains(k));
                }
                if !before.accounts.contains_key(c) {
                    assert(self@.clients.last() == c);
                }
            }
        }
        r
    }
}

/// One shard: it owns the accounts of its clients and one ledger, and
/// applies their transactions one at a time, in arrival order.
pub struct ProcessorImpl {
    state: ShardState,
    instance_id: u16,
}

impl View for ProcessorImpl {
    type V = ShardView;

    closed spec fn view(&self) -> ShardView {
        self.state@
    }
}

impl ProcessorImpl {
    #[verifier::type_invariant]
    spec fn inv(self) -> bool {
        self@.wf()
    }

    pub closed spec fn spec_instance_id(&self) -> u16 {
        self.instance_id
    }

    pub fn new(instance_id: u16) -> (r: ProcessorImpl)
        ensures
            r@.accounts == Map::<u16, Account>::empty(),
            r@.clients == Seq::<u16>::empty(),
            r@.ledger.log.is_empty(),
            r@.ledger.disputes.is_empty(),
            r@.wf(),
            r.spec_instance_id() == instance_id,
    {
        ProcessorImpl { state: ShardState::new(), instance_id }
    }

    pub fn instance_id(&self) -> (r: u16)
        ensures
            r == self.spec_instance_id(),
    {
        self.instance_id
    }

    /// Applies one transaction to the account of its client, which is
    /// created with zero balances on first sight.
    pub fn process(&mut self, tx: TransactionDTO) -> (r: Result<(), EngineError>)
        ensures
            r == old(self)@.result(tx),
            final(self)@ == old(self)@.after(tx),
            final(self)@.wf(),
            final(self).spec_instance_id() == old(self).spec_instance_id(),
    {
        proof {
            use_type_invariant(&*self);
        }
        let mut state = ShardState::new();
        core::mem::swap(&mut self.state, &mut state);
        let r = state.process(tx);
        core::mem::swap(&mut self.state, &mut state);
        r
    }

    /// Processes `tx` and reports its id with its error, if any.
    pub fn handle(&mut self, tx: TransactionDTO) -> (r: TransactionError)
        ensures
            r.0 == tx.id,
            r.1 == match old(self)@.result(tx) {
                Ok(_) => None,
                Err(e) => Some(e),
            },
            final(self)@ == old(self)@.after(tx),
            final(self)@.wf(),
            final(self).spec_instance_id() == old(self).spec_instance_id(),
    {
        proof {
            use_type_invariant(&*self);
        }
        let tx_id = tx.id;
        match self.process(tx) {
            Ok(()) => (tx_id, None),
            Err(e) => (tx_id, Some(e)),
        }
    }

    /// The account of `client_id`, if the shard has seen that client.
    pub fn account(&self, client_id: ClientId) -> (r: Option<Account>)
        ensures
            r == (if self@.accounts.contains_key(client_id.0) {
                Some(self@.accounts[client_id.0])
            } else {
                None
            }),
    {
        match self.state.accounts.get(&client_id.0) {
            Some(account) => Some(*account),
            None => None,
        }
    }

    /// The accounts of the shard, in the order in which their clients first
    /// appeared.
    pub fn accounts(&self) -> (r: Vec<Account>)
        ensures
            r@.len() == self@.clients.len(),
            forall|i: int| 0 <= i < r@.len() ==> r@[i] == self@.accounts[#[trigger] self@.clients[i]],
    {
        proof {
            use_type_invariant(self);
        }
        let mut r: Vec<Account> = Vec::new();
        let mut i: usize = 0;
        while i < self.state.clients.len()
            invariant
                self@.wf(),
                i <= self@.clients.len(),
                r@.len() == i,
                forall|j: int| 0 <= j < i ==> r@[j] == self@.accounts[#[trigger] self@.clients[j]],
            decreases self@.clients.len() - i,
        {
            let c = self.state.clients[i];
            assert(self@.clients.contains(c));
            match self.state.accounts.get(&c) {
                Some(account) => r.push(*account),
                None => {
                    assert(false);
                },
            }
            i = i + 1;
        }
        r
    }
}

/// The shard that serves `client_id` out of `shard_count`: the same one for
/// every transaction of that client.
pub fn shard_index(client_id: ClientId, shard_count: u16) -> (r: usize)
    requires
        shard_count > 0,
    ensures
        r == client_id.0 % shard_count,
        r < shard_count,
{
    (client_id.0 % shard_count) as usize
}

} // verus!
