//! The processor: the ledger's tables, and the application of transaction
//! records to them.

use crate::account::Account;
use crate::amount::Amount;
use crate::config::{ClientId, TransactionId};
use crate::model::{Book, Ledger, TransactionProcessorError};
use crate::transaction::{RecordError, Transaction, TransactionError};
use std::collections::{HashMap, HashSet};
use vstd::prelude::*;

verus! {

broadcast use vstd::std_specs::hash::group_hash_axioms;

/// One client's account with the deposits and withdrawals that can still be
/// disputed.
struct AccountEntry {
    account: Account,
    history: HashMap<TransactionId, Transaction>,
}

impl View for AccountEntry {
    type V = Book;

    closed spec fn view(&self) -> Book {
        Book { balances: self.account@, history: self.history@ }
    }
}

impl AccountEntry {
    /// The entry of a client nothing has happened to.
    fn open(client: ClientId) -> (entry: AccountEntry)
        ensures
            entry@ == Book::empty(),
            entry.account.wf(),
            entry.account.client_id == client,
    {
        let account = Account::new(client, Amount::default(), Amount::default(), false);
        AccountEntry { account, history: HashMap::new() }
    }

    /// Looks up the deposit or withdrawal that the command `tx` names by
    /// `id`, with its amount.
    fn target(&self, tx: Transaction, id: TransactionId) -> (found: Result<
        (Transaction, Amount),
        TransactionError,
    >)
        ensures
            match found {
                Ok((target, amount)) => self@.target(tx, id) == Ok::<
                    (Transaction, nat),
                    TransactionError,
                >((target, amount@)),
                Err(error) => self@.target(tx, id) == Err::<(Transaction, nat), TransactionError>(
                    error,
                ),
            },
    {
        match self.history.get(&id) {
            None => Err(TransactionError::TransactionNotFound(tx)),
            Some(found) => match found.amount() {
                Some(amount) => Ok((*found, amount)),
                None => Err(TransactionError::InvalidTransactionId(*found)),
            },
        }
    }

    /// Applies `tx` to this entry as `Book::outcome` says, and takes the id
    /// of a deposit or withdrawal that took effect into use. A transaction
    /// that is refused leaves the entry and the ids as they are.
    fn apply(&mut self, used: &mut HashSet<TransactionId>, tx: Transaction) -> (result: Result<
        (),
        TransactionError,
    >)
        requires
            old(self).account.wf(),
        ensures
            final(self).account.wf(),
            final(self).account.client_id == old(self).account.client_id,
            match result {
                Ok(()) => {
                    &&& old(self)@.outcome(old(used)@, tx) == Ok::<Book, TransactionError>(
                        final(self)@,
                    )
                    &&& final(used)@ == if tx.moves_funds() {
                        old(used)@.insert(tx.id_of())
                    } else {
                        old(used)@
                    }
                },
                Err(error) => {
                    &&& old(self)@.outcome(old(used)@, tx) == Err::<Book, TransactionError>(error)
                    &&& final(self)@ == old(self)@
                    &&& final(used)@ == old(used)@
                },
            },
    {
        match tx {
            Transaction::Deposit { id, amount, client_id, .. } => {
                if used.contains(&id) {
                    return Err(TransactionError::DuplicateGlobalTransactionId(tx));
                }
                match self.account.deposit(amount) {
                    Ok(()) => {
                        self.history.insert(id, Transaction::deposit(id, amount, client_id));
                        used.insert(id);
                        Ok(())
                    },
                    Err(refusal) => Err(TransactionError::from((refusal, tx))),
                }
            },
            Transaction::Withdrawal { id, amount, client_id, .. } => {
                if used.contains(&id) {
                    return Err(TransactionError::DuplicateGlobalTransactionId(tx));
                }
                match self.account.withdraw(amount) {
                    Ok(()) => {
                        self.history.insert(id, Transaction::withdrawal(id, amount, client_id));
                        used.insert(id);
                        Ok(())
                    },
                    Err(refusal) => Err(TransactionError::from((refusal, tx))),
                }
            },
            Transaction::Dispute { id, .. } => {
                let (target, amount) = match self.target(tx, id) {
                    Ok(found) => found,
                    Err(error) => {
                        return Err(error);
                    },
                };
                // The account and the transaction change together or not at
                // all: both are tried on copies first.
                let mut account = self.account;
                if let Err(refusal) = account.hold(amount) {
                    return Err(TransactionError::from((refusal, target)));
                }
                let mut changed = target;
                if let Err(error) = changed.set_disputed() {
                    return Err(error);
                }
                self.account = account;
                self.history.insert(id, changed);
                Ok(())
            },
            Transaction::Resolve { id, .. } => {
                let (target, amount) = match self.target(tx, id) {
                    Ok(found) => found,
                    Err(error) => {
                        return Err(error);
                    },
                };
                let mut changed = target;
                if let Err(error) = changed.set_resolved() {
                    return Err(error);
                }
                if let Err(refusal) = self.account.release(amount) {
                    return Err(TransactionError::from((refusal, target)));
                }
                self.history.insert(id, changed);
                Ok(())
            },
            Transaction::Chargeback { id, .. } => {
                let (target, amount) = match self.target(tx, id) {
                    Ok(found) => found,
                    Err(error) => {
                        return Err(error);
                    },
                };
                let mut changed = target;
                if let Err(error) = changed.set_chargeback() {
                    return Err(error);
                }
                if let Err(refusal) = self.account.chargeback(amount) {
                    return Err(TransactionError::from((refusal, target)));
                }
                self.history.remove(&id);
                Ok(())
            },
        }
    }
}

/// Processes and manages transactions for multiple accounts.
///
/// Its view is the `Ledger` that its tables stand for.
pub struct TransactionProcessor {
    /// Each client's account with its transaction history, by client.
    accounts: HashMap<ClientId, AccountEntry>,
    /// The clients in the order in which they were first seen.
    clients: Vec<ClientId>,
    /// The ids that deposits and withdrawals have used, across all clients.
    global_tx_ids: HashSet<TransactionId>,
}

impl View for TransactionProcessor {
    type V = Ledger;

    closed spec fn view(&self) -> Ledger {
        Ledger {
            books: self.accounts@.map_values(|entry: AccountEntry| entry@),
            used_ids: self.global_tx_ids@,
            clients: self.clients@,
        }
    }
}

impl TransactionProcessor {
    /// The tables stand for a well-formed ledger, and every account is
    /// filed under its own client and records the total of its balances.
    pub closed spec fn wf(&self) -> bool {
        &&& self@.wf()
        &&& forall|client: ClientId| #[trigger]
            self.accounts@.contains_key(client) ==> {
                &&& self.accounts@[client].account.wf()
                &&& self.accounts@[client].account.client_id == client
            }
    }

    /// The ledger of a well-formed processor is well formed, so the laws of
    /// `Ledger` hold of it.
    pub proof fn lemma_ledger_wf(&self)
        requires
            self.wf(),
        ensures
            self@.wf(),
    {
    }

    /// A processor that has seen no record.
    pub fn new() -> (processor: TransactionProcessor)
        ensures
            processor.wf(),
            processor@ == Ledger::empty(),
    {
        let processor = TransactionProcessor {
            accounts: HashMap::new(),
            clients: Vec::new(),
            global_tx_ids: HashSet::new(),
        };
        assert(processor@.books =~= Ledger::empty().books);
        processor
    }

    /// Handles a single transaction by applying its effect to the relevant
    /// account, which is opened where the client has not been seen.
    ///
    /// The ledger afterwards and the result are those of `Ledger::apply`. A
    /// transaction that is refused changes no balance, no history and no
    /// id in use.
    pub fn handle_transaction(&mut self, tx: Transaction) -> (result: Result<(), TransactionError>)
        requires
            old(self).wf(),
        ensures
            final(self).wf(),
            (final(self)@, result) == old(self)@.apply(tx),
    {
        let client = *tx.client_id();
        let ghost before = self@;
        let mut entry = match self.accounts.remove(&client) {
            Some(entry) => entry,
            None => {
                self.clients.push(client);
                AccountEntry::open(client)
            },
        };
        assert(entry@ == before.opened(client).books[client]);
        let result = entry.apply(&mut self.global_tx_ids, tx);
        self.accounts.insert(client, entry);
        proof {
            assert(self@.books =~= before.apply(tx).0.books);
            assert(result is Ok ==> result->Ok_0 == before.apply(tx).1->Ok_0);
            before.lemma_apply_wf(tx);
        }
        result
    }

    /// Takes one record: applies a transaction, and reports a record that
    /// never became one without touching the ledger.
    pub fn process(&mut self, record: Result<Transaction, RecordError>) -> (result: Result<
        (),
        TransactionProcessorError,
    >)
        requires
            old(self).wf(),
        ensures
            final(self).wf(),
            (final(self)@, result) == old(self)@.process(record),
    {
        match record {
            Ok(tx) => match self.handle_transaction(tx) {
                Ok(()) => Ok(()),
                Err(error) => Err(TransactionProcessorError::TransactionProcessingError(error)),
            },
            Err(error) => Err(TransactionProcessorError::TransactionParsingError(error)),
        }
    }

    /// Retrieves all accounts, in the order in which their clients were
    /// first seen. Each records the total of its two balances.
    pub fn get_accounts(&self) -> (accounts: Vec<Account>)
        requires
            self.wf(),
        ensures
            accounts@.len() == self@.snapshot().len(),
            forall|i: int|
                0 <= i < accounts@.len() ==> {
                    &&& (#[trigger] accounts@[i]).wf()
                    &&& (accounts@[i].client_id, accounts@[i]@) == self@.snapshot()[i]
                },
    {
        let mut accounts: Vec<Account> = Vec::new();
        let mut index: usize = 0;
        while index < self.clients.len()
            invariant
                self.wf(),
                index <= self.clients@.len(),
                accounts@.len() == index,
                forall|i: int|
                    0 <= i < index ==> {
                        &&& (#[trigger] accounts@[i]).wf()
                        &&& (accounts@[i].client_id, accounts@[i]@) == self@.snapshot()[i]
                    },
            decreases self.clients@.len() - index,
        {
            let client = self.clients[index];
            let entry = self.accounts.get(&client);
            assert(entry is Some) by {
                assert(self.clients@.contains(client));
                assert(self@.books.contains_key(client));
            }
            if let Some(entry) = entry {
                accounts.push(entry.account);
            }
            index = index + 1;
        }
        accounts
    }

    /// Processes the records one after the other on a ledger of its own, and
    /// returns the resulting accounts with the failures in the order in
    /// which they arose. No failure stops the run.
    pub fn process_transactions(records: Vec<Result<Transaction, RecordError>>) -> (outcome: (
        Vec<Account>,
        Vec<TransactionProcessorError>,
    ))
        ensures
            outcome.1@ == Ledger::empty().run(records@).1,
            outcome.0@.len() == Ledger::empty().run(records@).0.snapshot().len(),
            forall|i: int|
                0 <= i < outcome.0@.len() ==> {
                    &&& (#[trigger] outcome.0@[i]).wf()
                    &&& (outcome.0@[i].client_id, outcome.0@[i]@) == Ledger::empty().run(
                        records@,
                    ).0.snapshot()[i]
                },
    {
        let mut processor = TransactionProcessor::new();
        let mut failures: Vec<TransactionProcessorError> = Vec::new();
        let ghost all = records@;
        assert(all.take(0) =~= Seq::empty());
        for record in it: records
            invariant
                processor.wf(),
                it.seq() == all,
                (processor@, failures@) == Ledger::empty().run(all.take(it.index() as int)),
        {
            let ghost done = it.index() as int;
            assert(all.take(done + 1).drop_last() =~= all.take(done));
            assert(all.take(done + 1).last() == record);
            match processor.process(record) {
                Ok(()) => {},
                Err(failure) => {
                    failures.push(failure);
                },
            }
        }
        assert(all.take(all.len() as int) =~= all);
        (processor.get_accounts(), failures)
    }
}

impl Default for TransactionProcessor {
    /// A processor that has seen no record.
    fn default() -> (processor: TransactionProcessor)
        ensures
            processor.wf(),
            processor@ == Ledger::empty(),
    {
        TransactionProcessor::new()
    }
}

} // verus!
