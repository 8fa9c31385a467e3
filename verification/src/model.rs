//! The ledger as mathematics: what applying a transaction means, stated over
//! maps, sets and sequences, and what holds of every ledger that the rules
//! can reach.
//!
//! The processor is proved to do to its tables exactly what `Ledger::apply`
//! says; the laws at the end of this module are proved about `apply`.

use crate::account::{AccountError, Balances};
use crate::config::{ClientId, TransactionId, MAX_UNITS};
use crate::transaction::{RecordError, Transaction, TransactionError, TransactionState};
use vstd::prelude::*;

verus! {

/// One client's side of the ledger: the balances of the account, and the
/// deposits and withdrawals that can still be disputed, by id.
pub struct Book {
    pub balances: Balances,
    pub history: Map<TransactionId, Transaction>,
}

impl Book {
    /// The book of a client nothing has happened to.
    pub open spec fn empty() -> Book {
        Book {
            balances: Balances { available: 0, held: 0, locked: false },
            history: Map::empty(),
        }
    }

    /// A deposit or withdrawal `tx` whose effect on the balances is
    /// `change`. An id that has been used is refused before the account is
    /// asked; a refusal of the account is passed on; otherwise the balances
    /// change and the transaction enters the history in good standing,
    /// whatever state the record came with.
    pub open spec fn moved(
        self,
        used: Set<TransactionId>,
        tx: Transaction,
        change: Result<Balances, AccountError>,
    ) -> Result<Book, TransactionError> {
        if used.contains(tx.id_of()) {
            Err(TransactionError::DuplicateGlobalTransactionId(tx))
        } else {
            match change {
                Ok(balances) => Ok(
                    Book {
                        balances,
                        history: self.history.insert(
                            tx.id_of(),
                            tx.with_state(TransactionState::Okay),
                        ),
                    },
                ),
                Err(refusal) => Err(TransactionError::of_refusal(refusal, tx)),
            }
        }
    }

    /// The deposit or withdrawal that the command `tx` names by `id`, with
    /// its amount: `TransactionNotFound` where the history has no such id,
    /// and `InvalidTransactionId` where what it has under the id carries no
    /// amount.
    pub open spec fn target(self, tx: Transaction, id: TransactionId) -> Result<
        (Transaction, nat),
        TransactionError,
    > {
        if !self.history.contains_key(id) {
            Err(TransactionError::TransactionNotFound(tx))
        } else {
            match self.history[id].amount_of() {
                Some(amount) => Ok((self.history[id], amount@)),
                None => Err(TransactionError::InvalidTransactionId(self.history[id])),
            }
        }
    }

    /// A dispute `tx` of the transaction `id`: its amount goes from
    /// available to held, and it becomes `Disputed`. The account is asked
    /// first, the state second; a failure of either changes nothing.
    pub open spec fn disputed(self, tx: Transaction, id: TransactionId) -> Result<
        Book,
        TransactionError,
    > {
        match self.target(tx, id) {
            Err(error) => Err(error),
            Ok((target, amount)) => match self.balances.hold(amount) {
                Err(refusal) => Err(TransactionError::of_refusal(refusal, target)),
                Ok(balances) => match target.change_outcome(TransactionState::Disputed) {
                    Err(error) => Err(error),
                    Ok(changed) => Ok(Book { balances, history: self.history.insert(id, changed) }),
                },
            },
        }
    }

    /// A resolve `tx` of the transaction `id`, which has to be `Disputed`:
    /// its amount goes from held back to available, and it becomes `Okay`.
    /// The state is asked first, the account second; a failure of either
    /// changes nothing.
    pub open spec fn resolved(self, tx: Transaction, id: TransactionId) -> Result<
        Book,
        TransactionError,
    > {
        match self.target(tx, id) {
            Err(error) => Err(error),
            Ok((target, amount)) => match target.change_outcome(TransactionState::Okay) {
                Err(error) => Err(error),
                Ok(changed) => match self.balances.release(amount) {
                    Err(refusal) => Err(TransactionError::of_refusal(refusal, target)),
                    Ok(balances) => Ok(Book { balances, history: self.history.insert(id, changed) }),
                },
            },
        }
    }

    /// A chargeback `tx` of the transaction `id`, which has to be
    /// `Disputed`: its amount leaves held, the account is frozen, and the
    /// transaction leaves the history for good. The state is asked first,
    /// the account second; a failure of either changes nothing.
    pub open spec fn charged_back(self, tx: Transaction, id: TransactionId) -> Result<
        Book,
        TransactionError,
    > {
        match self.target(tx, id) {
            Err(error) => Err(error),
            Ok((target, amount)) => match target.change_outcome(TransactionState::ChargedBack) {
                Err(error) => Err(error),
                Ok(_) => match self.balances.chargeback(amount) {
                    Err(refusal) => Err(TransactionError::of_refusal(refusal, target)),
                    Ok(balances) => Ok(Book { balances, history: self.history.remove(id) }),
                },
            },
        }
    }

    /// What applying `tx` makes of this book, given the ids in use, or why
    /// it is refused.
    pub open spec fn outcome(self, used: Set<TransactionId>, tx: Transaction) -> Result<
        Book,
        TransactionError,
    > {
        match tx {
            Transaction::Deposit { amount, .. } => self.moved(
                used,
                tx,
                self.balances.deposit(amount@),
            ),
            Transaction::Withdrawal { amount, .. } => self.moved(
                used,
                tx,
                self.balances.withdraw(amount@),
            ),
            Transaction::Dispute { id, .. } => self.disputed(tx, id),
            Transaction::Resolve { id, .. } => self.resolved(tx, id),
            Transaction::Chargeback { id, .. } => self.charged_back(tx, id),
        }
    }

    /// What is held on account of the transaction `id`: its amount while it
    /// is in the history and disputed, and nothing otherwise.
    pub open spec fn held_for(self, id: TransactionId) -> nat {
        if self.history.contains_key(id) && self.history[id].state_of() == Some(
            TransactionState::Disputed,
        ) {
            self.history[id].amount_of()->Some_0@
        } else {
            0
        }
    }

    /// What is held on account of the transactions with an id below
    /// `bound`.
    pub open spec fn held_below(self, bound: int) -> nat
        decreases bound - i32::MIN,
    {
        if bound <= i32::MIN {
            0
        } else {
            self.held_below(bound - 1) + self.held_for((bound - 1) as TransactionId)
        }
    }

    /// What is held on account of all disputed transactions of the history
    /// together.
    pub open spec fn held_in_dispute(self) -> nat {
        self.held_below(i32::MAX + 1)
    }

    /// What a book under `client` has to satisfy: its total is an amount;
    /// what is held is what its disputed transactions amount to, no more
    /// and no less; and its history holds deposits and withdrawals of that
    /// client under their own ids, all of them in use.
    pub open spec fn wf(self, client: ClientId, used: Set<TransactionId>) -> bool {
        &&& self.balances.total() <= MAX_UNITS
        &&& self.balances.held == self.held_in_dispute()
        &&& forall|id: TransactionId| #[trigger]
            self.history.contains_key(id) ==> {
                &&& self.history[id].moves_funds()
                &&& self.history[id].id_of() == id
                &&& self.history[id].client_of() == client
                &&& used.contains(id)
            }
    }
}

/// The whole ledger: every client's book, the ids that deposits and
/// withdrawals have used, and the clients in the order in which they were
/// first seen.
pub struct Ledger {
    pub books: Map<ClientId, Book>,
    pub used_ids: Set<TransactionId>,
    pub clients: Seq<ClientId>,
}

/// A failure of one record, tagged by where it arose.
#[derive(Debug, PartialEq, Eq)]
pub enum TransactionProcessorError {
    /// The ledger refused the transaction.
    TransactionProcessingError(TransactionError),
    /// The record never became a transaction.
    TransactionParsingError(RecordError),
}

impl TransactionProcessorError {
    /// Whether the failure is an internal error, the one class that the
    /// caller is to treat as fatal. Every other failure concerns its record
    /// alone: the record is dropped, and the run goes on.
    pub open spec fn fatal(self) -> bool {
        match self {
            TransactionProcessorError::TransactionProcessingError(error) => error is InternalError,
            TransactionProcessorError::TransactionParsingError(_) => false,
        }
    }

    /// Whether the caller should stop on this failure instead of going on
    /// with the next record.
    pub fn is_fatal(&self) -> (fatal: bool)
        ensures
            fatal == self.fatal(),
    {
        match self {
            TransactionProcessorError::TransactionProcessingError(error) => match error {
                TransactionError::InternalError(_, _) => true,
                TransactionError::InvalidTransactionId(_) => false,
                TransactionError::IllegalStateChange(_) => false,
                TransactionError::TransactionNotFound(_) => false,
                TransactionError::DuplicateGlobalTransactionId(_) => false,
                TransactionError::InsufficientFunds(_) => false,
                TransactionError::AccountFrozen(_) => false,
            },
            TransactionProcessorError::TransactionParsingError(_) => false,
        }
    }
}

impl Ledger {
    /// The ledger before any record.
    pub open spec fn empty() -> Ledger {
        Ledger { books: Map::empty(), used_ids: Set::empty(), clients: Seq::empty() }
    }

    /// The ledger with an account for `client`: a new, empty one at the end
    /// where the client has not been seen, the ledger as it is where it has.
    pub open spec fn opened(self, client: ClientId) -> Ledger {
        if self.books.contains_key(client) {
            self
        } else {
            Ledger {
                books: self.books.insert(client, Book::empty()),
                used_ids: self.used_ids,
                clients: self.clients.push(client),
            }
        }
    }

    /// Applies one transaction: the ledger afterwards, and whether the
    /// transaction took effect.
    ///
    /// The client's account is opened first. Then the client's book decides
    /// by `Book::outcome`. A transaction that is refused leaves the opened
    /// ledger as it is; one that takes effect replaces the book, and a
    /// deposit or withdrawal also takes its id into use.
    pub open spec fn apply(self, tx: Transaction) -> (Ledger, Result<(), TransactionError>) {
        let client = tx.client_of();
        let opened = self.opened(client);
        match opened.books[client].outcome(self.used_ids, tx) {
            Ok(book) => (
                Ledger {
                    books: opened.books.insert(client, book),
                    used_ids: if tx.moves_funds() {
                        self.used_ids.insert(tx.id_of())
                    } else {
                        self.used_ids
                    },
                    clients: opened.clients,
                },
                Ok(()),
            ),
            Err(error) => (opened, Err(error)),
        }
    }

    /// Takes one record: a transaction is applied, and a record that never
    /// became one changes nothing and is reported as such.
    pub open spec fn process(self, record: Result<Transaction, RecordError>) -> (
        Ledger,
        Result<(), TransactionProcessorError>,
    ) {
        match record {
            Ok(tx) => {
                let (after, result) = self.apply(tx);
                (
                    after,
                    match result {
                        Ok(()) => Ok(()),
                        Err(error) => Err(
                            TransactionProcessorError::TransactionProcessingError(error),
                        ),
                    },
                )
            },
            Err(error) => (self, Err(TransactionProcessorError::TransactionParsingError(error))),
        }
    }

    /// Takes the records one after the other: the ledger at the end, and
    /// the failures in the order in which they arose.
    pub open spec fn run(self, records: Seq<Result<Transaction, RecordError>>) -> (
        Ledger,
        Seq<TransactionProcessorError>,
    )
        decreases records.len(),
    {
        if records.len() == 0 {
            (self, Seq::empty())
        } else {
            let (before, failures) = self.run(records.drop_last());
            let (after, result) = before.process(records.last());
            (
                after,
                match result {
                    Ok(()) => failures,
                    Err(failure) => failures.push(failure),
                },
            )
        }
    }

    /// The balances of every account, each with its client, in the order in
    /// which the clients were first seen.
    pub open spec fn snapshot(self) -> Seq<(ClientId, Balances)> {
        Seq::new(
            self.clients.len(),
            |i: int| (self.clients[i], self.books[self.clients[i]].balances),
        )
    }

    /// Whether `client` has the transaction `id` in its history.
    pub open spec fn files(self, client: ClientId, id: TransactionId) -> bool {
        self.books.contains_key(client) && self.books[client].history.contains_key(id)
    }

    /// What every reachable ledger satisfies: the clients in `clients` are
    /// those with a book, each once; every book is well formed; and no id is
    /// in the history of two clients.
    pub open spec fn wf(self) -> bool {
        &&& self.clients.no_duplicates()
        &&& forall|client: ClientId| #[trigger]
            self.books.contains_key(client) <==> self.clients.contains(client)
        &&& forall|client: ClientId| #[trigger]
            self.books.contains_key(client) ==> self.books[client].wf(client, self.used_ids)
        &&& forall|one: ClientId, other: ClientId, id: TransactionId|
            #![trigger self.files(one, id), self.files(other, id)]
            self.files(one, id) && self.files(other, id) ==> one == other
    }
}

impl Book {
    /// Where nothing is held on account of any transaction, nothing is held
    /// below any bound.
    pub proof fn lemma_nothing_held(self, bound: int)
        requires
            forall|id: TransactionId| #[trigger] self.held_for(id) == 0,
        ensures
            self.held_below(bound) == 0,
        decreases bound - i32::MIN,
    {
        if bound > i32::MIN {
            self.lemma_nothing_held(bound - 1);
        }
    }

    /// Two books that hold the same on account of every transaction but
    /// `id` differ below a bound by what they hold on account of `id`, and
    /// only where `id` is below the bound.
    pub proof fn lemma_held_differs_at(self, other: Book, id: TransactionId, bound: int)
        requires
            forall|k: TransactionId| k != id ==> #[trigger] self.held_for(k) == other.held_for(k),
            i32::MIN <= bound <= i32::MAX + 1,
        ensures
            id < bound ==> self.held_below(bound) + other.held_for(id) == other.held_below(bound)
                + self.held_for(id),
            id >= bound ==> self.held_below(bound) == other.held_below(bound),
        decreases bound - i32::MIN,
    {
        if bound > i32::MIN {
            self.lemma_held_differs_at(other, id, bound - 1);
            let last = (bound - 1) as TransactionId;
            if last != id {
                assert(self.held_for(last) == other.held_for(last));
            }
        }
    }

    /// What is held on account of one transaction is part of what is held
    /// on account of all.
    pub proof fn lemma_held_covers(self, id: TransactionId)
        ensures
            self.held_for(id) <= self.held_in_dispute(),
    {
        self.lemma_held_covers_below(id, i32::MAX + 1);
    }

    /// What is held on account of a transaction below the bound is part of
    /// what is held below the bound.
    pub proof fn lemma_held_covers_below(self, id: TransactionId, bound: int)
        requires
            id < bound <= i32::MAX + 1,
        ensures
            self.held_for(id) <= self.held_below(bound),
        decreases bound - i32::MIN,
    {
        if id < bound - 1 {
            self.lemma_held_covers_below(id, bound - 1);
        }
    }

    /// A book that is well formed stays so when more ids come into use.
    pub proof fn lemma_wf_more_used(
        self,
        client: ClientId,
        used: Set<TransactionId>,
        more: Set<TransactionId>,
    )
        requires
            self.wf(client, used),
            used.subset_of(more),
        ensures
            self.wf(client, more),
    {
        assert forall|id: TransactionId| #[trigger] self.history.contains_key(id) implies more.contains(
            id,
        ) by {
            assert(used.contains(id));
        }
    }

    /// What a transaction of `client` makes of a well-formed book is well
    /// formed again, with the transaction's id in use where it moves funds.
    pub proof fn lemma_outcome_wf(self, client: ClientId, used: Set<TransactionId>, tx: Transaction)
        requires
            self.wf(client, used),
            tx.client_of() == client,
        ensures
            self.outcome(used, tx) matches Ok(book) ==> book.wf(
                client,
                if tx.moves_funds() {
                    used.insert(tx.id_of())
                } else {
                    used
                },
            ),
    {
        if let Ok(book) = self.outcome(used, tx) {
            let more = if tx.moves_funds() {
                used.insert(tx.id_of())
            } else {
                used
            };
            assert forall|id: TransactionId| #[trigger] book.history.contains_key(id) implies {
                &&& book.history[id].moves_funds()
                &&& book.history[id].id_of() == id
                &&& book.history[id].client_of() == client
                &&& more.contains(id)
            } by {
                if self.history.contains_key(id) {
                    assert(used.contains(id));
                }
            }
            // The two histories differ at the id of the transaction only, so
            // what is held changes by what is held on its account.
            let id = tx.id_of();
            assert forall|k: TransactionId| k != id implies #[trigger] self.held_for(k)
                == book.held_for(k) by {}
            self.lemma_held_differs_at(book, id, i32::MAX + 1);
            if tx.moves_funds() {
                assert(!self.history.contains_key(id)) by {
                    if self.history.contains_key(id) {
                        assert(used.contains(id));
                    }
                }
            }
        }
    }

    /// The book of a client nothing has happened to is well formed.
    pub proof fn lemma_empty_wf(client: ClientId, used: Set<TransactionId>)
        ensures
            Book::empty().wf(client, used),
    {
        Book::empty().lemma_nothing_held(i32::MAX + 1);
    }
}

impl Ledger {
    /// Opening an account keeps a ledger well formed.
    pub proof fn lemma_opened_wf(self, client: ClientId)
        requires
            self.wf(),
        ensures
            self.opened(client).wf(),
            self.opened(client).books.contains_key(client),
    {
        let opened = self.opened(client);
        if !self.books.contains_key(client) {
            assert(!self.clients.contains(client));
            assert(opened.clients.no_duplicates()) by {
                assert forall|i: int, j: int|
                    0 <= i < opened.clients.len() && 0 <= j < opened.clients.len() && i
                        != j implies opened.clients[i] != opened.clients[j] by {
                    if i < self.clients.len() {
                        assert(self.clients.contains(opened.clients[i]));
                    }
                    if j < self.clients.len() {
                        assert(self.clients.contains(opened.clients[j]));
                    }
                }
            }
            assert forall|other: ClientId| #[trigger]
                opened.books.contains_key(other) <==> opened.clients.contains(other) by {
                if other == client {
                    assert(opened.clients[self.clients.len() as int] == client);
                } else {
                    if self.clients.contains(other) {
                        let i = choose|i: int| 0 <= i < self.clients.len() && self.clients[i] == other;
                        assert(opened.clients[i] == other);
                    }
                    if opened.clients.contains(other) {
                        let i = choose|i: int|
                            0 <= i < opened.clients.len() && opened.clients[i] == other;
                        assert(self.clients[i] == other);
                    }
                }
            }
            assert forall|other: ClientId| #[trigger]
                opened.books.contains_key(other) implies opened.books[other].wf(
                other,
                opened.used_ids,
            ) by {
                if other != client {
                    assert(self.books.contains_key(other));
                } else {
                    Book::lemma_empty_wf(client, opened.used_ids);
                }
            }
            assert forall|one: ClientId, other: ClientId, id: TransactionId|
                #![trigger opened.files(one, id), opened.files(other, id)]
                opened.files(one, id) && opened.files(other, id) implies one == other by {
                assert(self.files(one, id) && self.files(other, id));
            }
        }
    }

    /// Applying a transaction to a well-formed ledger gives a well-formed
    /// ledger.
    pub proof fn lemma_apply_wf(self, tx: Transaction)
        requires
            self.wf(),
        ensures
            self.apply(tx).0.wf(),
    {
        let client = tx.client_of();
        let opened = self.opened(client);
        let after = self.apply(tx).0;
        self.lemma_opened_wf(client);
        assert(opened.books[client].wf(client, self.used_ids));
        opened.books[client].lemma_outcome_wf(client, self.used_ids, tx);
        if let Ok(book) = opened.books[client].outcome(self.used_ids, tx) {
            assert forall|other: ClientId| #[trigger]
                after.books.contains_key(other) <==> after.clients.contains(other) by {
                if other != client {
                    assert(after.books.contains_key(other) == opened.books.contains_key(other));
                }
            }
            assert forall|other: ClientId| #[trigger]
                after.books.contains_key(other) implies after.books[other].wf(
                other,
                after.used_ids,
            ) by {
                if other != client {
                    assert(opened.books.contains_key(other));
                    opened.books[other].lemma_wf_more_used(other, self.used_ids, after.used_ids);
                }
            }
            assert forall|one: ClientId, other: ClientId, id: TransactionId|
                #![trigger after.files(one, id), after.files(other, id)]
                after.files(one, id) && after.files(other, id) implies one == other by {
                if one != other {
                    // A history gains an id only with a deposit or withdrawal
                    // whose id was not in use, so no other history has it.
                    if one != client {
                        assert(opened.files(one, id));
                        assert(opened.books[one].wf(one, self.used_ids));
                    }
                    if other != client {
                        assert(opened.files(other, id));
                        assert(opened.books[other].wf(other, self.used_ids));
                    }
                    if one == client && !opened.files(one, id) {
                        assert(!self.used_ids.contains(id));
                    }
                    if other == client && !opened.files(other, id) {
                        assert(!self.used_ids.contains(id));
                    }
                    assert(opened.files(one, id) && opened.files(other, id));
                }
            }
        }
    }

    /// A deposit or withdrawal whose id is in use is rejected as a
    /// duplicate, whoever the client is, and changes no book: the ledger
    /// afterwards is the ledger before, with the client's account opened
    /// where it was not, and the same where the client is known.
    pub proof fn lemma_duplicate_rejected(self, tx: Transaction)
        requires
            tx.moves_funds(),
            self.used_ids.contains(tx.id_of()),
        ensures
            self.apply(tx).1 == Err::<(), TransactionError>(
                TransactionError::DuplicateGlobalTransactionId(tx),
            ),
            self.apply(tx).0 == self.opened(tx.client_of()),
            self.books.contains_key(tx.client_of()) ==> self.apply(tx).0 == self,
            forall|client: ClientId| #[trigger]
                self.books.contains_key(client) ==> self.apply(tx).0.books[client]
                    == self.books[client],
    {
    }

    /// Once a deposit or withdrawal has taken effect, every later deposit or
    /// withdrawal with its id is rejected as a duplicate and leaves the
    /// ledger as it is.
    pub proof fn lemma_id_used_once(self, first: Transaction, second: Transaction)
        requires
            first.moves_funds(),
            second.moves_funds(),
            first.id_of() == second.id_of(),
            self.apply(first).1 is Ok,
        ensures
            self.apply(first).0.apply(second).1 == Err::<(), TransactionError>(
                TransactionError::DuplicateGlobalTransactionId(second),
            ),
            self.apply(first).0.apply(second).0 == self.apply(first).0.opened(second.client_of()),
    {
        self.apply(first).0.lemma_duplicate_rejected(second);
    }

    /// A transaction that is refused changes no book that the ledger had:
    /// the ledger afterwards is the ledger before, with the client's account
    /// opened where it was not.
    pub proof fn lemma_refused_changes_nothing(self, tx: Transaction)
        requires
            self.apply(tx).1 is Err,
        ensures
            self.apply(tx).0 == self.opened(tx.client_of()),
            self.books.contains_key(tx.client_of()) ==> self.apply(tx).0 == self,
            forall|client: ClientId| #[trigger]
                self.books.contains_key(client) ==> self.apply(tx).0.books[client]
                    == self.books[client],
    {
    }

    /// A dispute that takes effect moves exactly the amount of the disputed
    /// transaction from available to held, leaves the total and the lock as
    /// they are, marks the transaction `Disputed`, and touches no other
    /// client.
    pub proof fn lemma_dispute_effect(self, id: TransactionId, client: ClientId)
        requires
            self.apply(Transaction::Dispute { id, client }).1 is Ok,
        ensures
            self.files(client, id),
            self.books[client].history[id].amount_of() is Some,
            ({
                let amount = self.books[client].history[id].amount_of()->Some_0@;
                let before = self.books[client];
                let after = self.apply(Transaction::Dispute { id, client }).0;
                &&& before.balances.available >= amount
                &&& after.books[client].balances.available == before.balances.available - amount
                &&& after.books[client].balances.held == before.balances.held + amount
                &&& after.books[client].balances.total() == before.balances.total()
                &&& after.books[client].balances.locked == before.balances.locked
                &&& before.history[id].state_of() == Some(TransactionState::Okay)
                &&& after.books[client].history == before.history.insert(
                    id,
                    before.history[id].with_state(TransactionState::Disputed),
                )
                &&& after.books == self.books.insert(client, after.books[client])
                &&& after.used_ids == self.used_ids
                &&& after.clients == self.clients
            }),
    {
    }

    /// A resolve that takes effect moves exactly the amount of the disputed
    /// transaction from held back to available, leaves the total and the
    /// lock as they are, marks the transaction `Okay`, and touches no other
    /// client.
    pub proof fn lemma_resolve_effect(self, id: TransactionId, client: ClientId)
        requires
            self.apply(Transaction::Resolve { id, client }).1 is Ok,
        ensures
            self.files(client, id),
            self.books[client].history[id].amount_of() is Some,
            ({
                let amount = self.books[client].history[id].amount_of()->Some_0@;
                let before = self.books[client];
                let after = self.apply(Transaction::Resolve { id, client }).0;
                &&& before.balances.held >= amount
                &&& after.books[client].balances.available == before.balances.available + amount
                &&& after.books[client].balances.held == before.balances.held - amount
                &&& after.books[client].balances.total() == before.balances.total()
                &&& after.books[client].balances.locked == before.balances.locked
                &&& before.history[id].state_of() == Some(TransactionState::Disputed)
                &&& after.books[client].history == before.history.insert(
                    id,
                    before.history[id].with_state(TransactionState::Okay),
                )
                &&& after.books == self.books.insert(client, after.books[client])
                &&& after.used_ids == self.used_ids
                &&& after.clients == self.clients
            }),
    {
    }

    /// A chargeback that takes effect removes exactly the amount of the
    /// disputed transaction from held, so the total is reduced by it;
    /// leaves what is available as it is; locks the account; takes the
    /// transaction out of the history; and touches no other client.
    pub proof fn lemma_chargeback_effect(self, id: TransactionId, client: ClientId)
        requires
            self.apply(Transaction::Chargeback { id, client }).1 is Ok,
        ensures
            self.files(client, id),
            self.books[client].history[id].amount_of() is Some,
            ({
                let amount = self.books[client].history[id].amount_of()->Some_0@;
                let before = self.books[client];
                let after = self.apply(Transaction::Chargeback { id, client }).0;
                &&& before.balances.held >= amount
                &&& after.books[client].balances.available == before.balances.available
                &&& after.books[client].balances.held == before.balances.held - amount
                &&& after.books[client].balances.total() == before.balances.total() - amount
                &&& after.books[client].balances.locked
                &&& before.history[id].state_of() == Some(TransactionState::Disputed)
                &&& after.books[client].history == before.history.remove(id)
                &&& after.books == self.books.insert(client, after.books[client])
                &&& after.used_ids == self.used_ids
                &&& after.clients == self.clients
            }),
    {
    }

    /// Resolving a dispute reverses it exactly: after a dispute that took
    /// effect, the resolve of the same transaction takes effect too, and the
    /// ledger is again what it was before the dispute.
    pub proof fn lemma_resolve_reverses_dispute(self, id: TransactionId, client: ClientId)
        requires
            self.apply(Transaction::Dispute { id, client }).1 is Ok,
        ensures
            self.apply(Transaction::Dispute { id, client }).0.apply(
                Transaction::Resolve { id, client },
            ) == (self, Ok::<(), TransactionError>(())),
    {
        let disputed = self.apply(Transaction::Dispute { id, client }).0;
        let resolved = disputed.apply(Transaction::Resolve { id, client });
        self.lemma_dispute_effect(id, client);
        assert(resolved.1 is Ok);
        disputed.lemma_resolve_effect(id, client);
        assert(resolved.0.books[client].history =~= self.books[client].history);
        assert(resolved.0.books =~= self.books);
    }

    /// After a dispute that took effect, the chargeback of the same
    /// transaction takes effect too: against the ledger before the dispute,
    /// what was available and the total are both reduced by exactly the
    /// amount, what is held is as it was, the account is locked, and the
    /// transaction has left the history.
    pub proof fn lemma_chargeback_after_dispute(self, id: TransactionId, client: ClientId)
        requires
            self.apply(Transaction::Dispute { id, client }).1 is Ok,
        ensures
            self.apply(Transaction::Dispute { id, client }).0.apply(
                Transaction::Chargeback { id, client },
            ).1 is Ok,
            ({
                let amount = self.books[client].history[id].amount_of()->Some_0@;
                let before = self.books[client];
                let after = self.apply(Transaction::Dispute { id, client }).0.apply(
                    Transaction::Chargeback { id, client },
                ).0.books[client];
                &&& after.balances.available == before.balances.available - amount
                &&& after.balances.held == before.balances.held
                &&& after.balances.total() == before.balances.total() - amount
                &&& after.balances.locked
                &&& after.history == before.history.remove(id)
            }),
    {
        let disputed = self.apply(Transaction::Dispute { id, client }).0;
        self.lemma_dispute_effect(id, client);
        disputed.lemma_chargeback_effect(id, client);
        assert(disputed.books[client].history.remove(id) =~= self.books[client].history.remove(
            id,
        ));
    }

    /// A deposit or withdrawal that takes effect is in the history of its
    /// client afterwards, in good standing, and its id is in use.
    pub proof fn lemma_recorded_in_good_standing(self, tx: Transaction)
        requires
            tx.moves_funds(),
            self.apply(tx).1 is Ok,
        ensures
            self.apply(tx).0.files(tx.client_of(), tx.id_of()),
            self.apply(tx).0.books[tx.client_of()].history[tx.id_of()] == tx.with_state(
                TransactionState::Okay,
            ),
            self.apply(tx).0.used_ids.contains(tx.id_of()),
    {
    }

    /// On a well-formed ledger, a disputed transaction of an account that
    /// is not locked can be resolved, whatever has happened since its
    /// dispute: what is held covers its amount. The resolve moves exactly
    /// the amount from held back to available, leaves the total and the
    /// lock as they are, and puts the transaction in good standing again.
    pub proof fn lemma_disputed_resolves(self, id: TransactionId, client: ClientId)
        requires
            self.wf(),
            self.files(client, id),
            self.books[client].history[id].state_of() == Some(TransactionState::Disputed),
            !self.books[client].balances.locked,
        ensures
            self.apply(Transaction::Resolve { id, client }).1 is Ok,
            ({
                let amount = self.books[client].history[id].amount_of()->Some_0@;
                let before = self.books[client];
                let after = self.apply(Transaction::Resolve { id, client }).0.books[client];
                &&& before.balances.held >= amount
                &&& after.balances.available == before.balances.available + amount
                &&& after.balances.held == before.balances.held - amount
                &&& after.balances.total() == before.balances.total()
                &&& !after.balances.locked
                &&& after.history.contains_key(id)
                &&& after.history[id] == before.history[id].with_state(TransactionState::Okay)
            }),
    {
        assert(self.books[client].wf(client, self.used_ids));
        self.books[client].lemma_held_covers(id);
        self.lemma_resolve_effect(id, client);
    }

    /// On a well-formed ledger, a disputed transaction of an account that
    /// is not locked can be charged back, whatever has happened since its
    /// dispute: what is held covers its amount. The chargeback removes
    /// exactly the amount from held, so the total is reduced by it, leaves
    /// what is available as it is, locks the account, and takes the
    /// transaction out of the history.
    pub proof fn lemma_disputed_charges_back(self, id: TransactionId, client: ClientId)
        requires
            self.wf(),
            self.files(client, id),
            self.books[client].history[id].state_of() == Some(TransactionState::Disputed),
            !self.books[client].balances.locked,
        ensures
            self.apply(Transaction::Chargeback { id, client }).1 is Ok,
            ({
                let amount = self.books[client].history[id].amount_of()->Some_0@;
                let before = self.books[client];
                let after = self.apply(Transaction::Chargeback { id, client }).0.books[client];
                &&& before.balances.held >= amount
                &&& after.balances.available == before.balances.available
                &&& after.balances.held == before.balances.held - amount
                &&& after.balances.total() == before.balances.total() - amount
                &&& after.balances.locked
                &&& !after.history.contains_key(id)
            }),
    {
        assert(self.books[client].wf(client, self.used_ids));
        self.books[client].lemma_held_covers(id);
        self.lemma_chargeback_effect(id, client);
    }

    /// A transaction that has been resolved can be disputed again: the
    /// resolve has made its amount available, and has left the account
    /// unlocked and the transaction in good standing.
    pub proof fn lemma_resolved_disputes_again(self, id: TransactionId, client: ClientId)
        requires
            self.apply(Transaction::Resolve { id, client }).1 is Ok,
        ensures
            self.apply(Transaction::Resolve { id, client }).0.apply(
                Transaction::Dispute { id, client },
            ).1 is Ok,
    {
        self.lemma_resolve_effect(id, client);
    }

    /// A transaction that has been charged back can never be referenced
    /// again: every later dispute, resolve or chargeback of it fails with
    /// `TransactionNotFound` and leaves the ledger as it is.
    pub proof fn lemma_charged_back_is_gone(
        self,
        id: TransactionId,
        client: ClientId,
        later: Transaction,
    )
        requires
            self.apply(Transaction::Chargeback { id, client }).1 is Ok,
            !later.moves_funds(),
            later.id_of() == id,
            later.client_of() == client,
        ensures
            self.apply(Transaction::Chargeback { id, client }).0.apply(later) == (
                self.apply(Transaction::Chargeback { id, client }).0,
                Err::<(), TransactionError>(TransactionError::TransactionNotFound(later)),
            ),
    {
        self.lemma_chargeback_effect(id, client);
        self.apply(Transaction::Chargeback { id, client }).0.lemma_unknown_reference_not_found(
            later,
        );
    }

    /// On a well-formed ledger, what an account holds is exactly what its
    /// disputed transactions amount to, so it covers each of them.
    pub proof fn lemma_held_covers_disputed(self, id: TransactionId, client: ClientId)
        requires
            self.wf(),
            self.files(client, id),
            self.books[client].history[id].state_of() == Some(TransactionState::Disputed),
        ensures
            self.books[client].balances.held == self.books[client].held_in_dispute(),
            self.books[client].history[id].amount_of()->Some_0@
                <= self.books[client].balances.held,
    {
        assert(self.books[client].wf(client, self.used_ids));
        self.books[client].lemma_held_covers(id);
    }

    /// Once an account is locked, every transaction of its client is
    /// refused and leaves the whole ledger as it is; so the account stays
    /// locked.
    pub proof fn lemma_locked_refuses(self, tx: Transaction)
        requires
            self.books.contains_key(tx.client_of()),
            self.books[tx.client_of()].balances.locked,
        ensures
            self.apply(tx).1 is Err,
            self.apply(tx).0 == self,
    {
    }

    /// A dispute, resolve or chargeback of an id that is not in the history
    /// of its own client fails with `TransactionNotFound` and changes no
    /// book: the ledger afterwards is the ledger before, with the client's
    /// account opened where it was not, and the same where the client is
    /// known.
    pub proof fn lemma_unknown_reference_not_found(self, tx: Transaction)
        requires
            !tx.moves_funds(),
            !self.files(tx.client_of(), tx.id_of()),
        ensures
            self.apply(tx).1 == Err::<(), TransactionError>(
                TransactionError::TransactionNotFound(tx),
            ),
            self.apply(tx).0 == self.opened(tx.client_of()),
            self.books.contains_key(tx.client_of()) ==> self.apply(tx).0 == self,
            forall|client: ClientId| #[trigger]
                self.books.contains_key(client) ==> self.apply(tx).0.books[client]
                    == self.books[client],
    {
    }

    /// A dispute, resolve or chargeback that names a transaction of another
    /// client fails with `TransactionNotFound` and changes no book.
    pub proof fn lemma_cross_account_reference_not_found(self, tx: Transaction, owner: ClientId)
        requires
            self.wf(),
            !tx.moves_funds(),
            owner != tx.client_of(),
            self.files(owner, tx.id_of()),
        ensures
            self.apply(tx).1 == Err::<(), TransactionError>(
                TransactionError::TransactionNotFound(tx),
            ),
            self.apply(tx).0 == self.opened(tx.client_of()),
            self.books.contains_key(tx.client_of()) ==> self.apply(tx).0 == self,
            forall|client: ClientId| #[trigger]
                self.books.contains_key(client) ==> self.apply(tx).0.books[client]
                    == self.books[client],
    {
        assert(!self.files(tx.client_of(), tx.id_of())) by {
            if self.files(tx.client_of(), tx.id_of()) {
                assert(self.files(owner, tx.id_of()));
            }
        }
        self.lemma_unknown_reference_not_found(tx);
    }

    /// On a well-formed ledger no transaction ends in
    /// `InvalidTransactionId`: a history holds deposits and withdrawals
    /// only, and each of them has an amount.
    pub proof fn lemma_references_always_valid(self, tx: Transaction)
        requires
            self.wf(),
        ensures
            !(self.apply(tx).1 matches Err(TransactionError::InvalidTransactionId(_))),
    {
        let client = tx.client_of();
        self.lemma_opened_wf(client);
        let book = self.opened(client).books[client];
        assert(book.wf(client, self.used_ids));
        if !tx.moves_funds() && book.history.contains_key(tx.id_of()) {
            assert(book.history[tx.id_of()].moves_funds());
        }
    }

    /// The ledger before any record is well formed.
    pub proof fn lemma_empty_wf()
        ensures
            Ledger::empty().wf(),
    {
    }

    /// Taking a record keeps a ledger well formed.
    pub proof fn lemma_process_wf(self, record: Result<Transaction, RecordError>)
        requires
            self.wf(),
        ensures
            self.process(record).0.wf(),
    {
        if let Ok(tx) = record {
            self.lemma_apply_wf(tx);
        }
    }

    /// Whatever records a well-formed ledger takes, and however each of
    /// them ends, the ledger stays well formed: at every point of a run no
    /// balance is below zero, and every account's total, which is what is
    /// available and what is held together, fits an amount.
    pub proof fn lemma_run_wf(self, records: Seq<Result<Transaction, RecordError>>)
        requires
            self.wf(),
        ensures
            self.run(records).0.wf(),
            forall|client: ClientId| #[trigger]
                self.run(records).0.books.contains_key(client) ==> self.run(
                    records,
                ).0.books[client].balances.total() <= MAX_UNITS,
        decreases records.len(),
    {
        if records.len() > 0 {
            self.lemma_run_wf(records.drop_last());
            self.run(records.drop_last()).0.lemma_process_wf(records.last());
        }
        let end = self.run(records).0;
        assert forall|client: ClientId| #[trigger] end.books.contains_key(client) implies end.books[client].balances.total()
            <= MAX_UNITS by {
            assert(end.books[client].wf(client, end.used_ids));
        }
    }
}

} // verus!
