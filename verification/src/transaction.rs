//! Transaction records, the dispute state machine of the two kinds that
//! move funds, and the errors that processing a record can end in.

use crate::account::AccountError;
use crate::amount::{parse_outcome, Amount, AmountError};
use crate::config::{ClientId, TransactionId};
use vstd::prelude::*;

verus! {

/// Represents the different types of transaction rows.
#[derive(Clone, Copy, Debug, PartialEq, Eq, Structural)]
pub enum TransactionRowType {
    Deposit,
    Withdrawal,
    Dispute,
    Resolve,
    Chargeback,
}

impl TransactionRowType {
    /// Whether a row of this type moves funds and so carries an amount.
    pub open spec fn moves_funds(self) -> bool {
        self is Deposit || self is Withdrawal
    }

    /// The type's name as text.
    pub open spec fn name_of(self) -> Seq<char> {
        match self {
            TransactionRowType::Deposit => "Deposit"@,
            TransactionRowType::Withdrawal => "Withdrawal"@,
            TransactionRowType::Dispute => "Dispute"@,
            TransactionRowType::Resolve => "Resolve"@,
            TransactionRowType::Chargeback => "Chargeback"@,
        }
    }

    /// Checks if the transaction type should have an associated amount.
    pub fn has_amount(&self) -> (has: bool)
        ensures
            has == self.moves_funds(),
    {
        match self {
            TransactionRowType::Deposit | TransactionRowType::Withdrawal => true,
            TransactionRowType::Dispute
            | TransactionRowType::Resolve
            | TransactionRowType::Chargeback => false,
        }
    }

    /// The type's name as text.
    pub fn name(&self) -> (name: &'static str)
        ensures
            name@ == self.name_of(),
    {
        match self {
            TransactionRowType::Deposit => "Deposit",
            TransactionRowType::Withdrawal => "Withdrawal",
            TransactionRowType::Dispute => "Dispute",
            TransactionRowType::Resolve => "Resolve",
            TransactionRowType::Chargeback => "Chargeback",
        }
    }
}

/// Represents a row of the transaction input, read but not yet checked.
#[derive(Clone, Copy, Debug, PartialEq, Eq)]
pub struct TransactionRow {
    pub tx_id: TransactionId,
    pub tx_type: TransactionRowType,
    pub client: ClientId,
    pub amount: Option<Amount>,
}

impl TransactionRow {
    /// The row with the given fields, where the amount is still text: the
    /// row with the amount that the text spells, the row without an amount
    /// where there is no text, and `InvalidAmount` where the text spells no
    /// amount.
    pub open spec fn reads_as(
        tx_id: TransactionId,
        tx_type: TransactionRowType,
        client: ClientId,
        amount: Option<Seq<char>>,
        row: Result<TransactionRow, RecordError>,
    ) -> bool {
        match amount {
            None => row == Ok::<TransactionRow, RecordError>(
                TransactionRow { tx_id, tx_type, client, amount: None },
            ),
            Some(text) => match parse_outcome(text) {
                Ok(units) => {
                    &&& row matches Ok(read)
                    &&& read.tx_id == tx_id
                    &&& read.tx_type == tx_type
                    &&& read.client == client
                    &&& read.amount matches Some(amount)
                    &&& amount@ == units
                },
                Err(cause) => row == Err::<TransactionRow, RecordError>(
                    RecordError::InvalidAmount(cause),
                ),
            },
        }
    }

    /// Makes a row of its fields, reading the amount from its text where
    /// there is one.
    pub fn read(
        tx_id: TransactionId,
        tx_type: TransactionRowType,
        client: ClientId,
        amount: Option<&str>,
    ) -> (row: Result<TransactionRow, RecordError>)
        ensures
            TransactionRow::reads_as(
                tx_id,
                tx_type,
                client,
                match amount {
                    Some(text) => Some(text@),
                    None => None,
                },
                row,
            ),
    {
        match amount {
            None => Ok(TransactionRow { tx_id, tx_type, client, amount: None }),
            Some(text) => match Amount::parse(text) {
                Ok(amount) => Ok(TransactionRow { tx_id, tx_type, client, amount: Some(amount) }),
                Err(cause) => Err(RecordError::InvalidAmount(cause)),
            },
        }
    }
}

/// Why an input row gave no transaction.
#[derive(Debug, PartialEq, Eq)]
pub enum RecordError {
    /// The row could not be read; holds what the reader said.
    Unreadable(String),
    /// The row's amount is no amount; holds why.
    InvalidAmount(AmountError),
    /// A row of a type that moves no funds came with an amount.
    UnexpectedAmount(TransactionRowType),
    /// A row of a type that moves funds came without an amount.
    MissingAmount(TransactionRowType),
}

impl RecordError {
    /// The error as a sentence.
    pub open spec fn message_of(self) -> Seq<char> {
        match self {
            RecordError::Unreadable(said) => said@,
            RecordError::InvalidAmount(cause) => "Invalid amount: "@ + cause.message_of(),
            RecordError::UnexpectedAmount(tx_type) => "Transaction with type "@ + tx_type.name_of()
                + " cannot have an amount"@,
            RecordError::MissingAmount(tx_type) => "Transaction with type "@ + tx_type.name_of()
                + " must have an amount"@,
        }
    }

    /// The error as a sentence.
    pub fn message(&self) -> (message: String)
        ensures
            message@ == self.message_of(),
    {
        match self {
            RecordError::Unreadable(said) => said.clone(),
            RecordError::InvalidAmount(cause) => {
                let why = cause.message();
                String::from_str("Invalid amount: ").concat(why.as_str())
            },
            RecordError::UnexpectedAmount(tx_type) => {
                String::from_str("Transaction with type ").concat(tx_type.name()).concat(
                    " cannot have an amount",
                )
            },
            RecordError::MissingAmount(tx_type) => {
                String::from_str("Transaction with type ").concat(tx_type.name()).concat(
                    " must have an amount",
                )
            },
        }
    }
}

/// Represents the possible states of a transaction.
#[derive(Clone, Copy, Debug, PartialEq, Eq, Structural)]
pub enum TransactionState {
    /// The transaction has been successfully processed.
    Okay,
    /// The transaction has been disputed.
    Disputed,
    /// The transaction has been charged back.
    ChargedBack,
}

impl TransactionState {
    /// The transitions of the dispute lifecycle: a dispute is opened on a
    /// transaction in good standing, and a disputed transaction is either
    /// resolved or charged back. Nothing leaves `ChargedBack`.
    pub open spec fn may_become(self, next: TransactionState) -> bool {
        ||| self is Okay && next is Disputed
        ||| self is Disputed && next is Okay
        ||| self is Disputed && next is ChargedBack
    }

    /// Whether the lifecycle has a transition from this state to `next`.
    pub fn can_become(&self, next: TransactionState) -> (allowed: bool)
        ensures
            allowed == self.may_become(next),
    {
        match (*self, next) {
            (TransactionState::Okay, TransactionState::Disputed)
            | (TransactionState::Disputed, TransactionState::Okay)
            | (TransactionState::Disputed, TransactionState::ChargedBack) => true,
            _ => false,
        }
    }
}

/// Represents a financial transaction with an associated state.
///
/// Deposits and withdrawals move funds and carry the state of their dispute
/// lifecycle. Disputes, resolves and chargebacks are commands: they name a
/// deposit or withdrawal of the same client by its id.
#[derive(Clone, Copy, Debug, PartialEq, Eq, Structural)]
pub enum Transaction {
    Deposit { id: TransactionId, amount: Amount, client_id: ClientId, state: TransactionState },
    Withdrawal { id: TransactionId, amount: Amount, client_id: ClientId, state: TransactionState },
    Dispute { id: TransactionId, client: ClientId },
    Resolve { id: TransactionId, client: ClientId },
    Chargeback { id: TransactionId, client: ClientId },
}

/// Represents errors that can occur during transaction processing.
#[derive(Clone, Copy, Debug, PartialEq, Eq)]
pub enum TransactionError {
    /// The transaction could not be found.
    TransactionNotFound(Transaction),
    /// The transaction has already been processed.
    DuplicateGlobalTransactionId(Transaction),
    /// The transaction id refers to a wrong type of transaction.
    InvalidTransactionId(Transaction),
    /// The account does not have enough funds to complete the transaction.
    InsufficientFunds(Transaction),
    /// The transaction could not be processed due to an invalid state change.
    IllegalStateChange(Transaction),
    /// The referenced account has been frozen.
    AccountFrozen(Transaction),
    /// The transaction could not be processed due to an internal error;
    /// holds the arithmetic fault behind it.
    InternalError(Transaction, AmountError),
}

impl TransactionError {
    /// The transaction that the error is about.
    pub open spec fn subject_of(self) -> Transaction {
        match self {
            TransactionError::TransactionNotFound(tx) => tx,
            TransactionError::DuplicateGlobalTransactionId(tx) => tx,
            TransactionError::InvalidTransactionId(tx) => tx,
            TransactionError::InsufficientFunds(tx) => tx,
            TransactionError::IllegalStateChange(tx) => tx,
            TransactionError::AccountFrozen(tx) => tx,
            TransactionError::InternalError(tx, _) => tx,
        }
    }

    /// What the error says, without the transaction.
    pub open spec fn notice_of(self) -> Seq<char> {
        match self {
            TransactionError::TransactionNotFound(_) =>
                "Ignoring transaction referencing unknown transaction"@,
            TransactionError::DuplicateGlobalTransactionId(_) =>
                "Found duplicate global transaction id"@,
            TransactionError::InvalidTransactionId(_) => "Transaction reference is wrong"@,
            TransactionError::InsufficientFunds(_) => "Insufficient funds for transaction"@,
            TransactionError::IllegalStateChange(_) => "Illegal state change for transaction"@,
            TransactionError::AccountFrozen(_) => "Account frozen for transaction"@,
            TransactionError::InternalError(_, _) => "Internal error processing transaction"@,
        }
    }

    /// The transaction that the error is about.
    pub fn subject(&self) -> (tx: Transaction)
        ensures
            tx == self.subject_of(),
    {
        match self {
            TransactionError::TransactionNotFound(tx) => *tx,
            TransactionError::DuplicateGlobalTransactionId(tx) => *tx,
            TransactionError::InvalidTransactionId(tx) => *tx,
            TransactionError::InsufficientFunds(tx) => *tx,
            TransactionError::IllegalStateChange(tx) => *tx,
            TransactionError::AccountFrozen(tx) => *tx,
            TransactionError::InternalError(tx, _) => *tx,
        }
    }

    /// What the error says, without the transaction.
    pub fn notice(&self) -> (notice: &'static str)
        ensures
            notice@ == self.notice_of(),
    {
        match self {
            TransactionError::TransactionNotFound(_) => {
                "Ignoring transaction referencing unknown transaction"
            },
            TransactionError::DuplicateGlobalTransactionId(_) => {
                "Found duplicate global transaction id"
            },
            TransactionError::InvalidTransactionId(_) => "Transaction reference is wrong",
            TransactionError::InsufficientFunds(_) => "Insufficient funds for transaction",
            TransactionError::IllegalStateChange(_) => "Illegal state change for transaction",
            TransactionError::AccountFrozen(_) => "Account frozen for transaction",
            TransactionError::InternalError(_, _) => "Internal error processing transaction",
        }
    }

    /// The error that a refusal of the account turns into for the
    /// transaction that was being applied.
    pub open spec fn of_refusal(refusal: AccountError, tx: Transaction) -> TransactionError {
        match refusal {
            AccountError::InsufficientFunds => TransactionError::InsufficientFunds(tx),
            AccountError::AccountLocked => TransactionError::AccountFrozen(tx),
            AccountError::Arithmetic(cause) => TransactionError::InternalError(tx, cause),
        }
    }
}

impl From<(AccountError, Transaction)> for TransactionError {
    /// Ties a refusal of the account to the transaction that met it: a
    /// lack of funds and a frozen account keep their meaning, an arithmetic
    /// fault becomes an internal error.
    fn from(pair: (AccountError, Transaction)) -> (error: TransactionError) {
        let (refusal, tx) = pair;
        match refusal {
            AccountError::InsufficientFunds => TransactionError::InsufficientFunds(tx),
            AccountError::AccountLocked => TransactionError::AccountFrozen(tx),
            AccountError::Arithmetic(cause) => TransactionError::InternalError(tx, cause),
        }
    }
}

impl vstd::std_specs::convert::FromSpecImpl<(AccountError, Transaction)> for TransactionError {
    open spec fn obeys_from_spec() -> bool {
        true
    }

    open spec fn from_spec(pair: (AccountError, Transaction)) -> TransactionError {
        TransactionError::of_refusal(pair.0, pair.1)
    }
}

impl Transaction {
    /// The id that the transaction carries: its own for a deposit or a
    /// withdrawal, that of the transaction it names for a command.
    pub open spec fn id_of(self) -> TransactionId {
        match self {
            Transaction::Deposit { id, .. } => id,
            Transaction::Withdrawal { id, .. } => id,
            Transaction::Dispute { id, .. } => id,
            Transaction::Resolve { id, .. } => id,
            Transaction::Chargeback { id, .. } => id,
        }
    }

    /// The client whose account the transaction is applied to.
    pub open spec fn client_of(self) -> ClientId {
        match self {
            Transaction::Deposit { client_id, .. } => client_id,
            Transaction::Withdrawal { client_id, .. } => client_id,
            Transaction::Dispute { client, .. } => client,
            Transaction::Resolve { client, .. } => client,
            Transaction::Chargeback { client, .. } => client,
        }
    }

    /// The amount of a deposit or a withdrawal; a command has none.
    pub open spec fn amount_of(self) -> Option<Amount> {
        match self {
            Transaction::Deposit { amount, .. } => Some(amount),
            Transaction::Withdrawal { amount, .. } => Some(amount),
            _ => None,
        }
    }

    /// The state of a deposit or a withdrawal; a command has none.
    pub open spec fn state_of(self) -> Option<TransactionState> {
        match self {
            Transaction::Deposit { state, .. } => Some(state),
            Transaction::Withdrawal { state, .. } => Some(state),
            _ => None,
        }
    }

    /// Whether the transaction is a deposit or a withdrawal.
    pub open spec fn moves_funds(self) -> bool {
        self is Deposit || self is Withdrawal
    }

    /// The same deposit or withdrawal in another state; a command as it is.
    pub open spec fn with_state(self, next: TransactionState) -> Transaction {
        match self {
            Transaction::Deposit { id, amount, client_id, .. } => Transaction::Deposit {
                id,
                amount,
                client_id,
                state: next,
            },
            Transaction::Withdrawal { id, amount, client_id, .. } => Transaction::Withdrawal {
                id,
                amount,
                client_id,
                state: next,
            },
            other => other,
        }
    }

    /// What an attempt to move the transaction to `next` ends in: the
    /// transaction in its new state where the lifecycle has that transition,
    /// and `IllegalStateChange` with the transaction where it has not. A
    /// command has no state, so the lifecycle has no transition for it.
    pub open spec fn change_outcome(self, next: TransactionState) -> Result<
        Transaction,
        TransactionError,
    > {
        match self.state_of() {
            Some(state) => if state.may_become(next) {
                Ok(self.with_state(next))
            } else {
                Err(TransactionError::IllegalStateChange(self))
            },
            None => Err(TransactionError::IllegalStateChange(self)),
        }
    }

    /// Whether a change of state took the transaction from `before` to
    /// `after` with `result` as `outcome` calls for; a failed change leaves
    /// the transaction as it was.
    pub open spec fn changed(
        before: Transaction,
        after: Transaction,
        result: Result<(), TransactionError>,
        outcome: Result<Transaction, TransactionError>,
    ) -> bool {
        match result {
            Ok(()) => outcome == Ok::<Transaction, TransactionError>(after),
            Err(error) => outcome == Err::<Transaction, TransactionError>(error) && after == before,
        }
    }

    /// Creates a new `Deposit` transaction in good standing.
    pub fn deposit(id: TransactionId, amount: Amount, client: ClientId) -> (tx: Transaction)
        ensures
            tx == (Transaction::Deposit {
                id,
                amount,
                client_id: client,
                state: TransactionState::Okay,
            }),
    {
        Transaction::Deposit { id, amount, client_id: client, state: TransactionState::Okay }
    }

    /// Creates a new `Withdrawal` transaction in good standing.
    pub fn withdrawal(id: TransactionId, amount: Amount, client: ClientId) -> (tx: Transaction)
        ensures
            tx == (Transaction::Withdrawal {
                id,
                amount,
                client_id: client,
                state: TransactionState::Okay,
            }),
    {
        Transaction::Withdrawal { id, amount, client_id: client, state: TransactionState::Okay }
    }

    /// Creates a new `Dispute` of the transaction `id` of `client`.
    pub fn dispute(id: TransactionId, client: ClientId) -> (tx: Transaction)
        ensures
            tx == (Transaction::Dispute { id, client }),
    {
        Transaction::Dispute { id, client }
    }

    /// Creates a new `Resolve` of the transaction `id` of `client`.
    pub fn resolve(id: TransactionId, client: ClientId) -> (tx: Transaction)
        ensures
            tx == (Transaction::Resolve { id, client }),
    {
        Transaction::Resolve { id, client }
    }

    /// Creates a new `Chargeback` of the transaction `id` of `client`.
    pub fn chargeback(id: TransactionId, client: ClientId) -> (tx: Transaction)
        ensures
            tx == (Transaction::Chargeback { id, client }),
    {
        Transaction::Chargeback { id, client }
    }

    /// Returns the transaction ID.
    pub fn id(&self) -> (id: TransactionId)
        ensures
            id == self.id_of(),
    {
        match self {
            Transaction::Deposit { id, .. } => *id,
            Transaction::Withdrawal { id, .. } => *id,
            Transaction::Dispute { id, .. } => *id,
            Transaction::Resolve { id, .. } => *id,
            Transaction::Chargeback { id, .. } => *id,
        }
    }

    /// Returns the transaction amount if applicable (`Deposit` or
    /// `Withdrawal`), and `None` for a command.
    pub fn amount(&self) -> (amount: Option<Amount>)
        ensures
            amount == self.amount_of(),
    {
        match self {
            Transaction::Deposit { amount, .. } => Some(*amount),
            Transaction::Withdrawal { amount, .. } => Some(*amount),
            _ => None,
        }
    }

    /// Returns the state of the transaction if applicable (`Deposit` or
    /// `Withdrawal`), and `None` for a command.
    pub fn state(&self) -> (state: Option<&TransactionState>)
        ensures
            match state {
                Some(state) => self.state_of() == Some(*state),
                None => self.state_of() is None,
            },
    {
        match self {
            Transaction::Deposit { state, .. } => Some(state),
            Transaction::Withdrawal { state, .. } => Some(state),
            _ => None,
        }
    }

    /// Returns the client ID.
    pub fn client_id(&self) -> (client: &ClientId)
        ensures
            *client == self.client_of(),
    {
        match self {
            Transaction::Deposit { client_id, .. } => client_id,
            Transaction::Withdrawal { client_id, .. } => client_id,
            Transaction::Dispute { client, .. } => client,
            Transaction::Resolve { client, .. } => client,
            Transaction::Chargeback { client, .. } => client,
        }
    }

    /// Moves the transaction to `next` where the lifecycle allows it, and
    /// otherwise fails with `IllegalStateChange` and leaves the transaction
    /// as it is. A command is always refused.
    pub fn change_state(&mut self, next: TransactionState) -> (result: Result<
        (),
        TransactionError,
    >)
        ensures
            Transaction::changed(*old(self), *final(self), result, old(self).change_outcome(next)),
    {
        let before = *self;
        match before {
            Transaction::Deposit { id, amount, client_id, state } => {
                if state.can_become(next) {
                    *self = Transaction::Deposit { id, amount, client_id, state: next };
                    Ok(())
                } else {
                    Err(TransactionError::IllegalStateChange(before))
                }
            },
            Transaction::Withdrawal { id, amount, client_id, state } => {
                if state.can_become(next) {
                    *self = Transaction::Withdrawal { id, amount, client_id, state: next };
                    Ok(())
                } else {
                    Err(TransactionError::IllegalStateChange(before))
                }
            },
            _ => Err(TransactionError::IllegalStateChange(before)),
        }
    }

    /// Sets the transaction state to `Disputed`.
    pub fn set_disputed(&mut self) -> (result: Result<(), TransactionError>)
        ensures
            Transaction::changed(
                *old(self),
                *final(self),
                result,
                old(self).change_outcome(TransactionState::Disputed),
            ),
    {
        self.change_state(TransactionState::Disputed)
    }

    /// Sets the transaction state to `Okay`.
    pub fn set_resolved(&mut self) -> (result: Result<(), TransactionError>)
        ensures
            Transaction::changed(
                *old(self),
                *final(self),
                result,
                old(self).change_outcome(TransactionState::Okay),
            ),
    {
        self.change_state(TransactionState::Okay)
    }

    /// Sets the transaction state to `ChargedBack`.
    pub fn set_chargeback(&mut self) -> (result: Result<(), TransactionError>)
        ensures
            Transaction::changed(
                *old(self),
                *final(self),
                result,
                old(self).change_outcome(TransactionState::ChargedBack),
            ),
    {
        self.change_state(TransactionState::ChargedBack)
    }

    /// The transaction that a row stands for, or why it stands for none: a
    /// row that moves funds must bring an amount, any other must not.
    pub open spec fn of_row(row: TransactionRow) -> Result<Transaction, RecordError> {
        if !row.tx_type.moves_funds() && row.amount is Some {
            Err(RecordError::UnexpectedAmount(row.tx_type))
        } else if row.tx_type.moves_funds() && row.amount is None {
            Err(RecordError::MissingAmount(row.tx_type))
        } else {
            Ok(
                match row.tx_type {
                    TransactionRowType::Deposit => Transaction::Deposit {
                        id: row.tx_id,
                        amount: row.amount->Some_0,
                        client_id: row.client,
                        state: TransactionState::Okay,
                    },
                    TransactionRowType::Withdrawal => Transaction::Withdrawal {
                        id: row.tx_id,
                        amount: row.amount->Some_0,
                        client_id: row.client,
                        state: TransactionState::Okay,
                    },
                    TransactionRowType::Dispute => Transaction::Dispute {
                        id: row.tx_id,
                        client: row.client,
                    },
                    TransactionRowType::Resolve => Transaction::Resolve {
                        id: row.tx_id,
                        client: row.client,
                    },
                    TransactionRowType::Chargeback => Transaction::Chargeback {
                        id: row.tx_id,
                        client: row.client,
                    },
                },
            )
        }
    }

    /// The transaction that the reading of a row stands for: that of the
    /// row where one was read, and the reader's own error where none was.
    pub open spec fn of_reading(reading: Result<TransactionRow, RecordError>) -> Result<
        Transaction,
        RecordError,
    > {
        match reading {
            Ok(row) => Transaction::of_row(row),
            Err(error) => Err(error),
        }
    }
}

impl TryFrom<Result<TransactionRow, RecordError>> for Transaction {
    type Error = RecordError;

    /// Tries to convert the reading of a row into a transaction.
    fn try_from(reading: Result<TransactionRow, RecordError>) -> (result: Result<
        Transaction,
        RecordError,
    >) {
        match reading {
            Err(error) => Err(error),
            Ok(row) => {
                if !row.tx_type.has_amount() && row.amount.is_some() {
                    Err(RecordError::UnexpectedAmount(row.tx_type))
                } else if row.tx_type.has_amount() && row.amount.is_none() {
                    Err(RecordError::MissingAmount(row.tx_type))
                } else {
                    Ok(
                        match row.tx_type {
                            TransactionRowType::Deposit => Transaction::deposit(
                                row.tx_id,
                                row.amount.unwrap(),
                                row.client,
                            ),
                            TransactionRowType::Withdrawal => Transaction::withdrawal(
                                row.tx_id,
                                row.amount.unwrap(),
                                row.client,
                            ),
                            TransactionRowType::Dispute => Transaction::dispute(
                                row.tx_id,
                                row.client,
                            ),
                            TransactionRowType::Resolve => Transaction::resolve(
                                row.tx_id,
                                row.client,
                            ),
                            TransactionRowType::Chargeback => Transaction::chargeback(
                                row.tx_id,
                                row.client,
                            ),
                        },
                    )
                }
            },
        }
    }
}

impl vstd::std_specs::convert::TryFromSpecImpl<Result<TransactionRow, RecordError>> for Transaction {
    open spec fn obeys_try_from_spec() -> bool {
        true
    }

    open spec fn try_from_spec(reading: Result<TransactionRow, RecordError>) -> Result<
        Transaction,
        RecordError,
    > {
        Transaction::of_reading(reading)
    }
}

} // verus!
