//! The ways in which the execution of a block fails.

use vstd::prelude::*;
use vstd::string::StringExecFns;

use crate::cause::{error_of_message, shown_text, shows};
use crate::primitives::{Bytes32, ContractId, Nonce};
use crate::validity::TransactionValidityError;
use crate::vm::{Backtrace, CheckError, InterpreterError, ValidityError};

verus! {

/// What the execution of a block returns: a value, or the failure.
pub type Result<T> = core::result::Result<T, Error>;

/// Why the execution of a block failed.
///
/// The failures are of three kinds.  Some are found in the shape of the
/// block: too many transactions, an identifier used twice, a `Mint`
/// transaction that is missing or misplaced, fees that do not add up.
/// Some say that a transaction is not valid: `TransactionValidity` and
/// `InvalidTransaction`.  The rest come from below: from storage, from the
/// relayer, from the virtual machine.  What comes from below is carried as it
/// came, not as text.
#[allow(missing_docs)]
#[derive(Debug)]
#[non_exhaustive]
pub enum Error {
    TransactionIdCollision(Bytes32),
    TooManyTransactions,
    OutputAlreadyExists,
    FeeOverflow,
    MintMissing,
    MintFoundSecondEntry,
    MintHasUnexpectedIndex,
    MintIsNotLastTransaction,
    MintMismatch,
    CoinbaseCannotIncreaseBalance(anyhow::Error),
    CoinbaseAmountMismatch,
    TransactionValidity(TransactionValidityError),
    StorageError(anyhow::Error),
    RelayerError(anyhow::Error),
    VmExecution { error: InterpreterError, transaction_id: Bytes32 },
    InvalidTransaction(CheckError),
    Backtrace(Box<Backtrace>),
    InvalidTransactionOutcome { transaction_id: Bytes32 },
    InvalidFeeAmount,
    InvalidBlockId,
    ContractUtxoMissing(ContractId),
    MessageAlreadySpent(Nonce),
    InputTypeMismatch(String),
}

impl Error {
    /// The cause from the layer below that the failure carries, if any.
    pub open spec fn cause(self) -> Option<anyhow::Error> {
        match self {
            Error::CoinbaseCannotIncreaseBalance(cause) => Some(cause),
            Error::StorageError(cause) => Some(cause),
            Error::RelayerError(cause) => Some(cause),
            Error::VmExecution { error, .. } => error.cause(),
            _ => None,
        }
    }

    /// The message of the failure, where `cause` is the text that its cause
    /// shows.  A failure without a cause reads the same whatever `cause` is.
    pub open spec fn message_with(self, cause: Seq<char>) -> Seq<char> {
        match self {
            Error::TransactionIdCollision(id) => "Transaction id was already used: "@ + id.text(),
            Error::TooManyTransactions => "Too many transactions in the block"@,
            Error::OutputAlreadyExists => "output already exists"@,
            Error::FeeOverflow => "The computed fee caused an integer overflow"@,
            Error::MintMissing => "The block is missing `Mint` transaction."@,
            Error::MintFoundSecondEntry =>
                "Found the second entry of the `Mint` transaction in the block."@,
            Error::MintHasUnexpectedIndex => "The `Mint` transaction has an unexpected index."@,
            Error::MintIsNotLastTransaction =>
                "The last transaction in the block is not `Mint`."@,
            Error::MintMismatch => "The `Mint` transaction mismatches expectations."@,
            Error::CoinbaseCannotIncreaseBalance(_) =>
                "Can't increase the balance of the coinbase contract: "@ + cause + "."@,
            Error::CoinbaseAmountMismatch => "Coinbase amount mismatches with expected."@,
            Error::TransactionValidity(error) => error.message(),
            Error::StorageError(_) => "got error during work with storage "@ + cause,
            Error::RelayerError(_) => "got error during work with relayer "@ + cause,
            Error::VmExecution { error, transaction_id } => "Transaction("@ + transaction_id.text()
                + ") execution error: "@ + error.text_with(cause),
            Error::InvalidTransaction(error) => error.text(),
            Error::Backtrace(_) => "Execution error with backtrace"@,
            Error::InvalidTransactionOutcome { transaction_id } =>
                "Transaction doesn't match expected result: "@ + transaction_id.text(),
            Error::InvalidFeeAmount => "The amount of charged fees is invalid"@,
            Error::InvalidBlockId => "Block id is invalid"@,
            Error::ContractUtxoMissing(id) => "No matching utxo for contract id $"@ + id.text(),
            Error::MessageAlreadySpent(nonce) => "message already spent "@ + nonce.text(),
            Error::InputTypeMismatch(expected) => "Expected input of type "@ + expected@,
        }
    }

    /// Whether `text` is a message of the failure: the message with the text
    /// that its cause shows, or, for a failure without a cause, the one
    /// message it has.
    pub open spec fn reads_as(self, text: Seq<char>) -> bool {
        match self.cause() {
            Some(cause) => exists|shown: Seq<char>|
                #![trigger shows(&cause, shown)]
                shows(&cause, shown) && text == self.message_with(shown),
            None => text == self.message_with(Seq::empty()),
        }
    }

    /// The cause from the layer below that the failure carries, if any.
    pub fn cause_ref(&self) -> (cause: Option<&anyhow::Error>)
        ensures
            match cause {
                Some(c) => self.cause() == Some(*c),
                None => self.cause() is None,
            },
    {
        match self {
            Error::CoinbaseCannotIncreaseBalance(cause) => Some(cause),
            Error::StorageError(cause) => Some(cause),
            Error::RelayerError(cause) => Some(cause),
            Error::VmExecution { error, .. } => error.cause_ref(),
            _ => None,
        }
    }

    /// The message of the failure, given the text that its cause shows.  A
    /// failure without a cause does not read `cause`.
    pub fn message_given(&self, cause: &str) -> (text: String)
        ensures
            text@ == self.message_with(cause@),
    {
        let mut out = String::new();
        match self {
            Error::TransactionIdCollision(id) => {
                out.append("Transaction id was already used: ");
                id.append_to(&mut out);
            },
            Error::TooManyTransactions => {
                out.append("Too many transactions in the block");
            },
            Error::OutputAlreadyExists => {
                out.append("output already exists");
            },
            Error::FeeOverflow => {
                out.append("The computed fee caused an integer overflow");
            },
            Error::MintMissing => {
                out.append("The block is missing `Mint` transaction.");
            },
            Error::MintFoundSecondEntry => {
                out.append("Found the second entry of the `Mint` transaction in the block.");
            },
            Error::MintHasUnexpectedIndex => {
                out.append("The `Mint` transaction has an unexpected index.");
            },
            Error::MintIsNotLastTransaction => {
                out.append("The last transaction in the block is not `Mint`.");
            },
            Error::MintMismatch => {
                out.append("The `Mint` transaction mismatches expectations.");
            },
            Error::CoinbaseCannotIncreaseBalance(_) => {
                out.append("Can't increase the balance of the coinbase contract: ");
                out.append(cause);
                out.append(".");
            },
            Error::CoinbaseAmountMismatch => {
                out.append("Coinbase amount mismatches with expected.");
            },
            Error::TransactionValidity(error) => {
                error.append_to(&mut out);
            },
            Error::StorageError(_) => {
                out.append("got error during work with storage ");
                out.append(cause);
            },
            Error::RelayerError(_) => {
                out.append("got error during work with relayer ");
                out.append(cause);
            },
            Error::VmExecution { error, transaction_id } => {
                out.append("Transaction(");
                transaction_id.append_to(&mut out);
                out.append(") execution error: ");
                error.append_to(&mut out, cause);
            },
            Error::InvalidTransaction(error) => {
                error.append_to(&mut out);
            },
            Error::Backtrace(_) => {
                out.append("Execution error with backtrace");
            },
            Error::InvalidTransactionOutcome { transaction_id } => {
                out.append("Transaction doesn't match expected result: ");
                transaction_id.append_to(&mut out);
            },
            Error::InvalidFeeAmount => {
                out.append("The amount of charged fees is invalid");
            },
            Error::InvalidBlockId => {
                out.append("Block id is invalid");
            },
            Error::ContractUtxoMissing(id) => {
                out.append("No matching utxo for contract id $");
                id.append_to(&mut out);
            },
            Error::MessageAlreadySpent(nonce) => {
                out.append("message already spent ");
                nonce.append_to(&mut out);
            },
            Error::InputTypeMismatch(expected) => {
                out.append("Expected input of type ");
                out.append(expected.as_str());
            },
        }
        assert(out@ =~= self.message_with(cause@));
        out
    }

    /// The message of the failure.  Where the failure carries a cause, the
    /// cause is asked for its text, which stands in the message.
    pub fn to_string(&self) -> (text: String)
        ensures
            self.reads_as(text@),
    {
        match self.cause_ref() {
            Some(cause) => {
                let shown = shown_text(cause);
                let text = self.message_given(shown.as_str());
                proof {
                    let carried = self.cause()->0;
                    assert(shows(&carried, shown@));
                }
                text
            },
            None => {
                proof {
                    reveal_strlit("");
                }
                let text = self.message_given("");
                assert(""@ =~= Seq::<char>::empty());
                text
            },
        }
    }
}

/// Invalid inputs of a transaction, made a failure of the execution, are
/// wrapped as `TransactionValidity` and read as they did before: the failure
/// has one message, the message of what it wraps.
pub proof fn lemma_validity_reads_through(error: TransactionValidityError, text: Seq<char>)
    ensures
        <Error as vstd::std_specs::convert::FromSpec<TransactionValidityError>>::from_spec(error)
            == Error::TransactionValidity(error),
        Error::TransactionValidity(error).reads_as(text) <==> text == error.message(),
{
}

impl From<TransactionValidityError> for Error {
    /// Invalid inputs of a transaction fail the execution as they are.
    fn from(error: TransactionValidityError) -> (wrapped: Error) {
        Error::TransactionValidity(error)
    }
}

impl vstd::std_specs::convert::FromSpecImpl<TransactionValidityError> for Error {
    open spec fn obeys_from_spec() -> bool {
        true
    }

    open spec fn from_spec(error: TransactionValidityError) -> Error {
        Error::TransactionValidity(error)
    }
}

impl From<Backtrace> for Error {
    /// The state of the machine is large: it is moved behind a pointer.
    fn from(backtrace: Backtrace) -> (wrapped: Error) {
        Error::Backtrace(Box::new(backtrace))
    }
}

impl vstd::std_specs::convert::FromSpecImpl<Backtrace> for Error {
    open spec fn obeys_from_spec() -> bool {
        true
    }

    open spec fn from_spec(backtrace: Backtrace) -> Error {
        Error::Backtrace(Box::new(backtrace))
    }
}

impl From<CheckError> for Error {
    /// A failed check, met while a block is executed, makes the transaction
    /// invalid.
    fn from(error: CheckError) -> (wrapped: Error) {
        Error::InvalidTransaction(error)
    }
}

impl vstd::std_specs::convert::FromSpecImpl<CheckError> for Error {
    open spec fn obeys_from_spec() -> bool {
        true
    }

    open spec fn from_spec(error: CheckError) -> Error {
        Error::InvalidTransaction(error)
    }
}

impl From<ValidityError> for Error {
    /// A broken rule is a failed check, and as such makes the transaction
    /// invalid.
    fn from(rule: ValidityError) -> (wrapped: Error) {
        Error::InvalidTransaction(CheckError::Validity(rule))
    }
}

impl vstd::std_specs::convert::FromSpecImpl<ValidityError> for Error {
    open spec fn obeys_from_spec() -> bool {
        true
    }

    open spec fn from_spec(rule: ValidityError) -> Error {
        Error::InvalidTransaction(CheckError::Validity(rule))
    }
}

impl From<Error> for anyhow::Error {
    /// The failure as a cause that only shows a text: its message.  What the
    /// failure held is gone.
    fn from(error: Error) -> (cause: anyhow::Error)
        ensures
            forall|text: Seq<char>| shows(&cause, text) ==> error.reads_as(text),
    {
        let message = error.to_string();
        error_of_message(message)
    }
}

/// No function of the failure names the cause that comes back: what holds of
/// it is the contract of `from` above.
impl vstd::std_specs::convert::FromSpecImpl<Error> for anyhow::Error {
    open spec fn obeys_from_spec() -> bool {
        false
    }

    open spec fn from_spec(error: Error) -> anyhow::Error {
        arbitrary()
    }
}

} // verus!
