//! Why the inputs of a transaction are not valid against the state of the
//! chain.

use vstd::prelude::*;
use vstd::string::StringExecFns;

use crate::primitives::{Nonce, TxId, UtxoId};
use crate::vm::{CheckError, ValidityError};

verus! {

/// Why the inputs of a transaction are not valid against the state of the
/// chain.
#[allow(missing_docs)]
#[derive(Debug)]
#[non_exhaustive]
pub enum TransactionValidityError {
    CoinAlreadySpent(UtxoId),
    CoinHasNotMatured(UtxoId),
    CoinDoesNotExist(UtxoId),
    MessageAlreadySpent(Nonce),
    MessageSpendTooEarly(Nonce),
    MessageDoesNotExist(Nonce),
    MessageSenderMismatch(Nonce),
    MessageRecipientMismatch(Nonce),
    MessageAmountMismatch(Nonce),
    MessageNonceMismatch(Nonce),
    MessageDataMismatch(Nonce),
    InvalidContractInputIndex(UtxoId),
    PredicateExecutionDisabled(TxId),
    InvalidPredicate(TxId),
    Validation(CheckError),
}

impl TransactionValidityError {
    /// The message of the failure.
    ///
    /// Most failures read the same whatever coin or message they are
    /// about.  The unusable contract output and the two failures about
    /// predicates name what they are about, and a failed check is spelled
    /// out over several lines.
    pub open spec fn message(self) -> Seq<char> {
        match self {
            TransactionValidityError::CoinAlreadySpent(_) => "Coin input was already spent"@,
            TransactionValidityError::CoinHasNotMatured(_) => "Coin has not yet reached maturity"@,
            TransactionValidityError::CoinDoesNotExist(_) => "The specified coin doesn't exist"@,
            TransactionValidityError::MessageAlreadySpent(_) =>
                "The specified message was already spent"@,
            TransactionValidityError::MessageSpendTooEarly(_) =>
                "Message is not yet spendable, as it's DA height is newer than this block allows"@,
            TransactionValidityError::MessageDoesNotExist(_) =>
                "The specified message doesn't exist"@,
            TransactionValidityError::MessageSenderMismatch(_) =>
                "The input message sender doesn't match the relayer message sender"@,
            TransactionValidityError::MessageRecipientMismatch(_) =>
                "The input message recipient doesn't match the relayer message recipient"@,
            TransactionValidityError::MessageAmountMismatch(_) =>
                "The input message amount doesn't match the relayer message amount"@,
            TransactionValidityError::MessageNonceMismatch(_) =>
                "The input message nonce doesn't match the relayer message nonce"@,
            TransactionValidityError::MessageDataMismatch(_) =>
                "The input message data doesn't match the relayer message data"@,
            TransactionValidityError::InvalidContractInputIndex(utxo_id) =>
                "Contract output index isn't valid: "@ + utxo_id.text(),
            TransactionValidityError::PredicateExecutionDisabled(tx_id) =>
                "The transaction contains predicate inputs which aren't enabled: "@
                    + tx_id.text(),
            TransactionValidityError::InvalidPredicate(tx_id) =>
                "The transaction contains a predicate which failed to validate: TransactionId("@
                    + tx_id.text() + ")"@,
            TransactionValidityError::Validation(error) =>
                "Transaction validity: "@ + error.pretty_text(),
        }
    }

    /// Appends the message of the failure to `out`.
    pub fn append_to(&self, out: &mut String)
        ensures
            final(out)@ == old(out)@ + self.message(),
    {
        match self {
            TransactionValidityError::CoinAlreadySpent(_) => {
                out.append("Coin input was already spent");
            },
            TransactionValidityError::CoinHasNotMatured(_) => {
                out.append("Coin has not yet reached maturity");
            },
            TransactionValidityError::CoinDoesNotExist(_) => {
                out.append("The specified coin doesn't exist");
            },
            TransactionValidityError::MessageAlreadySpent(_) => {
                out.append("The specified message was already spent");
            },
            TransactionValidityError::MessageSpendTooEarly(_) => {
                out.append(
                    "Message is not yet spendable, as it's DA height is newer than this block allows",
                );
            },
            TransactionValidityError::MessageDoesNotExist(_) => {
                out.append("The specified message doesn't exist");
            },
            TransactionValidityError::MessageSenderMismatch(_) => {
                out.append("The input message sender doesn't match the relayer message sender");
            },
            TransactionValidityError::MessageRecipientMismatch(_) => {
                out.append(
                    "The input message recipient doesn't match the relayer message recipient",
                );
            },
            TransactionValidityError::MessageAmountMismatch(_) => {
                out.append("The input message amount doesn't match the relayer message amount");
            },
            TransactionValidityError::MessageNonceMismatch(_) => {
                out.append("The input message nonce doesn't match the relayer message nonce");
            },
            TransactionValidityError::MessageDataMismatch(_) => {
                out.append("The input message data doesn't match the relayer message data");
            },
            TransactionValidityError::InvalidContractInputIndex(utxo_id) => {
                out.append("Contract output index isn't valid: ");
                utxo_id.append_to(out);
                assert(out@ =~= old(out)@ + self.message());
            },
            TransactionValidityError::PredicateExecutionDisabled(tx_id) => {
                out.append("The transaction contains predicate inputs which aren't enabled: ");
                tx_id.append_to(out);
                assert(out@ =~= old(out)@ + self.message());
            },
            TransactionValidityError::InvalidPredicate(tx_id) => {
                out.append(
                    "The transaction contains a predicate which failed to validate: TransactionId(",
                );
                tx_id.append_to(out);
                out.append(")");
                assert(out@ =~= old(out)@ + self.message());
            },
            TransactionValidityError::Validation(error) => {
                out.append("Transaction validity: ");
                error.append_pretty_to(out);
                assert(out@ =~= old(out)@ + self.message());
            },
        }
    }

    /// The message of the failure.
    pub fn to_string(&self) -> (text: String)
        ensures
            text@ == self.message(),
    {
        let mut text = String::new();
        self.append_to(&mut text);
        assert(text@ =~= self.message());
        text
    }
}

impl From<CheckError> for TransactionValidityError {
    /// A failed check, met while the inputs are looked at, is a failed
    /// validation.
    fn from(error: CheckError) -> (wrapped: TransactionValidityError) {
        TransactionValidityError::Validation(error)
    }
}

impl vstd::std_specs::convert::FromSpecImpl<CheckError> for TransactionValidityError {
    open spec fn obeys_from_spec() -> bool {
        true
    }

    open spec fn from_spec(error: CheckError) -> TransactionValidityError {
        TransactionValidityError::Validation(error)
    }
}

impl From<ValidityError> for TransactionValidityError {
    /// A broken rule is a failed check, and as such a failed validation.
    fn from(rule: ValidityError) -> (wrapped: TransactionValidityError) {
        TransactionValidityError::Validation(CheckError::Validity(rule))
    }
}

impl vstd::std_specs::convert::FromSpecImpl<ValidityError> for TransactionValidityError {
    open spec fn obeys_from_spec() -> bool {
        true
    }

    open spec fn from_spec(rule: ValidityError) -> TransactionValidityError {
        TransactionValidityError::Validation(CheckError::Validity(rule))
    }
}

} // verus!
