//! What the virtual machine and the check of a transaction report, as far
//! as outcomes and failures carry it.

use vstd::prelude::*;
use vstd::string::StringExecFns;

use crate::primitives::{Bytes32, ContractId};

verus! {

/// The state in which a program stopped.
#[derive(Debug, Clone, Copy, PartialEq, Eq)]
pub enum ProgramState {
    /// The program returned a word.
    Return(u64),
    /// The program returned data, of which this is the hash.
    ReturnData(Bytes32),
    /// The program reverted with a word.
    Revert(u64),
}

/// A rule that a transaction broke, of those that are checked on the
/// transaction alone.
#[derive(Debug, Clone, Copy, PartialEq, Eq, Structural)]
pub enum ValidityError {
    /// The transaction spends neither a coin nor a message.
    NoSpendableInput,
    /// The transaction asks for more gas than a transaction may.
    TransactionGasLimit,
    /// The transaction may not be included yet.
    TransactionMaturity,
    /// The transaction has more inputs than a transaction may.
    TransactionInputsMax,
    /// The transaction has more outputs than a transaction may.
    TransactionOutputsMax,
    /// An amount of the transaction does not fit a word.
    ArithmeticOverflow,
}

impl ValidityError {
    /// The name of the broken rule.
    pub open spec fn text(self) -> Seq<char> {
        match self {
            ValidityError::NoSpendableInput => "NoSpendableInput"@,
            ValidityError::TransactionGasLimit => "TransactionGasLimit"@,
            ValidityError::TransactionMaturity => "TransactionMaturity"@,
            ValidityError::TransactionInputsMax => "TransactionInputsMax"@,
            ValidityError::TransactionOutputsMax => "TransactionOutputsMax"@,
            ValidityError::ArithmeticOverflow => "ArithmeticOverflow"@,
        }
    }

    /// The name of the broken rule.
    pub fn name(&self) -> (name: &'static str)
        ensures
            name@ == self.text(),
    {
        match self {
            ValidityError::NoSpendableInput => "NoSpendableInput",
            ValidityError::TransactionGasLimit => "TransactionGasLimit",
            ValidityError::TransactionMaturity => "TransactionMaturity",
            ValidityError::TransactionInputsMax => "TransactionInputsMax",
            ValidityError::TransactionOutputsMax => "TransactionOutputsMax",
            ValidityError::ArithmeticOverflow => "ArithmeticOverflow",
        }
    }
}

/// Why the check of a transaction failed.
#[derive(Debug, Clone, Copy, PartialEq, Eq, Structural)]
pub enum CheckError {
    /// The transaction broke a rule.
    Validity(ValidityError),
    /// A predicate of the transaction did not hold.
    PredicateVerificationFailed,
}

impl CheckError {
    /// The failure on one line: the kind, and in brackets the broken rule
    /// where there is one.
    pub open spec fn text(self) -> Seq<char> {
        match self {
            CheckError::Validity(rule) => "Validity("@ + rule.text() + ")"@,
            CheckError::PredicateVerificationFailed => "PredicateVerificationFailed"@,
        }
    }

    /// The failure over several lines: the kind, and the broken rule, where
    /// there is one, on a line of its own, indented by four spaces and
    /// followed by a comma.
    pub open spec fn pretty_text(self) -> Seq<char> {
        match self {
            CheckError::Validity(rule) => "Validity(\n    "@ + rule.text() + ",\n)"@,
            CheckError::PredicateVerificationFailed => "PredicateVerificationFailed"@,
        }
    }

    /// Appends the failure, on one line, to `out`.
    pub fn append_to(&self, out: &mut String)
        ensures
            final(out)@ == old(out)@ + self.text(),
    {
        match self {
            CheckError::Validity(rule) => {
                out.append("Validity(");
                out.append(rule.name());
                out.append(")");
                assert(out@ =~= old(out)@ + self.text());
            },
            CheckError::PredicateVerificationFailed => {
                out.append("PredicateVerificationFailed");
            },
        }
    }

    /// Appends the failure, over several lines, to `out`.
    pub fn append_pretty_to(&self, out: &mut String)
        ensures
            final(out)@ == old(out)@ + self.pretty_text(),
    {
        match self {
            CheckError::Validity(rule) => {
                out.append("Validity(\n    ");
                out.append(rule.name());
                out.append(",\n)");
                assert(out@ =~= old(out)@ + self.pretty_text());
            },
            CheckError::PredicateVerificationFailed => {
                out.append("PredicateVerificationFailed");
            },
        }
    }
}

impl From<ValidityError> for CheckError {
    /// A broken rule is a failed check.
    fn from(rule: ValidityError) -> (error: CheckError) {
        CheckError::Validity(rule)
    }
}

impl vstd::std_specs::convert::FromSpecImpl<ValidityError> for CheckError {
    open spec fn obeys_from_spec() -> bool {
        true
    }

    open spec fn from_spec(rule: ValidityError) -> CheckError {
        CheckError::Validity(rule)
    }
}

/// A fault of the virtual machine itself, as opposed to a program that
/// reverts.
#[derive(Debug)]
pub enum InterpreterError {
    /// The transaction did not pass its check.
    CheckError(CheckError),
    /// The machine was run without a transaction.
    NoTransactionInitialized,
    /// A predicate did not hold.
    PredicateFailure,
    /// The storage under the machine failed.
    Storage(anyhow::Error),
}

impl InterpreterError {
    /// The cause from the layer below that the fault carries, if any.
    pub open spec fn cause(self) -> Option<anyhow::Error> {
        match self {
            InterpreterError::Storage(cause) => Some(cause),
            _ => None,
        }
    }

    /// The fault on one line, where `cause` is the text that its cause
    /// shows: the kind, and in brackets what it carries.
    pub open spec fn text_with(self, cause: Seq<char>) -> Seq<char> {
        match self {
            InterpreterError::CheckError(error) => "CheckError("@ + error.text() + ")"@,
            InterpreterError::NoTransactionInitialized => "NoTransactionInitialized"@,
            InterpreterError::PredicateFailure => "PredicateFailure"@,
            InterpreterError::Storage(_) => "Storage("@ + cause + ")"@,
        }
    }

    /// The cause from the layer below that the fault carries, if any.
    pub fn cause_ref(&self) -> (cause: Option<&anyhow::Error>)
        ensures
            match cause {
                Some(c) => self.cause() == Some(*c),
                None => self.cause() is None,
            },
    {
        match self {
            InterpreterError::Storage(cause) => Some(cause),
            _ => None,
        }
    }

    /// Appends the fault, on one line, to `out`.  `cause` is the text that
    /// the fault's cause shows; a fault without a cause does not read it.
    pub fn append_to(&self, out: &mut String, cause: &str)
        ensures
            final(out)@ == old(out)@ + self.text_with(cause@),
    {
        match self {
            InterpreterError::CheckError(error) => {
                out.append("CheckError(");
                error.append_to(out);
                out.append(")");
                assert(out@ =~= old(out)@ + self.text_with(cause@));
            },
            InterpreterError::NoTransactionInitialized => {
                out.append("NoTransactionInitialized");
            },
            InterpreterError::PredicateFailure => {
                out.append("PredicateFailure");
            },
            InterpreterError::Storage(_) => {
                out.append("Storage(");
                out.append(cause);
                out.append(")");
                assert(out@ =~= old(out)@ + self.text_with(cause@));
            },
        }
    }
}

/// The state of the virtual machine at the point of a failure.
#[derive(Debug, Clone, PartialEq, Eq)]
pub struct Backtrace {
    /// The contract that was running.
    pub contract: ContractId,
    /// The registers of the machine.
    pub registers: Vec<u64>,
    /// The memory of the machine.
    pub memory: Vec<u8>,
}

} // verus!
