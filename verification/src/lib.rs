//! The outcome of executing a block, and the ways it can fail.
//!
//! A block is executed in one of three modes: as a dry run, to produce a new
//! block, or to validate a finished one ([`mode`]).  The execution gives an
//! [`outcome::ExecutionResult`], or one of the failures of [`error`].

pub mod block;
pub mod cause;
pub mod error;
pub mod hex;
pub mod mode;
pub mod outcome;
pub mod primitives;
pub mod validity;
pub mod vm;

pub use block::{Block, PartialFuelBlock};
pub use error::{Error, Result};
pub use mode::{ExecutionBlock, ExecutionKind, ExecutionType, ExecutionTypes};
pub use outcome::{
    ExecutionResult, TransactionExecutionResult, TransactionExecutionStatus, Uncommitted,
    UncommittedResult,
};
pub use primitives::{BlockId, Bytes32, ContractId, Nonce, TxId, UtxoId};
pub use validity::TransactionValidityError;
pub use vm::{Backtrace, CheckError, InterpreterError, ProgramState, ValidityError};
