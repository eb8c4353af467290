use executor_types::{
    Backtrace, Bytes32, CheckError, ContractId, Error, InterpreterError, Nonce,
    TransactionValidityError, UtxoId, ValidityError,
};

const ZEROS: &str = "0x0000000000000000000000000000000000000000000000000000000000000000";

fn id_of(byte: u8) -> Bytes32 {
    Bytes32([byte; 32])
}

fn shown(byte: &str) -> String {
    format!("0x{}", byte.repeat(32))
}

fn cause(text: &str) -> anyhow::Error {
    anyhow::Error::msg(text.to_string())
}

#[test]
fn failures_of_the_block_shape_have_fixed_messages() {
    assert_eq!(Error::TooManyTransactions.to_string(), "Too many transactions in the block");
    assert_eq!(Error::OutputAlreadyExists.to_string(), "output already exists");
    assert_eq!(Error::FeeOverflow.to_string(), "The computed fee caused an integer overflow");
    assert_eq!(Error::MintMissing.to_string(), "The block is missing `Mint` transaction.");
    assert_eq!(
        Error::MintFoundSecondEntry.to_string(),
        "Found the second entry of the `Mint` transaction in the block."
    );
    assert_eq!(
        Error::MintHasUnexpectedIndex.to_string(),
        "The `Mint` transaction has an unexpected index."
    );
    assert_eq!(
        Error::MintIsNotLastTransaction.to_string(),
        "The last transaction in the block is not `Mint`."
    );
    assert_eq!(Error::MintMismatch.to_string(), "The `Mint` transaction mismatches expectations.");
    assert_eq!(
        Error::CoinbaseAmountMismatch.to_string(),
        "Coinbase amount mismatches with expected."
    );
    assert_eq!(Error::InvalidFeeAmount.to_string(), "The amount of charged fees is invalid");
    assert_eq!(Error::InvalidBlockId.to_string(), "Block id is invalid");
}

#[test]
fn failures_name_identifiers_in_hex() {
    assert_eq!(
        Error::TransactionIdCollision(Bytes32::zeroed()).to_string(),
        format!("Transaction id was already used: {}", ZEROS)
    );
    assert_eq!(
        Error::TransactionIdCollision(id_of(0x1f)).to_string(),
        "Transaction id was already used: \
         0x1f1f1f1f1f1f1f1f1f1f1f1f1f1f1f1f1f1f1f1f1f1f1f1f1f1f1f1f1f1f1f1f"
    );
    assert_eq!(
        Error::InvalidTransactionOutcome { transaction_id: id_of(0xc3) }.to_string(),
        format!("Transaction doesn't match expected result: {}", shown("c3"))
    );
    assert_eq!(
        Error::ContractUtxoMissing(ContractId(id_of(0x02))).to_string(),
        format!("No matching utxo for contract id ${}", shown("02"))
    );
    assert_eq!(
        Error::MessageAlreadySpent(Nonce(id_of(0xee))).to_string(),
        format!("message already spent {}", shown("ee"))
    );
}

#[test]
fn input_type_mismatch_names_the_expected_type() {
    assert_eq!(
        Error::InputTypeMismatch("Contract".to_string()).to_string(),
        "Expected input of type Contract"
    );
    assert_eq!(Error::InputTypeMismatch(String::new()).to_string(), "Expected input of type ");
}

#[test]
fn causes_from_below_stand_in_the_message() {
    assert_eq!(
        Error::CoinbaseCannotIncreaseBalance(cause("balance overflow")).to_string(),
        "Can't increase the balance of the coinbase contract: balance overflow."
    );
    assert_eq!(
        Error::StorageError(cause("disk is gone")).to_string(),
        "got error during work with storage disk is gone"
    );
    assert_eq!(
        Error::RelayerError(cause("no connection")).to_string(),
        "got error during work with relayer no connection"
    );
}

#[test]
fn a_cause_with_context_shows_its_outermost_text() {
    let chained = cause("inner").context("outer");
    assert_eq!(
        Error::StorageError(chained).to_string(),
        "got error during work with storage outer"
    );
}

#[test]
fn message_given_puts_the_given_text_where_the_cause_stands() {
    let failure = Error::StorageError(cause("ignored here"));
    assert_eq!(failure.message_given("X"), "got error during work with storage X");
    let failure = Error::CoinbaseCannotIncreaseBalance(cause("ignored here"));
    assert_eq!(
        failure.message_given("X"),
        "Can't increase the balance of the coinbase contract: X."
    );
    // a failure without a cause does not read the text
    assert_eq!(Error::MintMissing.message_given("X"), Error::MintMissing.to_string());
}

#[test]
fn cause_ref_finds_the_carried_cause() {
    assert!(Error::MintMissing.cause_ref().is_none());
    assert!(Error::InvalidTransaction(CheckError::PredicateVerificationFailed)
        .cause_ref()
        .is_none());
    let failure = Error::RelayerError(cause("relayer"));
    assert_eq!(failure.cause_ref().map(|c| c.to_string()), Some("relayer".to_string()));
    let failure = Error::VmExecution {
        error: InterpreterError::Storage(cause("vm storage")),
        transaction_id: Bytes32::zeroed(),
    };
    assert_eq!(failure.cause_ref().map(|c| c.to_string()), Some("vm storage".to_string()));
    let failure = Error::VmExecution {
        error: InterpreterError::PredicateFailure,
        transaction_id: Bytes32::zeroed(),
    };
    assert!(failure.cause_ref().is_none());
}

#[test]
fn vm_failures_name_the_transaction() {
    assert_eq!(
        Error::VmExecution {
            error: InterpreterError::NoTransactionInitialized,
            transaction_id: id_of(0x10),
        }
        .to_string(),
        format!("Transaction({}) execution error: NoTransactionInitialized", shown("10"))
    );
    assert_eq!(
        Error::VmExecution {
            error: InterpreterError::PredicateFailure,
            transaction_id: Bytes32::zeroed(),
        }
        .to_string(),
        format!("Transaction({}) execution error: PredicateFailure", ZEROS)
    );
    assert_eq!(
        Error::VmExecution {
            error: InterpreterError::CheckError(CheckError::Validity(
                ValidityError::TransactionGasLimit
            )),
            transaction_id: Bytes32::zeroed(),
        }
        .to_string(),
        format!("Transaction({}) execution error: CheckError(Validity(TransactionGasLimit))", ZEROS)
    );
    assert_eq!(
        Error::VmExecution {
            error: InterpreterError::Storage(cause("slot unreadable")),
            transaction_id: Bytes32::zeroed(),
        }
        .to_string(),
        format!("Transaction({}) execution error: Storage(slot unreadable)", ZEROS)
    );
}

#[test]
fn a_backtrace_is_boxed_and_not_shown() {
    let backtrace = Backtrace {
        contract: ContractId(id_of(1)),
        registers: vec![0, 1, 2],
        memory: vec![0xff; 64],
    };
    let failure = Error::from(backtrace.clone());
    assert_eq!(failure.to_string(), "Execution error with backtrace");
    match failure {
        Error::Backtrace(boxed) => assert_eq!(*boxed, backtrace),
        other => panic!("not a backtrace: {:?}", other),
    }
}

#[test]
fn invalid_inputs_have_fixed_messages() {
    let utxo = UtxoId::new(id_of(1), 2);
    let nonce = Nonce(id_of(3));
    assert_eq!(
        TransactionValidityError::CoinAlreadySpent(utxo).to_string(),
        "Coin input was already spent"
    );
    assert_eq!(
        TransactionValidityError::CoinHasNotMatured(utxo).to_string(),
        "Coin has not yet reached maturity"
    );
    assert_eq!(
        TransactionValidityError::CoinDoesNotExist(utxo).to_string(),
        "The specified coin doesn't exist"
    );
    assert_eq!(
        TransactionValidityError::MessageAlreadySpent(nonce).to_string(),
        "The specified message was already spent"
    );
    assert_eq!(
        TransactionValidityError::MessageSpendTooEarly(nonce).to_string(),
        "Message is not yet spendable, as it's DA height is newer than this block allows"
    );
    assert_eq!(
        TransactionValidityError::MessageDoesNotExist(nonce).to_string(),
        "The specified message doesn't exist"
    );
    assert_eq!(
        TransactionValidityError::MessageSenderMismatch(nonce).to_string(),
        "The input message sender doesn't match the relayer message sender"
    );
    assert_eq!(
        TransactionValidityError::MessageRecipientMismatch(nonce).to_string(),
        "The input message recipient doesn't match the relayer message recipient"
    );
    assert_eq!(
        TransactionValidityError::MessageAmountMismatch(nonce).to_string(),
        "The input message amount doesn't match the relayer message amount"
    );
    assert_eq!(
        TransactionValidityError::MessageNonceMismatch(nonce).to_string(),
        "The input message nonce doesn't match the relayer message nonce"
    );
    assert_eq!(
        TransactionValidityError::MessageDataMismatch(nonce).to_string(),
        "The input message data doesn't match the relayer message data"
    );
}

#[test]
fn invalid_inputs_name_identifiers_in_hex() {
    assert_eq!(
        TransactionValidityError::InvalidContractInputIndex(UtxoId::new(id_of(0xab), 7))
            .to_string(),
        format!("Contract output index isn't valid: {}07", shown("ab"))
    );
    assert_eq!(
        TransactionValidityError::PredicateExecutionDisabled(id_of(0x44)).to_string(),
        format!(
            "The transaction contains predicate inputs which aren't enabled: {}",
            shown("44")
        )
    );
    assert_eq!(
        TransactionValidityError::InvalidPredicate(Bytes32::zeroed()).to_string(),
        format!(
            "The transaction contains a predicate which failed to validate: TransactionId({})",
            ZEROS
        )
    );
}

#[test]
fn a_failed_validation_is_spelled_out_over_lines() {
    assert_eq!(
        TransactionValidityError::Validation(CheckError::Validity(
            ValidityError::TransactionMaturity
        ))
        .to_string(),
        "Transaction validity: Validity(\n    TransactionMaturity,\n)"
    );
    assert_eq!(
        TransactionValidityError::Validation(CheckError::PredicateVerificationFailed).to_string(),
        "Transaction validity: PredicateVerificationFailed"
    );
}

fn rules() -> Vec<ValidityError> {
    vec![
        ValidityError::NoSpendableInput,
        ValidityError::TransactionGasLimit,
        ValidityError::TransactionMaturity,
        ValidityError::TransactionInputsMax,
        ValidityError::TransactionOutputsMax,
        ValidityError::ArithmeticOverflow,
    ]
}

#[test]
fn check_errors_read_as_std_debug_shows_them() {
    let mut errors: Vec<CheckError> = rules().into_iter().map(CheckError::Validity).collect();
    errors.push(CheckError::PredicateVerificationFailed);
    for error in errors {
        let mut line = String::new();
        error.append_to(&mut line);
        assert_eq!(line, format!("{:?}", error));
        let mut lines = String::new();
        error.append_pretty_to(&mut lines);
        assert_eq!(lines, format!("{:#?}", error));
        assert_eq!(Error::InvalidTransaction(error).to_string(), format!("{:?}", error));
    }
}

#[test]
fn rules_are_named() {
    assert_eq!(ValidityError::NoSpendableInput.name(), "NoSpendableInput");
    for rule in rules() {
        assert_eq!(rule.name(), format!("{:?}", rule));
    }
}

#[test]
fn an_invalid_transaction_reads_as_its_check_error() {
    assert_eq!(
        Error::InvalidTransaction(CheckError::Validity(ValidityError::NoSpendableInput))
            .to_string(),
        "Validity(NoSpendableInput)"
    );
    assert_eq!(
        Error::InvalidTransaction(CheckError::PredicateVerificationFailed).to_string(),
        "PredicateVerificationFailed"
    );
}

#[test]
fn invalid_inputs_convert_into_the_wrapping_failure() {
    let utxo = UtxoId::new(id_of(9), 1);
    let failure = Error::from(TransactionValidityError::CoinAlreadySpent(utxo));
    assert!(matches!(
        failure,
        Error::TransactionValidity(TransactionValidityError::CoinAlreadySpent(u)) if u == utxo
    ));
}

#[test]
fn the_wrapping_failure_reads_as_what_it_wraps() {
    let utxo = UtxoId::new(id_of(9), 1);
    let nonce = Nonce(id_of(8));
    let make: Vec<fn(UtxoId, Nonce) -> TransactionValidityError> = vec![
        |u, _| TransactionValidityError::CoinAlreadySpent(u),
        |u, _| TransactionValidityError::CoinHasNotMatured(u),
        |u, _| TransactionValidityError::CoinDoesNotExist(u),
        |_, n| TransactionValidityError::MessageAlreadySpent(n),
        |_, n| TransactionValidityError::MessageSpendTooEarly(n),
        |_, n| TransactionValidityError::MessageDoesNotExist(n),
        |_, n| TransactionValidityError::MessageSenderMismatch(n),
        |_, n| TransactionValidityError::MessageRecipientMismatch(n),
        |_, n| TransactionValidityError::MessageAmountMismatch(n),
        |_, n| TransactionValidityError::MessageNonceMismatch(n),
        |_, n| TransactionValidityError::MessageDataMismatch(n),
        |u, _| TransactionValidityError::InvalidContractInputIndex(u),
        |u, _| TransactionValidityError::PredicateExecutionDisabled(u.tx_id),
        |u, _| TransactionValidityError::InvalidPredicate(u.tx_id),
        |_, _| TransactionValidityError::Validation(CheckError::Validity(
            ValidityError::ArithmeticOverflow,
        )),
    ];
    for f in make {
        let own = f(utxo, nonce).to_string();
        assert_eq!(Error::from(f(utxo, nonce)).to_string(), own);
    }
}

#[test]
fn check_and_validity_errors_convert_both_ways_without_double_wrapping() {
    let rule = ValidityError::TransactionInputsMax;

    assert_eq!(CheckError::from(rule), CheckError::Validity(rule));

    assert!(matches!(
        Error::from(CheckError::Validity(rule)),
        Error::InvalidTransaction(CheckError::Validity(r)) if r == rule
    ));
    assert!(matches!(
        Error::from(CheckError::PredicateVerificationFailed),
        Error::InvalidTransaction(CheckError::PredicateVerificationFailed)
    ));
    assert!(matches!(
        Error::from(rule),
        Error::InvalidTransaction(CheckError::Validity(r)) if r == rule
    ));

    assert!(matches!(
        TransactionValidityError::from(CheckError::Validity(rule)),
        TransactionValidityError::Validation(CheckError::Validity(r)) if r == rule
    ));
    assert!(matches!(
        TransactionValidityError::from(CheckError::PredicateVerificationFailed),
        TransactionValidityError::Validation(CheckError::PredicateVerificationFailed)
    ));
    assert!(matches!(
        TransactionValidityError::from(rule),
        TransactionValidityError::Validation(CheckError::Validity(r)) if r == rule
    ));
}

#[test]
fn a_failure_becomes_a_cause_that_shows_its_message() {
    let opaque = anyhow::Error::from(Error::MintMissing);
    assert_eq!(opaque.to_string(), "The block is missing `Mint` transaction.");

    let opaque = anyhow::Error::from(Error::TransactionIdCollision(id_of(0x77)));
    assert_eq!(opaque.to_string(), format!("Transaction id was already used: {}", shown("77")));

    let opaque: anyhow::Error = Error::StorageError(cause("disk is gone")).into();
    assert_eq!(opaque.to_string(), "got error during work with storage disk is gone");
    // the structure is gone: the cause is not kept as a source
    assert!(opaque.source().is_none());
    assert!(opaque.downcast_ref::<String>().is_some());
}

#[test]
fn a_failure_made_a_cause_can_be_carried_again() {
    let inner = anyhow::Error::from(Error::InvalidBlockId);
    assert_eq!(
        Error::RelayerError(inner).to_string(),
        "got error during work with relayer Block id is invalid"
    );
}

fn check_inputs(spent: bool) -> executor_types::Result<u8> {
    let inputs: Result<u8, TransactionValidityError> = if spent {
        Err(TransactionValidityError::CoinAlreadySpent(UtxoId::new(Bytes32::zeroed(), 0)))
    } else {
        Ok(1)
    };
    Ok(inputs? + 1)
}

#[test]
fn the_question_mark_converts_invalid_inputs() {
    assert!(matches!(check_inputs(false), Ok(2)));
    assert!(matches!(
        check_inputs(true),
        Err(Error::TransactionValidity(TransactionValidityError::CoinAlreadySpent(_)))
    ));
}

fn sendable<T: Send + Sync + 'static>(_: &T) -> bool {
    true
}

#[test]
fn failures_can_cross_threads() {
    assert!(sendable(&Error::RelayerError(cause("relayer"))));
    assert!(sendable(&TransactionValidityError::MessageDoesNotExist(Nonce(id_of(1)))));
}
