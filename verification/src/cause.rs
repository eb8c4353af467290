//! Causes from the layers below: failures of storage, of the relayer and of
//! the virtual machine's own storage reach this crate as `anyhow::Error`
//! values.  They are carried as they come, and read only for the text they
//! show.

// `anyhow::Error`, under a name of its own here: `Error` is this crate's own
// failure type.
use anyhow::Error as Cause;
use vstd::prelude::*;
use vstd::string::to_string_from_display_ensures;

verus! {

/// `anyhow::Error`, taken as a value that cannot be looked into.
#[verifier::external_type_specification]
#[verifier::external_body]
pub struct ExCause(Cause);

/// Whether `text` is what `cause` shows when it is displayed.
pub open spec fn shows(cause: &Cause, text: Seq<char>) -> bool {
    exists|shown: String|
        #![trigger to_string_from_display_ensures::<Cause>(cause, shown)]
        to_string_from_display_ensures::<Cause>(cause, shown) && shown@ == text
}

/// The text that `cause` shows when it is displayed.
pub fn shown_text(cause: &Cause) -> (text: String)
    ensures
        shows(cause, text@),
{
    cause.to_string()
}

/// Calls `anyhow::Error::msg` on a `String`.
///
/// The error that `msg` makes of a message displays as that message does,
/// and a `String` displays as its own text: so whatever the new error shows
/// is `message`.  This is taken from the source of `anyhow`, not proved.
#[verifier::external_body]
pub(crate) fn error_of_message(message: String) -> (error: Cause)
    ensures
        forall|text: Seq<char>| shows(&error, text) ==> text == message@,
{
    Cause::msg(message)
}

} // verus!
