//! Whether the service is active, read from what `systemctl is-active` prints.

use vstd::prelude::*;
use crate::gateway::{CommandOutput, Invocation, LaunchFailure};

verus! {

/// What `str::trim` returns for a text: the text without the white space at
/// its two ends.
pub uninterp spec fn trimmed(text: Seq<char>) -> Seq<char>;

/// What is shown when the service's state could not be told.
pub open spec fn status_error_text() -> Seq<char> {
    "Error while getting status"@
}

/// The status shown for an answer that has already been trimmed: the answer
/// itself where it is one of the two known states, the error text otherwise.
pub open spec fn status_text(answer: Seq<char>) -> Seq<char> {
    if answer == "active"@ || answer == "inactive"@ {
        answer
    } else {
        status_error_text()
    }
}

/// The status shown for the outcome of asking `systemctl`: that of the
/// trimmed output, or the error text where `systemctl` never started.
pub open spec fn status_of(outcome: Result<CommandOutput, LaunchFailure>) -> Seq<char> {
    match outcome {
        Ok(output) => status_text(trimmed(output.stdout@)),
        Err(_) => status_error_text(),
    }
}

/// `str::trim`: the result is the text without leading and trailing white
/// space, as the standard library defines white space. Nothing more is
/// claimed of it than that it depends on the text alone.
#[verifier::external_body]
fn trim(text: &str) -> (inner: &str)
    ensures
        inner@ == trimmed(text@),
{
    text.trim()
}

/// Whether two texts are the same.
fn same_text(left: &str, right: &str) -> (same: bool)
    ensures
        same == (left@ == right@),
{
    String::from_str(left) == String::from_str(right)
}

/// How the service's state is asked for: `systemctl is-active nginx`.
pub fn status_invocation() -> (inv: Invocation)
    ensures
        inv.program_text() == "systemctl"@,
        inv.arg_texts() == seq!["is-active"@, "nginx"@],
{
    Invocation::with_two_args("systemctl", "is-active", "nginx")
}

/// The status shown for an answer that has already been trimmed.
pub fn status_from_trimmed(answer: &str) -> (status: String)
    ensures
        status@ == status_text(answer@),
{
    if same_text(answer, "active") || same_text(answer, "inactive") {
        String::from_str(answer)
    } else {
        String::from_str("Error while getting status")
    }
}

/// The status shown for the outcome of asking `systemctl`.
pub fn get_nginx_status(outcome: &Result<CommandOutput, LaunchFailure>) -> (status: String)
    ensures
        status@ == status_of(*outcome),
{
    match outcome {
        Ok(output) => status_from_trimmed(trim(output.stdout.as_str())),
        Err(_) => String::from_str("Error while getting status"),
    }
}

/// The status shown is always one of three texts.
pub proof fn lemma_status_is_one_of_three(answer: Seq<char>)
    ensures
        status_text(answer) == "active"@ || status_text(answer) == "inactive"@ || status_text(
            answer,
        ) == status_error_text(),
{
}

/// Whatever the outcome of asking, the status shown is one of three texts.
pub proof fn lemma_status_of_is_one_of_three(outcome: Result<CommandOutput, LaunchFailure>)
    ensures
        status_of(outcome) == "active"@ || status_of(outcome) == "inactive"@ || status_of(outcome)
            == status_error_text(),
{
}

} // verus!
