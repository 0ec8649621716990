//! The ways in which a run can fail, the exit code of each and what is said
//! of it to the user.

use crate::client::{API_URL_VARIABLE, TOKEN_VARIABLE, USERNAME_VARIABLE};
use crate::text::{decimal, decimal_of};
use vstd::prelude::*;
use vstd::string::StringExecFns;

verus! {

/// Why a run ended without its branch.
#[derive(Debug, Clone, Copy, PartialEq, Eq, Structural)]
pub enum Error {
    /// No text to look for a ticket key in was given.
    MissingArgument,
    /// The text given holds no ticket key.
    NoTicketKeyFound,
    /// The tracker's token is unset or empty.
    MissingToken,
    /// The tracker's address is unset or empty.
    MissingApiUrl,
    /// The tracker's user name is unset or empty.
    MissingUsername,
    /// The request did not reach the tracker, or no answer came back.
    RequestFailed,
    /// The tracker answered with a status outside 200 to 299.
    ApiError { status: u16 },
    /// The tracker's answer does not hold a key and a summary.
    MalformedResponse,
    /// The working directory is not inside a repository.
    RepositoryNotFound,
    /// The repository's head does not resolve to a commit.
    NoHeadCommit,
    /// The repository has a branch of that name already.
    BranchAlreadyExists,
    /// The repository refused the branch for another reason.
    BranchNotCreated,
    /// The branch was created and could not be made the active one.
    ActivationFailed,
    /// An event came that the state of the run does not expect.
    UnexpectedEvent,
}

/// The exit code for an error.
pub open spec fn exit_code_of(error: Error) -> int {
    match error {
        Error::MissingArgument => 2,
        Error::NoTicketKeyFound => -1,
        Error::MissingToken => -2,
        Error::MissingApiUrl => -3,
        Error::MissingUsername => -4,
        Error::RequestFailed => 10,
        Error::ApiError { .. } => 11,
        Error::MalformedResponse => 12,
        Error::RepositoryNotFound => 20,
        Error::NoHeadCommit => 21,
        Error::BranchAlreadyExists => 22,
        Error::BranchNotCreated => 23,
        Error::ActivationFailed => 24,
        Error::UnexpectedEvent => 70,
    }
}

/// What a parent process sees of an exit code: its lowest eight bits.
pub open spec fn exit_status_of(error: Error) -> int {
    exit_code_of(error) % 256
}

/// Two errors are of one kind where they differ at most in the status that
/// the tracker answered with.
pub open spec fn same_kind(a: Error, b: Error) -> bool {
    a == b || (a is ApiError && b is ApiError)
}

/// What is said of a variable of the environment that is not set or empty.
pub open spec fn missing_variable_message_of(variable: Seq<char>) -> Seq<char> {
    "missing environment variable "@ + variable
}

/// What is said to the user of an error.
pub open spec fn message_of(error: Error) -> Seq<char> {
    match error {
        Error::MissingArgument => "Usage: cargo run <jira_issue>"@,
        Error::NoTicketKeyFound => "could not find jira issue key"@,
        Error::MissingToken => missing_variable_message_of(TOKEN_VARIABLE@),
        Error::MissingApiUrl => missing_variable_message_of(API_URL_VARIABLE@),
        Error::MissingUsername => missing_variable_message_of(USERNAME_VARIABLE@),
        Error::RequestFailed => "Failed to make the request"@,
        Error::ApiError { status } => "Error: "@ + decimal_of(
            status as nat,
        ),
        Error::MalformedResponse => "Failed to parse JSON"@,
        Error::RepositoryNotFound => "Failed to open repository"@,
        Error::NoHeadCommit => "Failed to get HEAD reference"@,
        Error::BranchAlreadyExists => "Failed to create branch: it exists already"@,
        Error::BranchNotCreated => "Failed to create branch"@,
        Error::ActivationFailed => "Failed to checkout branch"@,
        Error::UnexpectedEvent => "Unexpected event"@,
    }
}

/// No error exits with 0, and errors of two kinds exit with two codes, also
/// as a parent process sees them.
pub proof fn lemma_exit_codes_tell_errors_apart(a: Error, b: Error)
    ensures
        exit_code_of(a) != 0,
        0 < exit_status_of(a) < 256,
        exit_code_of(a) == exit_code_of(b) ==> same_kind(a, b),
        exit_status_of(a) == exit_status_of(b) ==> same_kind(a, b),
{
}

fn missing_variable_message(variable: &str) -> (text: String)
    ensures
        text@ == missing_variable_message_of(variable@),
{
    let mut text = String::from_str("missing environment variable ");
    text.append(variable);
    text
}

impl Error {
    /// The code that the process exits with: never 0, and another for each
    /// kind of error.
    pub fn exit_code(&self) -> (code: i32)
        ensures
            code == exit_code_of(*self),
            code != 0,
    {
        match self {
            Error::MissingArgument => 2,
            Error::NoTicketKeyFound => -1,
            Error::MissingToken => -2,
            Error::MissingApiUrl => -3,
            Error::MissingUsername => -4,
            Error::RequestFailed => 10,
            Error::ApiError { .. } => 11,
            Error::MalformedResponse => 12,
            Error::RepositoryNotFound => 20,
            Error::NoHeadCommit => 21,
            Error::BranchAlreadyExists => 22,
            Error::BranchNotCreated => 23,
            Error::ActivationFailed => 24,
            Error::UnexpectedEvent => 70,
        }
    }

    /// The line that tells the user what went wrong.
    pub fn message(&self) -> (text: String)
        ensures
            text@ == message_of(*self),
    {
        match self {
            Error::MissingArgument => String::from_str("Usage: cargo run <jira_issue>"),
            Error::NoTicketKeyFound => String::from_str("could not find jira issue key"),
            Error::MissingToken => missing_variable_message(TOKEN_VARIABLE),
            Error::MissingApiUrl => missing_variable_message(API_URL_VARIABLE),
            Error::MissingUsername => missing_variable_message(USERNAME_VARIABLE),
            Error::RequestFailed => String::from_str("Failed to make the request"),
            Error::ApiError { status } => {
                let mut text = String::from_str("Error: ");
                let digits = decimal(*status);
                text.append(digits.as_str());
                text
            },
            Error::MalformedResponse => String::from_str("Failed to parse JSON"),
            Error::RepositoryNotFound => String::from_str("Failed to open repository"),
            Error::NoHeadCommit => String::from_str("Failed to get HEAD reference"),
            Error::BranchAlreadyExists => String::from_str(
                "Failed to create branch: it exists already",
            ),
            Error::BranchNotCreated => String::from_str("Failed to create branch"),
            Error::ActivationFailed => String::from_str("Failed to checkout branch"),
            Error::UnexpectedEvent => String::from_str("Unexpected event"),
        }
    }
}

} // verus!
