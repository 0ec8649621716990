//! A run, step by step.
//!
//! The library decides and the caller acts. `start` looks at the text and the
//! settings and names the first action. The caller performs each action,
//! reports what came of it as an event, and `step` names the next action,
//! until the action is `Finish` or `Abort`.
//!
//! | action           | events that answer it                                  |
//! |------------------|--------------------------------------------------------|
//! | `Fetch`          | `Status` with the answer's status, or `RequestFailed`  |
//! | `ReadBody`       | `Body`                                                 |
//! | `OpenRepository` | `Done`, or `Refused` where there is no repository      |
//! | `ResolveHead`    | `Done`, or `Refused` where head has no commit          |
//! | `CreateBranch`   | `Done`, `Exists` where the name is taken, or `Refused` |
//! | `Activate`       | `Done`, or `Refused`                                   |

use crate::branch::{branch_name, branch_name_of};
use crate::client::{
    basic_auth_header, basic_auth_of, body_view, credentials_of, is_success, is_success_status,
    issue_of, issue_url, issue_url_of, Credentials, Environment, EnvironmentModel, Issue,
    Payload, PayloadModel,
};
use crate::error::Error;
use crate::key::{extract_jira_issue_key, first_key};
use vstd::prelude::*;

verus! {

/// What the caller is to do next.
#[derive(Debug, PartialEq, Eq)]
pub enum Action {
    /// Send a GET request to `url` with `authorization` as the value of its
    /// authorization header.
    Fetch { url: String, authorization: String },
    /// Read the body of the answer as a key and a summary.
    ReadBody,
    /// Open the repository that the working directory is in.
    OpenRepository,
    /// Resolve the repository's head to a commit.
    ResolveHead,
    /// Create the branch `name` at that commit. `force` says whether a branch
    /// of that name may be overwritten: it never may.
    CreateBranch { name: String, force: bool },
    /// Make the branch `name` the active one.
    Activate { name: String },
    /// The branch is there and active: say so and exit with 0.
    Finish { branch: String },
    /// Report `error` and exit with its code.
    Abort { error: Error },
}

/// What the contracts see of an `Action`.
pub enum ActionModel {
    Fetch { url: Seq<char>, authorization: Seq<char> },
    ReadBody,
    OpenRepository,
    ResolveHead,
    CreateBranch { name: Seq<char>, force: bool },
    Activate { name: Seq<char> },
    Finish { branch: Seq<char> },
    Abort { error: Error },
}

impl View for Action {
    type V = ActionModel;

    open spec fn view(&self) -> ActionModel {
        match self {
            Action::Fetch { url, authorization } => ActionModel::Fetch {
                url: url@,
                authorization: authorization@,
            },
            Action::ReadBody => ActionModel::ReadBody,
            Action::OpenRepository => ActionModel::OpenRepository,
            Action::ResolveHead => ActionModel::ResolveHead,
            Action::CreateBranch { name, force } => ActionModel::CreateBranch {
                name: name@,
                force: *force,
            },
            Action::Activate { name } => ActionModel::Activate { name: name@ },
            Action::Finish { branch } => ActionModel::Finish { branch: branch@ },
            Action::Abort { error } => ActionModel::Abort { error: *error },
        }
    }
}

/// What came of the last action.
#[derive(Debug, PartialEq, Eq)]
pub enum Event {
    /// The request did not reach the tracker, or no answer came back.
    RequestFailed,
    /// The tracker answered with this status.
    Status { code: u16 },
    /// The body of the answer: `None` where it could not be read as a key and
    /// a summary.
    Body { payload: Option<Payload> },
    /// The repository did what was asked.
    Done,
    /// The repository has a branch of that name already.
    Exists,
    /// The repository could not do what was asked.
    Refused,
}

/// What the contracts see of an `Event`.
pub enum EventModel {
    RequestFailed,
    Status { code: u16 },
    Body { payload: Option<PayloadModel> },
    Done,
    Exists,
    Refused,
}

impl View for Event {
    type V = EventModel;

    open spec fn view(&self) -> EventModel {
        match self {
            Event::RequestFailed => EventModel::RequestFailed,
            Event::Status { code } => EventModel::Status { code: *code },
            Event::Body { payload } => EventModel::Body { payload: body_view(*payload) },
            Event::Done => EventModel::Done,
            Event::Exists => EventModel::Exists,
            Event::Refused => EventModel::Refused,
        }
    }
}

/// How far a run has come: which answer it waits for, and with which branch
/// name once the ticket is known.
#[derive(Debug, PartialEq, Eq)]
pub enum State {
    /// The request is out.
    AwaitingStatus,
    /// The tracker answered with success; the body is being read.
    AwaitingBody,
    /// The repository is being opened.
    OpeningRepository { branch: String },
    /// The head is being resolved.
    ResolvingHead { branch: String },
    /// The branch is being created.
    CreatingBranch { branch: String },
    /// The branch is being made the active one.
    Activating { branch: String },
    /// The run is over.
    Finished,
}

/// What the contracts see of a `State`.
pub enum StateModel {
    AwaitingStatus,
    AwaitingBody,
    OpeningRepository { branch: Seq<char> },
    ResolvingHead { branch: Seq<char> },
    CreatingBranch { branch: Seq<char> },
    Activating { branch: Seq<char> },
    Finished,
}

impl View for State {
    type V = StateModel;

    open spec fn view(&self) -> StateModel {
        match self {
            State::AwaitingStatus => StateModel::AwaitingStatus,
            State::AwaitingBody => StateModel::AwaitingBody,
            State::OpeningRepository { branch } => StateModel::OpeningRepository {
                branch: branch@,
            },
            State::ResolvingHead { branch } => StateModel::ResolvingHead { branch: branch@ },
            State::CreatingBranch { branch } => StateModel::CreatingBranch { branch: branch@ },
            State::Activating { branch } => StateModel::Activating { branch: branch@ },
            State::Finished => StateModel::Finished,
        }
    }
}

/// The text given on the command line as the contracts see it.
pub open spec fn argument_view(argument: Option<&str>) -> Option<Seq<char>> {
    match argument {
        Some(text) => Some(text@),
        None => None,
    }
}

/// The end of a run that failed.
pub open spec fn halt(error: Error) -> (StateModel, ActionModel) {
    (StateModel::Finished, ActionModel::Abort { error })
}

/// How a run begins. The text must be there and hold a key, and no setting
/// may be missing: then the ticket is requested. Else the run ends at once,
/// with the first of these that fails.
pub open spec fn first_step(argument: Option<Seq<char>>, env: EnvironmentModel) -> (
    StateModel,
    ActionModel,
) {
    match argument {
        None => halt(Error::MissingArgument),
        Some(text) => match first_key(text) {
            None => halt(Error::NoTicketKeyFound),
            Some(key) => match credentials_of(env) {
                Err(error) => halt(error),
                Ok(credentials) => (
                    StateModel::AwaitingStatus,
                    ActionModel::Fetch {
                        url: issue_url_of(credentials.api_base_url, key),
                        authorization: basic_auth_of(credentials.username, credentials.token),
                    },
                ),
            },
        },
    }
}

/// How a run goes on after an event. An event that the state does not wait
/// for ends the run with `UnexpectedEvent`.
pub open spec fn next_step(state: StateModel, event: EventModel) -> (StateModel, ActionModel) {
    match state {
        StateModel::AwaitingStatus => match event {
            EventModel::RequestFailed => halt(Error::RequestFailed),
            EventModel::Status { code } => if is_success_status(code) {
                (StateModel::AwaitingBody, ActionModel::ReadBody)
            } else {
                halt(Error::ApiError { status: code })
            },
            _ => halt(Error::UnexpectedEvent),
        },
        StateModel::AwaitingBody => match event {
            EventModel::Body { payload } => match issue_of(payload) {
                Ok(issue) => (
                    StateModel::OpeningRepository {
                        branch: branch_name_of(issue.key, issue.title),
                    },
                    ActionModel::OpenRepository,
                ),
                Err(error) => halt(error),
            },
            _ => halt(Error::UnexpectedEvent),
        },
        StateModel::OpeningRepository { branch } => match event {
            EventModel::Done => (StateModel::ResolvingHead { branch }, ActionModel::ResolveHead),
            EventModel::Refused => halt(Error::RepositoryNotFound),
            _ => halt(Error::UnexpectedEvent),
        },
        StateModel::ResolvingHead { branch } => match event {
            EventModel::Done => (
                StateModel::CreatingBranch { branch },
                ActionModel::CreateBranch { name: branch, force: false },
            ),
            EventModel::Refused => halt(Error::NoHeadCommit),
            _ => halt(Error::UnexpectedEvent),
        },
        StateModel::CreatingBranch { branch } => match event {
            EventModel::Done => (
                StateModel::Activating { branch },
                ActionModel::Activate { name: branch },
            ),
            EventModel::Exists => halt(Error::BranchAlreadyExists),
            EventModel::Refused => halt(Error::BranchNotCreated),
            _ => halt(Error::UnexpectedEvent),
        },
        StateModel::Activating { branch } => match event {
            EventModel::Done => (StateModel::Finished, ActionModel::Finish { branch }),
            EventModel::Refused => halt(Error::ActivationFailed),
            _ => halt(Error::UnexpectedEvent),
        },
        StateModel::Finished => halt(Error::UnexpectedEvent),
    }
}

fn abort(error: Error) -> (end: (State, Action))
    ensures
        end.0@ == halt(error).0,
        end.1@ == halt(error).1,
{
    (State::Finished, Action::Abort { error })
}

/// Begins a run on the text given on the command line, if any, and the
/// settings found in the environment.
///
/// The text must be there (`MissingArgument`) and hold a ticket key
/// (`NoTicketKeyFound`); then the token (`MissingToken`), the tracker's
/// address (`MissingApiUrl`) and the user name (`MissingUsername`) must be
/// set and not empty. The first of these that fails ends the run. Else the
/// first action is the request for the ticket.
pub fn start(argument: Option<&str>, env: &Environment) -> (first: (State, Action))
    ensures
        first.0@ == first_step(argument_view(argument), env@).0,
        first.1@ == first_step(argument_view(argument), env@).1,
{
    let text = match argument {
        Some(text) => text,
        None => { return abort(Error::MissingArgument); },
    };
    let key = match extract_jira_issue_key(text) {
        Some(key) => key,
        None => { return abort(Error::NoTicketKeyFound); },
    };
    let credentials = match Credentials::from_environment(env) {
        Ok(credentials) => credentials,
        Err(error) => { return abort(error); },
    };
    let url = issue_url(credentials.api_base_url.as_str(), key);
    let authorization = basic_auth_header(
        credentials.username.as_str(),
        credentials.token.as_str(),
    );
    (State::AwaitingStatus, Action::Fetch { url, authorization })
}

/// Takes what came of the last action and names the next one.
pub fn step(state: State, event: Event) -> (next: (State, Action))
    ensures
        next.0@ == next_step(state@, event@).0,
        next.1@ == next_step(state@, event@).1,
{
    match state {
        State::AwaitingStatus => match event {
            Event::RequestFailed => abort(Error::RequestFailed),
            Event::Status { code } => {
                if is_success(code) {
                    (State::AwaitingBody, Action::ReadBody)
                } else {
                    abort(Error::ApiError { status: code })
                }
            },
            _ => abort(Error::UnexpectedEvent),
        },
        State::AwaitingBody => match event {
            Event::Body { payload } => match Issue::from_body(payload) {
                Ok(issue) => {
                    let branch = branch_name(issue.key.as_str(), issue.title.as_str());
                    (State::OpeningRepository { branch }, Action::OpenRepository)
                },
                Err(error) => abort(error),
            },
            _ => abort(Error::UnexpectedEvent),
        },
        State::OpeningRepository { branch } => match event {
            Event::Done => (State::ResolvingHead { branch }, Action::ResolveHead),
            Event::Refused => abort(Error::RepositoryNotFound),
            _ => abort(Error::UnexpectedEvent),
        },
        State::ResolvingHead { branch } => match event {
            Event::Done => {
                let name = branch.clone();
                (State::CreatingBranch { branch }, Action::CreateBranch { name, force: false })
            },
            Event::Refused => abort(Error::NoHeadCommit),
            _ => abort(Error::UnexpectedEvent),
        },
        State::CreatingBranch { branch } => match event {
            Event::Done => {
                let name = branch.clone();
                (State::Activating { branch }, Action::Activate { name })
            },
            Event::Exists => abort(Error::BranchAlreadyExists),
            Event::Refused => abort(Error::BranchNotCreated),
            _ => abort(Error::UnexpectedEvent),
        },
        State::Activating { branch } => match event {
            Event::Done => (State::Finished, Action::Finish { branch }),
            Event::Refused => abort(Error::ActivationFailed),
            _ => abort(Error::UnexpectedEvent),
        },
        State::Finished => abort(Error::UnexpectedEvent),
    }
}

} // verus!
