use git_jira::client::{Environment, Payload};
use git_jira::error::Error;
use git_jira::workflow::{start, step, Action, Event, State};

const BRANCH: &str = "feature/NTA-1966-add-oauth-support";

fn environment(token: Option<&str>, api_url: Option<&str>, username: Option<&str>) -> Environment {
    Environment {
        token: token.map(String::from),
        api_url: api_url.map(String::from),
        username: username.map(String::from),
    }
}

fn full_environment() -> Environment {
    environment(Some("token"), Some("https://jira.example.com"), Some("user"))
}

fn ticket() -> Event {
    Event::Body {
        payload: Some(Payload {
            key: String::from("NTA-1966"),
            summary: String::from("Add OAuth Support"),
        }),
    }
}

fn every_event() -> Vec<Event> {
    vec![
        Event::RequestFailed,
        Event::Status { code: 200 },
        Event::Status { code: 404 },
        ticket(),
        Event::Body { payload: None },
        Event::Done,
        Event::Exists,
        Event::Refused,
    ]
}

fn state_with_branch(make: fn(String) -> State) -> State {
    make(String::from(BRANCH))
}

fn opening(branch: String) -> State {
    State::OpeningRepository { branch }
}

fn resolving(branch: String) -> State {
    State::ResolvingHead { branch }
}

fn creating(branch: String) -> State {
    State::CreatingBranch { branch }
}

fn activating(branch: String) -> State {
    State::Activating { branch }
}

fn abort(error: Error) -> (State, Action) {
    (State::Finished, Action::Abort { error })
}

/// Runs from `start` on and returns every action.
fn run(argument: Option<&str>, env: &Environment, events: Vec<Event>) -> Vec<Action> {
    let (mut state, action) = start(argument, env);
    let mut actions = vec![action];
    for event in events {
        let (next, action) = step(state, event);
        state = next;
        actions.push(action);
    }
    actions
}

fn touches_repository(action: &Action) -> bool {
    matches!(
        action,
        Action::OpenRepository
            | Action::ResolveHead
            | Action::CreateBranch { .. }
            | Action::Activate { .. }
    )
}

#[test]
fn a_ticket_becomes_the_active_branch() {
    let env = full_environment();
    let (state, action) = start(Some("see ticket NTA-1966 for details"), &env);
    assert_eq!(state, State::AwaitingStatus);
    assert_eq!(
        action,
        Action::Fetch {
            url: String::from("https://jira.example.com/rest/api/latest/issue/NTA-1966"),
            authorization: String::from("Basic dXNlcjp0b2tlbg=="),
        }
    );
    let (state, action) = step(state, Event::Status { code: 200 });
    assert_eq!(state, State::AwaitingBody);
    assert_eq!(action, Action::ReadBody);
    let (state, action) = step(state, ticket());
    assert_eq!(state, State::OpeningRepository { branch: String::from(BRANCH) });
    assert_eq!(action, Action::OpenRepository);
    let (state, action) = step(state, Event::Done);
    assert_eq!(state, State::ResolvingHead { branch: String::from(BRANCH) });
    assert_eq!(action, Action::ResolveHead);
    let (state, action) = step(state, Event::Done);
    assert_eq!(state, State::CreatingBranch { branch: String::from(BRANCH) });
    assert_eq!(action, Action::CreateBranch { name: String::from(BRANCH), force: false });
    let (state, action) = step(state, Event::Done);
    assert_eq!(state, State::Activating { branch: String::from(BRANCH) });
    assert_eq!(action, Action::Activate { name: String::from(BRANCH) });
    let (state, action) = step(state, Event::Done);
    assert_eq!(state, State::Finished);
    assert_eq!(action, Action::Finish { branch: String::from(BRANCH) });
}

#[test]
fn a_full_run_is_seven_actions() {
    let actions = run(
        Some("NTA-1966"),
        &full_environment(),
        vec![Event::Status { code: 204 }, ticket(), Event::Done, Event::Done, Event::Done, Event::Done],
    );
    assert_eq!(
        actions,
        vec![
            Action::Fetch {
                url: String::from("https://jira.example.com/rest/api/latest/issue/NTA-1966"),
                authorization: String::from("Basic dXNlcjp0b2tlbg=="),
            },
            Action::ReadBody,
            Action::OpenRepository,
            Action::ResolveHead,
            Action::CreateBranch { name: String::from(BRANCH), force: false },
            Action::Activate { name: String::from(BRANCH) },
            Action::Finish { branch: String::from(BRANCH) },
        ]
    );
}

#[test]
fn the_branch_is_named_after_the_ticket_that_the_tracker_reports() {
    let body = Event::Body {
        payload: Some(Payload {
            key: String::from("XY-7"),
            summary: String::from("Fix Login Bug! #42"),
        }),
    };
    let (state, action) = step(State::AwaitingBody, body);
    assert_eq!(state, State::OpeningRepository { branch: String::from("feature/XY-7-fix-login-bug-42") });
    assert_eq!(action, Action::OpenRepository);
}

#[test]
fn a_run_without_text_ends_at_once() {
    assert_eq!(start(None, &full_environment()), abort(Error::MissingArgument));
    assert_eq!(start(None, &environment(None, None, None)), abort(Error::MissingArgument));
}

#[test]
fn a_text_without_a_key_ends_the_run() {
    assert_eq!(start(Some("no ticket here"), &full_environment()), abort(Error::NoTicketKeyFound));
    assert_eq!(start(Some("nta-1966"), &full_environment()), abort(Error::NoTicketKeyFound));
    assert_eq!(start(Some(""), &full_environment()), abort(Error::NoTicketKeyFound));
}

#[test]
fn the_key_is_looked_for_before_the_settings() {
    assert_eq!(
        start(Some("no ticket here"), &environment(None, None, None)),
        abort(Error::NoTicketKeyFound)
    );
}

#[test]
fn a_missing_setting_ends_the_run() {
    let url = Some("https://jira.example.com");
    assert_eq!(
        start(Some("NTA-1966"), &environment(None, url, Some("user"))),
        abort(Error::MissingToken)
    );
    assert_eq!(
        start(Some("NTA-1966"), &environment(Some("token"), None, Some("user"))),
        abort(Error::MissingApiUrl)
    );
    assert_eq!(
        start(Some("NTA-1966"), &environment(Some("token"), url, None)),
        abort(Error::MissingUsername)
    );
    assert_eq!(
        start(Some("NTA-1966"), &environment(Some(""), url, Some("user"))),
        abort(Error::MissingToken)
    );
    assert_eq!(start(Some("NTA-1966"), &environment(None, None, None)), abort(Error::MissingToken));
}

#[test]
fn missing_settings_end_apart_and_before_any_request() {
    let url = Some("https://jira.example.com");
    let without_token = environment(None, url, Some("user"));
    let without_address = environment(Some("token"), None, Some("user"));
    let first = run(Some("NTA-1966"), &without_token, every_event());
    let second = run(Some("NTA-1966"), &without_address, every_event());
    assert_eq!(first[0], Action::Abort { error: Error::MissingToken });
    assert_eq!(second[0], Action::Abort { error: Error::MissingApiUrl });
    assert_ne!(Error::MissingToken.exit_code(), Error::MissingApiUrl.exit_code());
    for action in first.iter().chain(second.iter()) {
        assert!(!matches!(action, Action::Fetch { .. }), "{:?}", action);
        assert!(!touches_repository(action), "{:?}", action);
    }
}

#[test]
fn the_request_is_the_first_action_only() {
    let actions = run(Some("NTA-1966"), &full_environment(), every_event());
    assert!(matches!(actions[0], Action::Fetch { .. }));
    for action in &actions[1..] {
        assert!(!matches!(action, Action::Fetch { .. }), "{:?}", action);
    }
}

#[test]
fn a_request_that_failed_ends_the_run() {
    assert_eq!(step(State::AwaitingStatus, Event::RequestFailed), abort(Error::RequestFailed));
}

#[test]
fn a_status_that_is_no_success_ends_the_run() {
    assert_eq!(
        step(State::AwaitingStatus, Event::Status { code: 404 }),
        abort(Error::ApiError { status: 404 })
    );
    assert_eq!(
        step(State::AwaitingStatus, Event::Status { code: 199 }),
        abort(Error::ApiError { status: 199 })
    );
    assert_eq!(
        step(State::AwaitingStatus, Event::Status { code: 300 }),
        abort(Error::ApiError { status: 300 })
    );
    assert_eq!(
        step(State::AwaitingStatus, Event::Status { code: 299 }),
        (State::AwaitingBody, Action::ReadBody)
    );
}

#[test]
fn after_a_404_the_repository_is_left_alone() {
    let mut events = vec![Event::Status { code: 404 }];
    events.extend(every_event());
    let actions = run(Some("NTA-1966"), &full_environment(), events);
    assert_eq!(actions[1], Action::Abort { error: Error::ApiError { status: 404 } });
    for action in &actions {
        assert!(!touches_repository(action), "{:?}", action);
    }
    for action in &actions[2..] {
        assert_eq!(*action, Action::Abort { error: Error::UnexpectedEvent });
    }
}

#[test]
fn a_malformed_body_ends_the_run() {
    assert_eq!(
        step(State::AwaitingBody, Event::Body { payload: None }),
        abort(Error::MalformedResponse)
    );
    let without_summary = Event::Body {
        payload: Some(Payload { key: String::from("NTA-1966"), summary: String::new() }),
    };
    assert_eq!(step(State::AwaitingBody, without_summary), abort(Error::MalformedResponse));
    let without_key = Event::Body {
        payload: Some(Payload { key: String::new(), summary: String::from("Add OAuth Support") }),
    };
    assert_eq!(step(State::AwaitingBody, without_key), abort(Error::MalformedResponse));
}

#[test]
fn what_the_repository_refuses_ends_the_run() {
    assert_eq!(
        step(state_with_branch(opening), Event::Refused),
        abort(Error::RepositoryNotFound)
    );
    assert_eq!(step(state_with_branch(resolving), Event::Refused), abort(Error::NoHeadCommit));
    assert_eq!(step(state_with_branch(creating), Event::Refused), abort(Error::BranchNotCreated));
    assert_eq!(
        step(state_with_branch(activating), Event::Refused),
        abort(Error::ActivationFailed)
    );
}

#[test]
fn a_branch_that_exists_is_kept() {
    assert_eq!(
        step(state_with_branch(creating), Event::Exists),
        abort(Error::BranchAlreadyExists)
    );
    let mut events =
        vec![Event::Status { code: 200 }, ticket(), Event::Done, Event::Done, Event::Exists];
    events.extend(every_event());
    let actions = run(Some("NTA-1966"), &full_environment(), events);
    assert_eq!(actions[4], Action::CreateBranch { name: String::from(BRANCH), force: false });
    assert_eq!(actions[5], Action::Abort { error: Error::BranchAlreadyExists });
    for action in &actions {
        assert!(!matches!(action, Action::Activate { .. }), "{:?}", action);
        assert!(!matches!(action, Action::CreateBranch { force: true, .. }), "{:?}", action);
    }
    for action in &actions[5..] {
        assert!(!touches_repository(action), "{:?}", action);
    }
}

#[test]
fn no_branch_is_created_by_force() {
    let makers: [fn(String) -> State; 4] = [opening, resolving, creating, activating];
    for make in makers {
        for event in every_event() {
            let (_, action) = step(state_with_branch(make), event);
            assert!(!matches!(action, Action::CreateBranch { force: true, .. }), "{:?}", action);
        }
    }
}

#[test]
fn an_event_that_is_not_waited_for_ends_the_run() {
    let unexpected = abort(Error::UnexpectedEvent);
    assert_eq!(step(State::AwaitingStatus, Event::Done), unexpected);
    assert_eq!(step(State::AwaitingStatus, ticket()), unexpected);
    assert_eq!(step(State::AwaitingBody, Event::Status { code: 200 }), unexpected);
    assert_eq!(step(State::AwaitingBody, Event::RequestFailed), unexpected);
    assert_eq!(step(State::AwaitingBody, Event::Done), unexpected);
    assert_eq!(step(state_with_branch(opening), Event::Exists), unexpected);
    assert_eq!(step(state_with_branch(opening), ticket()), unexpected);
    assert_eq!(step(state_with_branch(resolving), Event::Exists), unexpected);
    assert_eq!(step(state_with_branch(resolving), Event::Status { code: 200 }), unexpected);
    assert_eq!(step(state_with_branch(creating), Event::RequestFailed), unexpected);
    assert_eq!(step(state_with_branch(activating), Event::Exists), unexpected);
    assert_eq!(step(state_with_branch(activating), Event::Body { payload: None }), unexpected);
}

#[test]
fn a_run_that_is_over_stays_over() {
    for event in every_event() {
        assert_eq!(step(State::Finished, event), abort(Error::UnexpectedEvent));
    }
}
