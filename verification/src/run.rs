//! Whole runs, and what holds of every run.
//!
//! A run is the first action and then one action for each event. The laws
//! here say what no sequence of events can bring about: a request without a
//! key or with a setting missing, work on the repository without a ticket, a
//! branch under another name than the ticket's, a branch that replaces one
//! that was there.

use crate::branch::branch_name_of;
use crate::client::{
    basic_auth_of, credentials_of, is_missing, is_success_status, issue_of, issue_url_of,
    EnvironmentModel, PayloadModel,
};
use crate::error::{exit_status_of, Error};
use crate::key::first_key;
use crate::workflow::{first_step, next_step, ActionModel, EventModel, StateModel};
use vstd::prelude::*;

verus! {

/// The actions that answer `events`, one for each, from `state` on.
pub open spec fn actions_from(state: StateModel, events: Seq<EventModel>) -> Seq<ActionModel>
    decreases events.len(),
{
    if events.len() == 0 {
        Seq::empty()
    } else {
        let (next, action) = next_step(state, events.first());
        seq![action] + actions_from(next, events.drop_first())
    }
}

/// Every action of a run: the first one, then one for each event. The action
/// at `i + 1` is the one that the event at `i` is answered with.
pub open spec fn run(
    argument: Option<Seq<char>>,
    env: EnvironmentModel,
    events: Seq<EventModel>,
) -> Seq<ActionModel> {
    let (state, action) = first_step(argument, env);
    seq![action] + actions_from(state, events)
}

/// The state that `events` lead to from `state`.
pub open spec fn state_after(state: StateModel, events: Seq<EventModel>) -> StateModel
    decreases events.len(),
{
    if events.len() == 0 {
        state
    } else {
        state_after(next_step(state, events.first()).0, events.drop_first())
    }
}

/// The state of a run after its first `i` events: the state in which the
/// action at `i` is carried out.
pub open spec fn state_at(
    argument: Option<Seq<char>>,
    env: EnvironmentModel,
    events: Seq<EventModel>,
    i: int,
) -> StateModel {
    state_after(first_step(argument, env).0, events.take(i))
}

/// An action on the repository.
pub open spec fn is_repository_action(action: ActionModel) -> bool {
    action is OpenRepository || action is ResolveHead || action is CreateBranch
        || action is Activate
}

/// None of `actions` is a request.
pub open spec fn sends_no_request(actions: Seq<ActionModel>) -> bool {
    forall|i: int| 0 <= i < actions.len() ==> !(#[trigger] actions[i] is Fetch)
}

/// None of `actions` from index `from` on is an action on the repository.
pub open spec fn leaves_repository_alone(actions: Seq<ActionModel>, from: int) -> bool {
    forall|i: int| from <= i < actions.len() ==> !is_repository_action(#[trigger] actions[i])
}

/// `state` is the state in which the answer to `action` is waited for: each
/// action has its own, a branch is created or made active under the name
/// that the state holds and never by force, and after `Finish` and `Abort`
/// the run is over.
pub open spec fn awaits(state: StateModel, action: ActionModel) -> bool {
    match action {
        ActionModel::Fetch { .. } => state is AwaitingStatus,
        ActionModel::ReadBody => state is AwaitingBody,
        ActionModel::OpenRepository => state is OpeningRepository,
        ActionModel::ResolveHead => state is ResolvingHead,
        ActionModel::CreateBranch { name, force } => {
            !force && state == (StateModel::CreatingBranch { branch: name })
        },
        ActionModel::Activate { name } => state == (StateModel::Activating { branch: name }),
        ActionModel::Finish { .. } => state is Finished,
        ActionModel::Abort { .. } => state is Finished,
    }
}

/// The run began with a request, and the tracker answered it with success
/// and with a body that holds a ticket.
pub open spec fn ticket_was_read(
    argument: Option<Seq<char>>,
    env: EnvironmentModel,
    events: Seq<EventModel>,
) -> bool {
    &&& first_step(argument, env).1 is Fetch
    &&& events.len() >= 2
    &&& events[0] matches EventModel::Status { code } && is_success_status(code)
    &&& events[1] matches EventModel::Body { payload } && issue_of(payload) is Ok
}

/// The branch name for the ticket that the body of the answer holds.
pub open spec fn branch_of_ticket(events: Seq<EventModel>) -> Seq<char>
    recommends
        events.len() >= 2,
        events[1] is Body,
{
    let issue = issue_of(events[1]->payload).unwrap();
    branch_name_of(issue.key, issue.title)
}

/// The work on the repository has come to its step `step` after `i` events:
/// the ticket was read, the repository was asked once for each step before
/// and did it, and `branch` is the branch name of the ticket.
pub open spec fn repository_step(
    argument: Option<Seq<char>>,
    env: EnvironmentModel,
    events: Seq<EventModel>,
    i: int,
    step: int,
    branch: Seq<char>,
) -> bool {
    &&& i == 2 + step
    &&& ticket_was_read(argument, env, events)
    &&& branch == branch_of_ticket(events)
    &&& forall|k: int| 2 <= k < i ==> (#[trigger] events[k]) == EventModel::Done
}

/// What the state of a run after `i` events says of the events before: the
/// status is waited for only after a request, the body only after a status of
/// success, and the work on the repository goes step by step under the
/// branch name of the ticket that was read.
pub open spec fn state_follows_events(
    argument: Option<Seq<char>>,
    env: EnvironmentModel,
    events: Seq<EventModel>,
    i: int,
) -> bool {
    match state_at(argument, env, events, i) {
        StateModel::AwaitingStatus => i == 0 && first_step(argument, env).1 is Fetch,
        StateModel::AwaitingBody => {
            &&& i == 1
            &&& first_step(argument, env).1 is Fetch
            &&& events[0] matches EventModel::Status { code } && is_success_status(code)
        },
        StateModel::OpeningRepository { branch } => repository_step(
            argument,
            env,
            events,
            i,
            0,
            branch,
        ),
        StateModel::ResolvingHead { branch } => repository_step(
            argument,
            env,
            events,
            i,
            1,
            branch,
        ),
        StateModel::CreatingBranch { branch } => repository_step(
            argument,
            env,
            events,
            i,
            2,
            branch,
        ),
        StateModel::Activating { branch } => repository_step(argument, env, events, i, 3, branch),
        StateModel::Finished => true,
    }
}

/// Each event is answered by one action.
pub proof fn lemma_one_action_for_each_event(state: StateModel, events: Seq<EventModel>)
    ensures
        actions_from(state, events).len() == events.len(),
    decreases events.len(),
{
    if events.len() > 0 {
        lemma_one_action_for_each_event(next_step(state, events.first()).0, events.drop_first());
    }
}

/// One more event leads one step further.
pub proof fn lemma_state_after_one_more(
    state: StateModel,
    events: Seq<EventModel>,
    event: EventModel,
)
    ensures
        state_after(state, events.push(event)) == next_step(state_after(state, events), event).0,
    decreases events.len(),
{
    let longer = events.push(event);
    if events.len() == 0 {
        assert(longer.drop_first() == Seq::<EventModel>::empty());
        assert(state_after(next_step(state, event).0, longer.drop_first()) == next_step(
            state,
            event,
        ).0);
    } else {
        assert(longer.first() == events.first());
        assert(longer.drop_first() == events.drop_first().push(event));
        lemma_state_after_one_more(
            next_step(state, events.first()).0,
            events.drop_first(),
            event,
        );
    }
}

/// The event at `i` is answered by the step from the state that the events
/// before it led to.
pub proof fn lemma_action_at(state: StateModel, events: Seq<EventModel>, i: int)
    requires
        0 <= i < events.len(),
    ensures
        actions_from(state, events).len() == events.len(),
        actions_from(state, events)[i] == next_step(
            state_after(state, events.take(i)),
            events[i],
        ).1,
    decreases events.len(),
{
    let next = next_step(state, events.first()).0;
    lemma_one_action_for_each_event(state, events);
    lemma_one_action_for_each_event(next, events.drop_first());
    if i == 0 {
        assert(events.take(0) == Seq::<EventModel>::empty());
    } else {
        lemma_action_at(next, events.drop_first(), i - 1);
        assert(events.take(i).first() == events.first());
        assert(events.take(i).drop_first() == events.drop_first().take(i - 1));
    }
}

/// In a run, the action at `i + 1` is the step from the state at `i` on the
/// event at `i`, and that step leads to the state at `i + 1`.
pub proof fn lemma_run_at(
    argument: Option<Seq<char>>,
    env: EnvironmentModel,
    events: Seq<EventModel>,
    i: int,
)
    requires
        0 <= i < events.len(),
    ensures
        run(argument, env, events).len() == events.len() + 1,
        run(argument, env, events)[0] == first_step(argument, env).1,
        run(argument, env, events)[i + 1] == next_step(
            state_at(argument, env, events, i),
            events[i],
        ).1,
        state_at(argument, env, events, i + 1) == next_step(
            state_at(argument, env, events, i),
            events[i],
        ).0,
{
    let state = first_step(argument, env).0;
    lemma_action_at(state, events, i);
    assert(events.take(i + 1) == events.take(i).push(events[i]));
    lemma_state_after_one_more(state, events.take(i), events[i]);
}

/// Each step leaves the run in the state that waits for the answer to the
/// action it names. So no branch is ever created by force, and `Finish` and
/// `Abort` are the last actions of a run.
pub proof fn lemma_each_step_awaits_its_action(
    argument: Option<Seq<char>>,
    env: EnvironmentModel,
    state: StateModel,
    event: EventModel,
)
    ensures
        awaits(first_step(argument, env).0, first_step(argument, env).1),
        awaits(next_step(state, event).0, next_step(state, event).1),
{
}

/// At each point of a run, the state is the one that waits for the answer to
/// the action at that point.
pub proof fn lemma_run_awaits(
    argument: Option<Seq<char>>,
    env: EnvironmentModel,
    events: Seq<EventModel>,
    i: int,
)
    requires
        0 <= i <= events.len(),
    ensures
        run(argument, env, events).len() == events.len() + 1,
        awaits(state_at(argument, env, events, i), run(argument, env, events)[i]),
{
    lemma_one_action_for_each_event(first_step(argument, env).0, events);
    if i == 0 {
        assert(events.take(0) == Seq::<EventModel>::empty());
    } else {
        lemma_run_at(argument, env, events, i - 1);
    }
}

/// The state of a run says of the events before it what
/// `state_follows_events` states.
pub proof fn lemma_state_follows_events(
    argument: Option<Seq<char>>,
    env: EnvironmentModel,
    events: Seq<EventModel>,
    i: int,
)
    requires
        0 <= i <= events.len(),
    ensures
        state_follows_events(argument, env, events, i),
    decreases i,
{
    if i == 0 {
        assert(events.take(0) == Seq::<EventModel>::empty());
    } else {
        lemma_state_follows_events(argument, env, events, i - 1);
        lemma_run_at(argument, env, events, i - 1);
    }
}

/// A run that is over stays over: from the point where its state is
/// `Finished`, every action is `Abort` with `UnexpectedEvent`.
pub proof fn lemma_finished_stays_finished(
    argument: Option<Seq<char>>,
    env: EnvironmentModel,
    events: Seq<EventModel>,
    i: int,
    j: int,
)
    requires
        0 <= i < j <= events.len(),
        state_at(argument, env, events, i) is Finished,
    ensures
        run(argument, env, events).len() == events.len() + 1,
        state_at(argument, env, events, j) is Finished,
        run(argument, env, events)[j] == (ActionModel::Abort { error: Error::UnexpectedEvent }),
    decreases j - i,
{
    if j > i + 1 {
        lemma_finished_stays_finished(argument, env, events, i, j - 1);
    }
    lemma_run_at(argument, env, events, j - 1);
}

/// A request is the first action of a run or none of its actions, and it is
/// sent only where the text holds a key and no setting is missing.
pub proof fn lemma_request_needs_key_and_settings(
    argument: Option<Seq<char>>,
    env: EnvironmentModel,
    events: Seq<EventModel>,
    i: int,
)
    requires
        0 <= i < run(argument, env, events).len(),
        run(argument, env, events)[i] is Fetch,
    ensures
        i == 0,
        argument is Some,
        first_key(argument.unwrap()) is Some,
        credentials_of(env) is Ok,
{
    lemma_one_action_for_each_event(first_step(argument, env).0, events);
    if i > 0 {
        lemma_run_at(argument, env, events, i - 1);
    }
}

/// A run without the token and a run without the tracker's address end at
/// once, with two different exit statuses, and neither sends a request,
/// whatever events follow.
pub proof fn lemma_missing_settings_end_the_run_apart(
    text: Seq<char>,
    without_token: EnvironmentModel,
    without_address: EnvironmentModel,
    events: Seq<EventModel>,
)
    requires
        first_key(text) is Some,
        is_missing(without_token.token),
        !is_missing(without_address.token),
        is_missing(without_address.api_url),
    ensures
        run(Some(text), without_token, events)[0] == (ActionModel::Abort {
            error: Error::MissingToken,
        }),
        run(Some(text), without_address, events)[0] == (ActionModel::Abort {
            error: Error::MissingApiUrl,
        }),
        exit_status_of(Error::MissingToken) != exit_status_of(Error::MissingApiUrl),
        sends_no_request(run(Some(text), without_token, events)),
        sends_no_request(run(Some(text), without_address, events)),
{
    let first = run(Some(text), without_token, events);
    assert forall|i: int| 0 <= i < first.len() implies !(#[trigger] first[i] is Fetch) by {
        if first[i] is Fetch {
            lemma_request_needs_key_and_settings(Some(text), without_token, events, i);
        }
    }
    let second = run(Some(text), without_address, events);
    assert forall|i: int| 0 <= i < second.len() implies !(#[trigger] second[i] is Fetch) by {
        if second[i] is Fetch {
            lemma_request_needs_key_and_settings(Some(text), without_address, events, i);
        }
    }
}

/// Work on the repository follows the ticket. An action on the repository
/// comes only after a request that the tracker answered with success and a
/// ticket, and the branch that is created or made active is the one named
/// after that ticket.
pub proof fn lemma_repository_work_follows_the_ticket(
    argument: Option<Seq<char>>,
    env: EnvironmentModel,
    events: Seq<EventModel>,
    i: int,
)
    requires
        0 <= i < run(argument, env, events).len(),
        is_repository_action(run(argument, env, events)[i]),
    ensures
        2 <= i <= 5,
        ticket_was_read(argument, env, events),
        match run(argument, env, events)[i] {
            ActionModel::CreateBranch { name, force } => name == branch_of_ticket(events)
                && !force,
            ActionModel::Activate { name } => name == branch_of_ticket(events),
            _ => true,
        },
{
    lemma_one_action_for_each_event(first_step(argument, env).0, events);
    assert(i > 0);
    lemma_run_at(argument, env, events, i - 1);
    lemma_state_follows_events(argument, env, events, i - 1);
}

/// Where the tracker answers with a status outside 200 to 299, the run ends
/// with that status as its error, and no action of the run is an action on
/// the repository, whatever events follow.
pub proof fn lemma_failed_request_leaves_repository_alone(
    argument: Option<Seq<char>>,
    env: EnvironmentModel,
    events: Seq<EventModel>,
    code: u16,
)
    requires
        events.len() > 0,
        events[0] == (EventModel::Status { code }),
        !is_success_status(code),
    ensures
        run(argument, env, events).len() == events.len() + 1,
        run(argument, env, events)[0] is Fetch ==> run(argument, env, events)[1] == (
            ActionModel::Abort { error: Error::ApiError { status: code } }
        ),
        leaves_repository_alone(run(argument, env, events), 0),
{
    lemma_run_awaits(argument, env, events, 0);
    lemma_run_at(argument, env, events, 0);
    assert(state_at(argument, env, events, 1) is Finished);
    let actions = run(argument, env, events);
    assert forall|i: int| 0 <= i < actions.len() implies !is_repository_action(
        #[trigger] actions[i],
    ) by {
        if i >= 2 {
            lemma_finished_stays_finished(argument, env, events, 1, i);
        }
    }
}

/// Where the repository answers the creation of a branch with `Exists`, the
/// creation was asked for without force, the run ends with
/// `BranchAlreadyExists`, and no action that follows is an action on the
/// repository: the branch that was there is not replaced, and the active
/// branch stays the active one.
pub proof fn lemma_existing_branch_is_kept(
    argument: Option<Seq<char>>,
    env: EnvironmentModel,
    events: Seq<EventModel>,
    i: int,
)
    requires
        0 <= i < events.len(),
        run(argument, env, events)[i] is CreateBranch,
        events[i] == EventModel::Exists,
    ensures
        run(argument, env, events).len() == events.len() + 1,
        run(argument, env, events)[i]->force == false,
        run(argument, env, events)[i + 1] == (ActionModel::Abort {
            error: Error::BranchAlreadyExists,
        }),
        leaves_repository_alone(run(argument, env, events), i + 1),
{
    lemma_run_awaits(argument, env, events, i);
    lemma_run_at(argument, env, events, i);
    assert(state_at(argument, env, events, i + 1) is Finished);
    let actions = run(argument, env, events);
    assert forall|j: int| i + 1 <= j < actions.len() implies !is_repository_action(
        #[trigger] actions[j],
    ) by {
        if j > i + 1 {
            lemma_finished_stays_finished(argument, env, events, i + 1, j);
        }
    }
}

/// A run ends in success only after every step. `Finish` is the seventh
/// action or none: the ticket was read, the repository was opened, its head
/// resolved, the branch created and made active, and the branch that is
/// reported is the one named after the ticket.
pub proof fn lemma_success_needs_every_step(
    argument: Option<Seq<char>>,
    env: EnvironmentModel,
    events: Seq<EventModel>,
    i: int,
)
    requires
        0 <= i < run(argument, env, events).len(),
        run(argument, env, events)[i] is Finish,
    ensures
        i == 6,
        ticket_was_read(argument, env, events),
        forall|k: int| 2 <= k < 6 ==> (#[trigger] events[k]) == EventModel::Done,
        run(argument, env, events)[i]->branch == branch_of_ticket(events),
{
    lemma_one_action_for_each_event(first_step(argument, env).0, events);
    assert(i > 0);
    lemma_run_at(argument, env, events, i - 1);
    lemma_state_follows_events(argument, env, events, i - 1);
}

/// Where the text holds a key, no setting is missing, the tracker answers
/// with success and a ticket, and the repository does all that is asked, the
/// run is these seven actions, and it ends with the branch named after the
/// ticket.
pub proof fn lemma_successful_run(
    text: Seq<char>,
    env: EnvironmentModel,
    code: u16,
    payload: PayloadModel,
)
    requires
        first_key(text) is Some,
        credentials_of(env) is Ok,
        is_success_status(code),
        payload.key.len() > 0,
        payload.summary.len() > 0,
    ensures
        ({
            let credentials = credentials_of(env).unwrap();
            let name = branch_name_of(payload.key, payload.summary);
            run(
                Some(text),
                env,
                seq![
                    EventModel::Status { code },
                    EventModel::Body { payload: Some(payload) },
                    EventModel::Done,
                    EventModel::Done,
                    EventModel::Done,
                    EventModel::Done,
                ],
            ) == seq![
                ActionModel::Fetch {
                    url: issue_url_of(credentials.api_base_url, first_key(text).unwrap()),
                    authorization: basic_auth_of(credentials.username, credentials.token),
                },
                ActionModel::ReadBody,
                ActionModel::OpenRepository,
                ActionModel::ResolveHead,
                ActionModel::CreateBranch { name, force: false },
                ActionModel::Activate { name },
                ActionModel::Finish { branch: name },
            ]
        }),
{
    let name = branch_name_of(payload.key, payload.summary);
    let e0 = EventModel::Status { code };
    let e1 = EventModel::Body { payload: Some(payload) };
    let d = EventModel::Done;
    let all = seq![e0, e1, d, d, d, d];
    assert(all.drop_first() == seq![e1, d, d, d, d]);
    assert(seq![e1, d, d, d, d].drop_first() == seq![d, d, d, d]);
    assert(seq![d, d, d, d].drop_first() == seq![d, d, d]);
    assert(seq![d, d, d].drop_first() == seq![d, d]);
    assert(seq![d, d].drop_first() == seq![d]);
    assert(seq![d].drop_first() == Seq::<EventModel>::empty());
    let s1 = StateModel::AwaitingBody;
    let s2 = StateModel::OpeningRepository { branch: name };
    let s3 = StateModel::ResolvingHead { branch: name };
    let s4 = StateModel::CreatingBranch { branch: name };
    let s5 = StateModel::Activating { branch: name };
    assert(actions_from(StateModel::Finished, Seq::empty()) == Seq::<ActionModel>::empty());
    assert(actions_from(s5, seq![d]) == seq![ActionModel::Finish { branch: name }]);
    assert(actions_from(s4, seq![d, d]) == seq![
        ActionModel::Activate { name },
        ActionModel::Finish { branch: name },
    ]);
    assert(actions_from(s3, seq![d, d, d]) == seq![
        ActionModel::CreateBranch { name, force: false },
        ActionModel::Activate { name },
        ActionModel::Finish { branch: name },
    ]);
    assert(actions_from(s2, seq![d, d, d, d]) == seq![
        ActionModel::ResolveHead,
        ActionModel::CreateBranch { name, force: false },
        ActionModel::Activate { name },
        ActionModel::Finish { branch: name },
    ]);
    assert(actions_from(s1, seq![e1, d, d, d, d]) == seq![
        ActionModel::OpenRepository,
        ActionModel::ResolveHead,
        ActionModel::CreateBranch { name, force: false },
        ActionModel::Activate { name },
        ActionModel::Finish { branch: name },
    ]);
    assert(actions_from(StateModel::AwaitingStatus, all) == seq![
        ActionModel::ReadBody,
        ActionModel::OpenRepository,
        ActionModel::ResolveHead,
        ActionModel::CreateBranch { name, force: false },
        ActionModel::Activate { name },
        ActionModel::Finish { branch: name },
    ]);
}

} // verus!
