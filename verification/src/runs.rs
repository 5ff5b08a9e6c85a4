//! Whole exchanges: what a client does over a sequence of events, and the bounds that
//! hold of every such sequence.

use crate::client::{
    failed, holds_token, is_success, refresh_step, send_step, token_request, with_access_token,
    ActionView, ClientFault, CredentialsView, EventView, Phase, TokenResponseView, UNAUTHORIZED,
};
use crate::request::{authorized, RequestView};
use vstd::prelude::*;

verus! {

/// Where a sequence of events leaves an exchange: the credentials then held, the phase
/// reached and the actions handed out on the way, in order.
pub struct Run {
    pub credentials: CredentialsView,
    pub phase: Phase,
    pub actions: Seq<ActionView>,
}

/// A refresh taken through `events`, one step for each.
pub open spec fn refresh_run(
    credentials: CredentialsView,
    phase: Phase,
    events: Seq<EventView>,
) -> Run
    decreases events.len(),
{
    if events.len() == 0 {
        Run { credentials, phase, actions: Seq::empty() }
    } else {
        let step = refresh_step(credentials, phase, events.first());
        let rest = refresh_run(step.credentials, step.phase, events.drop_first());
        Run { actions: seq![step.action] + rest.actions, ..rest }
    }
}

/// The sending of `request` taken through `events`, one step for each.
pub open spec fn send_run(
    credentials: CredentialsView,
    request: RequestView,
    phase: Phase,
    events: Seq<EventView>,
) -> Run
    decreases events.len(),
{
    if events.len() == 0 {
        Run { credentials, phase, actions: Seq::empty() }
    } else {
        let step = send_step(credentials, request, phase, events.first());
        let rest = send_run(step.credentials, request, step.phase, events.drop_first());
        Run { actions: seq![step.action] + rest.actions, ..rest }
    }
}

/// How many of `actions` ask the token endpoint for a new access token.
pub open spec fn token_requests(actions: Seq<ActionView>) -> nat
    decreases actions.len(),
{
    if actions.len() == 0 {
        0
    } else if actions.first() is RequestToken {
        1 + token_requests(actions.drop_first())
    } else {
        token_requests(actions.drop_first())
    }
}

/// How many of `actions` send the request.
pub open spec fn transmissions(actions: Seq<ActionView>) -> nat
    decreases actions.len(),
{
    if actions.len() == 0 {
        0
    } else if actions.first() is Transmit {
        1 + transmissions(actions.drop_first())
    } else {
        transmissions(actions.drop_first())
    }
}

/// How many new access tokens an exchange in `phase` may still ask for.
pub open spec fn refreshes_left(phase: Phase) -> nat {
    match phase {
        Phase::Ready | Phase::AwaitingResponse => 1,
        _ => 0,
    }
}

/// How many times an exchange in `phase` may still send the request.
pub open spec fn transmissions_left(phase: Phase) -> nat {
    match phase {
        Phase::Ready => 2,
        Phase::AwaitingResponse | Phase::AwaitingToken | Phase::AwaitingPersistence => 1,
        Phase::AwaitingRetry | Phase::Finished => 0,
    }
}

/// How many steps an exchange in `phase` can still take before it is over.
pub open spec fn steps_left(phase: Phase) -> nat {
    match phase {
        Phase::Ready => 5,
        Phase::AwaitingResponse => 4,
        Phase::AwaitingToken => 3,
        Phase::AwaitingPersistence => 2,
        Phase::AwaitingRetry => 1,
        Phase::Finished => 0,
    }
}

/// Every step takes an exchange nearer to its end, whatever the event: no sequence of
/// events keeps it going for more than five steps.
pub proof fn lemma_send_comes_to_an_end(
    credentials: CredentialsView,
    request: RequestView,
    phase: Phase,
    events: Seq<EventView>,
)
    requires
        events.len() >= steps_left(phase),
    ensures
        send_run(credentials, request, phase, events).phase == Phase::Finished,
    decreases events.len(),
{
    if events.len() > 0 {
        let step = send_step(credentials, request, phase, events.first());
        assert(steps_left(step.phase) < steps_left(phase) || step.phase == Phase::Finished);
        lemma_send_comes_to_an_end(step.credentials, request, step.phase, events.drop_first());
    }
}

/// How many steps a refresh in `phase` can still take before it is over.
pub open spec fn refresh_steps_left(phase: Phase) -> nat {
    match phase {
        Phase::Ready => 3,
        Phase::AwaitingToken => 2,
        Phase::AwaitingPersistence | Phase::AwaitingResponse | Phase::AwaitingRetry => 1,
        Phase::Finished => 0,
    }
}

/// Every step takes a refresh nearer to its end, whatever the event: no sequence of
/// events keeps it going for more than three steps.
pub proof fn lemma_refresh_comes_to_an_end(
    credentials: CredentialsView,
    phase: Phase,
    events: Seq<EventView>,
)
    requires
        events.len() >= refresh_steps_left(phase),
    ensures
        refresh_run(credentials, phase, events).phase == Phase::Finished,
    decreases events.len(),
{
    if events.len() > 0 {
        let step = refresh_step(credentials, phase, events.first());
        assert(refresh_steps_left(step.phase) < refresh_steps_left(phase) || step.phase
            == Phase::Finished);
        lemma_refresh_comes_to_an_end(step.credentials, step.phase, events.drop_first());
    }
}

/// An exchange that is over stays over: whatever is handed in is turned down as out of
/// turn, and the credentials stay as they are.
pub proof fn lemma_finished_exchange_does_nothing(
    credentials: CredentialsView,
    request: RequestView,
    event: EventView,
)
    ensures
        send_step(credentials, request, Phase::Finished, event) == failed(
            credentials,
            ClientFault::OutOfTurn,
        ),
        refresh_step(credentials, Phase::Finished, event) == failed(
            credentials,
            ClientFault::OutOfTurn,
        ),
{
}

/// A step changes nothing in the credentials but the access token.
pub proof fn lemma_step_keeps_all_but_access_token(
    credentials: CredentialsView,
    request: RequestView,
    phase: Phase,
    event: EventView,
)
    ensures
        refresh_step(credentials, phase, event).credentials == with_access_token(
            credentials,
            refresh_step(credentials, phase, event).credentials.token.access_token,
        ),
        send_step(credentials, request, phase, event).credentials == with_access_token(
            credentials,
            send_step(credentials, request, phase, event).credentials.token.access_token,
        ),
{
}

/// Whatever happens while a request is sent, the credentials change in nothing but the
/// access token: the refresh token, the scope and the client's identity stay.
pub proof fn lemma_send_keeps_all_but_access_token(
    credentials: CredentialsView,
    request: RequestView,
    phase: Phase,
    events: Seq<EventView>,
)
    ensures
        send_run(credentials, request, phase, events).credentials == with_access_token(
            credentials,
            send_run(credentials, request, phase, events).credentials.token.access_token,
        ),
    decreases events.len(),
{
    if events.len() > 0 {
        let step = send_step(credentials, request, phase, events.first());
        lemma_step_keeps_all_but_access_token(credentials, request, phase, events.first());
        lemma_send_keeps_all_but_access_token(
            step.credentials,
            request,
            step.phase,
            events.drop_first(),
        );
    }
}

/// Whatever happens during a refresh, the credentials change in nothing but the access
/// token.
pub proof fn lemma_refresh_keeps_all_but_access_token(
    credentials: CredentialsView,
    phase: Phase,
    events: Seq<EventView>,
)
    ensures
        refresh_run(credentials, phase, events).credentials == with_access_token(
            credentials,
            refresh_run(credentials, phase, events).credentials.token.access_token,
        ),
    decreases events.len(),
{
    if events.len() > 0 {
        let step = refresh_step(credentials, phase, events.first());
        lemma_refresh_keeps_all_but_access_token(step.credentials, step.phase, events.drop_first());
    }
}

/// From any phase and through any events, sending a request asks for no more new
/// access tokens and sends the request no more often than the phase leaves room for.
pub proof fn lemma_send_stays_within_bounds(
    credentials: CredentialsView,
    request: RequestView,
    phase: Phase,
    events: Seq<EventView>,
)
    ensures
        token_requests(send_run(credentials, request, phase, events).actions) <= refreshes_left(
            phase,
        ),
        transmissions(send_run(credentials, request, phase, events).actions)
            <= transmissions_left(phase),
    decreases events.len(),
{
    if events.len() > 0 {
        let step = send_step(credentials, request, phase, events.first());
        let rest = send_run(step.credentials, request, step.phase, events.drop_first());
        lemma_send_stays_within_bounds(step.credentials, request, step.phase, events.drop_first());
        let actions = seq![step.action] + rest.actions;
        assert(actions.first() == step.action);
        assert(actions.drop_first() == rest.actions);
    }
}

/// Whatever the events, one call to send a request makes at most one refresh and sends
/// the request at most twice.
pub proof fn lemma_send_refreshes_at_most_once(
    credentials: CredentialsView,
    request: RequestView,
    events: Seq<EventView>,
)
    ensures
        token_requests(send_run(credentials, request, Phase::Ready, events).actions) <= 1,
        transmissions(send_run(credentials, request, Phase::Ready, events).actions) <= 2,
{
    lemma_send_stays_within_bounds(credentials, request, Phase::Ready, events);
}

/// A request that is turned down as unauthorized is sent once more after one refresh,
/// under the new access token, and what comes back then is delivered whatever its
/// status: a second refusal leads to no second refresh.
pub proof fn lemma_unauthorized_is_retried_once(
    credentials: CredentialsView,
    request: RequestView,
    response: TokenResponseView,
    status: u16,
)
    requires
        credentials.token.refresh_token is Some,
        is_success(response.status),
        holds_token(response),
    ensures
        ({
            let events = seq![
                EventView::Begin,
                EventView::Response { status: UNAUTHORIZED },
                EventView::Token(response),
                EventView::Persisted,
                EventView::Response { status },
            ];
            let renewed = with_access_token(credentials, response.token.unwrap().access_token);
            let run = send_run(credentials, request, Phase::Ready, events);
            &&& run.actions == seq![
                ActionView::Transmit(authorized(request, credentials.token.access_token)),
                ActionView::RequestToken(token_request(credentials)),
                ActionView::Persist,
                ActionView::Transmit(authorized(request, renewed.token.access_token)),
                ActionView::Deliver { status },
            ]
            &&& run.credentials == renewed
            &&& run.phase == Phase::Finished
        }),
{
    let events = seq![
        EventView::Begin,
        EventView::Response { status: UNAUTHORIZED },
        EventView::Token(response),
        EventView::Persisted,
        EventView::Response { status },
    ];
    let renewed = with_access_token(credentials, response.token.unwrap().access_token);
    let e1 = events.drop_first();
    let e2 = e1.drop_first();
    let e3 = e2.drop_first();
    let e4 = e3.drop_first();
    let e5 = e4.drop_first();
    assert(e5.len() == 0);
    let r5 = send_run(renewed, request, Phase::Finished, e5);
    assert(r5.actions == Seq::<ActionView>::empty());
    let r4 = send_run(renewed, request, Phase::AwaitingRetry, e4);
    assert(r4.actions == seq![ActionView::Deliver { status }]);
    let r3 = send_run(renewed, request, Phase::AwaitingPersistence, e3);
    assert(r3.actions == seq![
        ActionView::Transmit(authorized(request, renewed.token.access_token)),
        ActionView::Deliver { status },
    ]);
    let r2 = send_run(credentials, request, Phase::AwaitingToken, e2);
    assert(r2.actions == seq![
        ActionView::Persist,
        ActionView::Transmit(authorized(request, renewed.token.access_token)),
        ActionView::Deliver { status },
    ]);
    let r1 = send_run(credentials, request, Phase::AwaitingResponse, e1);
    assert(r1.actions == seq![
        ActionView::RequestToken(token_request(credentials)),
        ActionView::Persist,
        ActionView::Transmit(authorized(request, renewed.token.access_token)),
        ActionView::Deliver { status },
    ]);
    let r0 = send_run(credentials, request, Phase::Ready, events);
    assert(r0.actions == seq![
        ActionView::Transmit(authorized(request, credentials.token.access_token)),
        ActionView::RequestToken(token_request(credentials)),
        ActionView::Persist,
        ActionView::Transmit(authorized(request, renewed.token.access_token)),
        ActionView::Deliver { status },
    ]);
}

/// Without a refresh token a refresh fails at once, and whatever events follow, no
/// request is ever handed out to be sent.
pub proof fn lemma_refresh_without_refresh_token(
    credentials: CredentialsView,
    events: Seq<EventView>,
)
    requires
        credentials.token.refresh_token is None,
    ensures
        refresh_step(credentials, Phase::Ready, EventView::Begin).action == ActionView::Fail(
            ClientFault::MissingRefreshToken,
        ),
        refresh_step(credentials, Phase::Ready, EventView::Begin).phase == Phase::Finished,
        token_requests(refresh_run(credentials, Phase::Ready, events).actions) == 0,
        transmissions(refresh_run(credentials, Phase::Ready, events).actions) == 0,
{
    lemma_refresh_sends_nothing_without_refresh_token(credentials, Phase::Ready, events);
}

/// Without a refresh token no step of a refresh hands out a request, in whatever phase.
proof fn lemma_refresh_sends_nothing_without_refresh_token(
    credentials: CredentialsView,
    phase: Phase,
    events: Seq<EventView>,
)
    requires
        credentials.token.refresh_token is None,
    ensures
        token_requests(refresh_run(credentials, phase, events).actions) == 0,
        transmissions(refresh_run(credentials, phase, events).actions) == 0,
    decreases events.len(),
{
    if events.len() > 0 {
        let step = refresh_step(credentials, phase, events.first());
        let rest = refresh_run(step.credentials, step.phase, events.drop_first());
        lemma_refresh_sends_nothing_without_refresh_token(
            step.credentials,
            step.phase,
            events.drop_first(),
        );
        let actions = seq![step.action] + rest.actions;
        assert(actions.first() == step.action);
        assert(actions.drop_first() == rest.actions);
    }
}

} // verus!
