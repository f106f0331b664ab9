//! What holds of every request, whatever the driver reports.

use vstd::prelude::*;
use crate::balancer::ContainerView;
use crate::forward::{
    bare_response, is_transient, verb_named, within_budget, ForwarderView, OutcomeView,
    RequestView, ResponseView, INTERNAL_SERVER_ERROR, NOT_FOUND, REQUEST_TIMEOUT,
};
use crate::gateway::{
    fails_with, step_of, ActionView, EventView, Failure, GatewayView, Stage, StepView,
};

verus! {

/// The state after a run of events, each with the time at which it came.
pub open spec fn state_after(state: GatewayView, events: Seq<(EventView, u64)>) -> GatewayView
    decreases events.len(),
{
    if events.len() == 0 {
        state
    } else {
        state_after(step_of(state, events[0].0, events[0].1).next, events.skip(1))
    }
}

/// The request that a state still has to forward, before forwarding begins.
pub open spec fn waiting_request(state: GatewayView) -> Option<RequestView> {
    match state {
        GatewayView::Received { request } => Some(request),
        GatewayView::Resolved { request, .. } => Some(request),
        GatewayView::InstanceSelected { request, .. } => Some(request),
        _ => None,
    }
}

/// Whether `event` reports an attempt that left the request open: no
/// connection to the container could be made, or the attempt was given up
/// because its time ran out, and the failure carries no status.
pub open spec fn is_refusal(event: EventView) -> bool {
    event matches EventView::AttemptFinished { outcome } && is_transient(outcome)
}

/// The stage that follows `stage` where nothing fails.
pub open spec fn stage_after(stage: Stage) -> Stage {
    match stage {
        Stage::Received => Stage::Resolved,
        Stage::Resolved => Stage::InstanceSelected,
        Stage::InstanceSelected => Stage::ContainerReady,
        Stage::ContainerReady => Stage::Forwarded,
        Stage::Forwarded => Stage::Forwarded,
        Stage::Failed => Stage::Failed,
    }
}

/// A request that has ended stays as it is, whatever is reported, and asks
/// for nothing more.
pub proof fn ended_request_stays_ended(state: GatewayView, events: Seq<(EventView, u64)>)
    requires
        state.is_terminal(),
    ensures
        state_after(state, events) == state,
        events.len() > 0 ==> step_of(state, events[0].0, events[0].1).action
            == ActionView::Nothing,
    decreases events.len(),
{
    if events.len() > 0 {
        ended_request_stays_ended(state, events.skip(1));
    }
}

/// The stages are passed in their order: a step stays in its stage, moves
/// to the next one, or fails. No stage is skipped and none is entered again.
pub proof fn stages_follow_in_order(state: GatewayView, event: EventView, now: u64)
    ensures
        ({
            let next = step_of(state, event, now).next.stage();
            next == state.stage() || next == stage_after(state.stage()) || next == Stage::Failed
        }),
{
}

/// An attempt is asked for only once the container has been started, or
/// after an earlier attempt; and the request is then being forwarded.
pub proof fn attempt_follows_start(state: GatewayView, event: EventView, now: u64)
    requires
        step_of(state, event, now).action == ActionView::Attempt,
    ensures
        step_of(state, event, now).next is ContainerReady,
        state is ContainerReady || (state matches GatewayView::InstanceSelected {
            record: Some(_),
            ..
        } && event == (EventView::StartFinished { failure: None })),
{
}

/// Every failure but the caller's going away is answered, with the status
/// of its kind: 404 where no route was found, 408 where the time ran out,
/// 500 for what went wrong inside the gateway.
pub proof fn failure_is_answered(state: GatewayView, event: EventView, now: u64)
    requires
        !state.is_terminal(),
        step_of(state, event, now).next is Failed,
    ensures
        ({
            let step = step_of(state, event, now);
            let reason = step.next->reason;
            match reason {
                Failure::ClientGone => step.action == ActionView::Nothing,
                Failure::RouteNotFound => step.action == (ActionView::Respond {
                    response: bare_response(NOT_FOUND),
                }),
                Failure::TimedOut => step.action == (ActionView::Respond {
                    response: bare_response(REQUEST_TIMEOUT),
                }),
                Failure::ForwardFailure => step.action is Respond,
                _ => step.action is Respond && step.action->response.status
                    == INTERNAL_SERVER_ERROR,
            }
        }),
{
}

/// An answer of the container ends the request, and is passed on with its
/// status and its body unchanged, whatever the status.
pub proof fn answer_is_passed_on(
    forwarder: ForwarderView,
    status: u16,
    body: Seq<u8>,
    now: u64,
)
    ensures
        step_of(
            GatewayView::ContainerReady { forwarder },
            EventView::AttemptFinished { outcome: OutcomeView::Answered { status, body } },
            now,
        ) == (StepView {
            next: GatewayView::Forwarded,
            action: ActionView::Respond { response: ResponseView { status, body } },
            cursor: None,
        }),
{
}

/// While a request is being forwarded, every attempt sends the same
/// request: whatever is reported, a state that still forwards holds the
/// request, and the starting time, that it held before.
pub proof fn attempts_send_same_request(
    forwarder: ForwarderView,
    events: Seq<(EventView, u64)>,
)
    ensures
        state_after(GatewayView::ContainerReady { forwarder }, events) is ContainerReady
            ==> state_after(GatewayView::ContainerReady { forwarder }, events)
            == (GatewayView::ContainerReady { forwarder }),
    decreases events.len(),
{
    let state = GatewayView::ContainerReady { forwarder };
    if events.len() > 0 {
        let next = step_of(state, events[0].0, events[0].1).next;
        if next.is_terminal() {
            ended_request_stays_ended(next, events.skip(1));
        } else {
            assert(next == state);
            attempts_send_same_request(forwarder, events.skip(1));
        }
    }
}

/// A request with a payload is sent with the headers and the body with
/// which it arrived, and one without a payload is sent bare.
pub proof fn payload_is_sent_unchanged(
    request: RequestView,
    container: ContainerView,
    now: u64,
)
    requires
        verb_named(request.method) is Some,
    ensures
        ({
            let state = GatewayView::InstanceSelected {
                request,
                key: Seq::<u8>::empty(),
                record: Some(container),
            };
            let next = step_of(state, EventView::StartFinished { failure: None }, now).next;
            let verb = verb_named(request.method).unwrap();
            &&& next is ContainerReady
            &&& verb.carries_payload() ==> next->forwarder.request.body == request.body
                && next->forwarder.request.headers == request.headers
            &&& !verb.carries_payload() ==> next->forwarder.request.body.len() == 0
                && next->forwarder.request.headers.len() == 0
        }),
{
}

/// While the connection is refused, the gateway tries again as long as the
/// budget lasts, and answers with a timeout at the first refusal after it.
pub proof fn refusal_is_retried_within_budget(forwarder: ForwarderView, event: EventView, now: u64)
    requires
        is_refusal(event),
    ensures
        ({
            let step = step_of(GatewayView::ContainerReady { forwarder }, event, now);
            if within_budget(forwarder.started, now) {
                step == (StepView {
                    next: GatewayView::ContainerReady { forwarder },
                    action: ActionView::Attempt,
                    cursor: None,
                })
            } else {
                step == fails_with(
                    Failure::TimedOut,
                    bare_response(REQUEST_TIMEOUT),
                )
            }
        }),
{
}

/// A run of refusals leaves the forwarding as it is while all of them come
/// within the budget, and ends it with a timeout once one comes after.
pub proof fn refusals_end_in_timeout(forwarder: ForwarderView, events: Seq<(EventView, u64)>)
    requires
        forall|i: int| 0 <= i < events.len() ==> is_refusal(#[trigger] events[i].0),
    ensures
        ({
            let end = state_after(GatewayView::ContainerReady { forwarder }, events);
            if forall|i: int|
                0 <= i < events.len() ==> within_budget(
                    forwarder.started,
                    #[trigger] events[i].1,
                ) {
                end == (GatewayView::ContainerReady { forwarder })
            } else {
                end == (GatewayView::Failed { reason: Failure::TimedOut })
            }
        }),
    decreases events.len(),
{
    let state = GatewayView::ContainerReady { forwarder };
    if events.len() > 0 {
        let rest = events.skip(1);
        assert(is_refusal(events[0].0));
        refusal_is_retried_within_budget(forwarder, events[0].0, events[0].1);
        assert forall|i: int| 0 <= i < rest.len() implies is_refusal(#[trigger] rest[i].0) by {
            assert(rest[i] == events[i + 1]);
        }
        if within_budget(forwarder.started, events[0].1) {
            refusals_end_in_timeout(forwarder, rest);
            if forall|i: int|
                0 <= i < rest.len() ==> within_budget(
                    forwarder.started,
                    #[trigger] rest[i].1,
                ) {
                assert forall|i: int| 0 <= i < events.len() implies within_budget(
                    forwarder.started,
                    #[trigger] events[i].1,
                ) by {
                    if i > 0 {
                        assert(rest[i - 1] == events[i]);
                    }
                }
            } else {
                let late = choose|i: int|
                    0 <= i < rest.len() && !within_budget(
                        forwarder.started,
                        #[trigger] rest[i].1,
                    );
                assert(rest[late] == events[late + 1]);
            }
        } else {
            ended_request_stays_ended(GatewayView::Failed { reason: Failure::TimedOut }, rest);
        }
    }
}

/// A request whose method the gateway does not relay is never sent: no step
/// asks for an attempt, and no state forwards it.
pub proof fn unsupported_method_is_never_sent(state: GatewayView, events: Seq<(EventView, u64)>)
    requires
        waiting_request(state) matches Some(request) && verb_named(request.method) is None,
    ensures
        !(state_after(state, events) is ContainerReady),
        forall|k: int|
            0 <= k < events.len() ==> step_of(
                state_after(state, #[trigger] events.take(k)),
                events[k].0,
                events[k].1,
            ).action != ActionView::Attempt,
    decreases events.len(),
{
    if events.len() > 0 {
        let first = step_of(state, events[0].0, events[0].1);
        let rest = events.skip(1);
        if first.next.is_terminal() {
            ended_request_stays_ended(first.next, rest);
        } else {
            unsupported_method_is_never_sent(first.next, rest);
        }
        assert forall|k: int| 0 <= k < events.len() implies step_of(
            state_after(state, #[trigger] events.take(k)),
            events[k].0,
            events[k].1,
        ).action != ActionView::Attempt by {
            if k == 0 {
                assert(events.take(0).len() == 0);
            } else {
                run_splits(state, events, k);
                assert(events.take(k).skip(1) =~= rest.take(k - 1));
                assert(rest[k - 1] == events[k]);
                if first.next.is_terminal() {
                    ended_request_stays_ended(first.next, rest.take(k - 1));
                    ended_request_stays_ended(first.next, seq![events[k]]);
                }
            }
        }
    }
}

/// A run of at least one event is the first step and then the rest.
proof fn run_splits(state: GatewayView, events: Seq<(EventView, u64)>, k: int)
    requires
        0 < k <= events.len(),
    ensures
        state_after(state, events.take(k)) == state_after(
            step_of(state, events[0].0, events[0].1).next,
            events.take(k).skip(1),
        ),
{
    assert(events.take(k)[0] == events[0]);
}

} // verus!
