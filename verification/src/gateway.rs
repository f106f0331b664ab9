//! The way of one request through the gateway, as a machine of states.
//!
//! A driver performs what the machine asks for (a lookup in the registry, the
//! start of a container, one attempt to reach it) and hands the outcome back
//! as an event. The machine decides; it performs nothing itself.

use vstd::prelude::*;
use crate::balancer::{
    select_instance, selected, Container, ContainerView, LoadBalancer, LoadBalancerView,
    Selection, SelectionView,
};
use crate::forward::{
    bare_response, is_transient, outbound_for, time_left, verb_named, verdict, Forwarder,
    ForwarderView, GatewayResponse, Outcome, OutcomeView, RequestContext, RequestView,
    ResponseView, Turn, TurnView, INTERNAL_SERVER_ERROR, NOT_FOUND,
};
use crate::routes::{
    identified, offered_routes, resolve, route_table, ContainerRoute, RouteView,
};
use vstd::utf8::encode_utf8;

verus! {

/// Why a request was not forwarded.
#[derive(Debug, Clone, Copy, PartialEq, Eq, Structural)]
pub enum Failure {
    /// No route serves the path.
    RouteNotFound,
    /// The service has no pool, or its pool is empty.
    NoBackendInstance,
    /// The pool names a container of which the registry has no record.
    ContainerMissing,
    /// The container runtime could not start the container.
    ContainerStartFailure,
    /// The gateway does not relay the method of the request.
    UnsupportedMethod,
    /// The attempt failed for good before any answer came.
    ForwardFailure,
    /// No connection could be made within the time budget.
    TimedOut,
    /// The caller went away.
    ClientGone,
    /// The driver handed in an event that the state was not waiting for.
    OutOfTurn,
}

/// Where a request stands.
#[derive(Debug, Clone, Copy, PartialEq, Eq, Structural)]
pub enum Stage {
    Received,
    Resolved,
    InstanceSelected,
    ContainerReady,
    Forwarded,
    Failed,
}

/// The state of one request.
#[derive(Debug, PartialEq, Eq)]
pub enum Gateway {
    /// The request has arrived; its routes are being looked up.
    Received { request: RequestContext },
    /// The service is known; its pool is being looked up.
    Resolved { request: RequestContext, image_name: String },
    /// A container is chosen. Without a record, its record is being looked
    /// up; with one, the container is being started.
    InstanceSelected { request: RequestContext, key: [u8; 12], record: Option<Container> },
    /// The container runs; the request is being forwarded.
    ContainerReady { forwarder: Forwarder },
    /// The container's answer was passed on.
    Forwarded,
    /// The request ended without an answer of the container.
    Failed { reason: Failure },
}

/// What a state holds, as plain values.
pub enum GatewayView {
    Received { request: RequestView },
    Resolved { request: RequestView, image_name: Seq<char> },
    InstanceSelected { request: RequestView, key: Seq<u8>, record: Option<ContainerView> },
    ContainerReady { forwarder: ForwarderView },
    Forwarded,
    Failed { reason: Failure },
}

impl View for Gateway {
    type V = GatewayView;

    open spec fn view(&self) -> GatewayView {
        match *self {
            Gateway::Received { request } => GatewayView::Received { request: request@ },
            Gateway::Resolved { request, image_name } => GatewayView::Resolved {
                request: request@,
                image_name: image_name@,
            },
            Gateway::InstanceSelected { request, key, record } => GatewayView::InstanceSelected {
                request: request@,
                key: key@,
                record: match record {
                    Some(container) => Some(container@),
                    None => None,
                },
            },
            Gateway::ContainerReady { forwarder } => GatewayView::ContainerReady {
                forwarder: forwarder@,
            },
            Gateway::Forwarded => GatewayView::Forwarded,
            Gateway::Failed { reason } => GatewayView::Failed { reason },
        }
    }
}

impl GatewayView {
    /// Where the request stands.
    pub open spec fn stage(self) -> Stage {
        match self {
            GatewayView::Received { .. } => Stage::Received,
            GatewayView::Resolved { .. } => Stage::Resolved,
            GatewayView::InstanceSelected { .. } => Stage::InstanceSelected,
            GatewayView::ContainerReady { .. } => Stage::ContainerReady,
            GatewayView::Forwarded => Stage::Forwarded,
            GatewayView::Failed { .. } => Stage::Failed,
        }
    }

    /// Whether the request has ended.
    pub open spec fn is_terminal(self) -> bool {
        self is Forwarded || self is Failed
    }
}

/// What the driver reports.
#[derive(Debug, PartialEq, Eq)]
pub enum Event {
    /// The routes that the registry offers for the path.
    RoutesFound { routes: Vec<ContainerRoute> },
    /// The pool of the service, if it has one, and the rotation cursor that
    /// is kept for that service.
    LoadBalancerFound { pool: Option<LoadBalancer>, cursor: usize },
    /// The record of the chosen container, if the registry has one.
    ContainerFound { container: Option<Container> },
    /// The container runs (`None`), or the runtime's reason why it does not.
    StartFinished { failure: Option<String> },
    /// One attempt to reach the container has ended.
    AttemptFinished { outcome: Outcome },
    /// The caller has gone away.
    ClientGone,
}

/// What an event says, as plain values.
pub enum EventView {
    RoutesFound { routes: Seq<RouteView> },
    LoadBalancerFound { pool: Option<LoadBalancerView>, cursor: usize },
    ContainerFound { container: Option<ContainerView> },
    StartFinished { failure: Option<Seq<char>> },
    AttemptFinished { outcome: OutcomeView },
    ClientGone,
}

impl View for Event {
    type V = EventView;

    open spec fn view(&self) -> EventView {
        match *self {
            Event::RoutesFound { routes } => EventView::RoutesFound {
                routes: route_table(routes@),
            },
            Event::LoadBalancerFound { pool, cursor } => EventView::LoadBalancerFound {
                pool: match pool {
                    Some(found) => Some(found@),
                    None => None,
                },
                cursor,
            },
            Event::ContainerFound { container } => EventView::ContainerFound {
                container: match container {
                    Some(found) => Some(found@),
                    None => None,
                },
            },
            Event::StartFinished { failure } => EventView::StartFinished {
                failure: match failure {
                    Some(text) => Some(text@),
                    None => None,
                },
            },
            Event::AttemptFinished { outcome } => EventView::AttemptFinished {
                outcome: outcome@,
            },
            Event::ClientGone => EventView::ClientGone,
        }
    }
}

/// What the driver is to do next.
#[derive(Debug, PartialEq, Eq)]
pub enum Action {
    /// Ask the registry for the routes whose address stands at the start of
    /// `uri`.
    FindRoutes { uri: String },
    /// Ask the registry for the pool of the service.
    FindLoadBalancer { image_name: String },
    /// Ask the registry for the record with this key.
    FindContainer { key: [u8; 12] },
    /// Ask the container runtime to start the container unless it runs.
    EnsureStarted { container_id: String },
    /// Send the request of the forwarding in progress to the container.
    Attempt,
    /// Answer the caller.
    Respond { response: GatewayResponse },
    /// Nothing is left to do.
    Nothing,
}

/// What an action says, as plain values.
pub enum ActionView {
    FindRoutes { uri: Seq<char> },
    FindLoadBalancer { image_name: Seq<char> },
    FindContainer { key: Seq<u8> },
    EnsureStarted { container_id: Seq<char> },
    Attempt,
    Respond { response: ResponseView },
    Nothing,
}

impl View for Action {
    type V = ActionView;

    open spec fn view(&self) -> ActionView {
        match *self {
            Action::FindRoutes { uri } => ActionView::FindRoutes { uri: uri@ },
            Action::FindLoadBalancer { image_name } => ActionView::FindLoadBalancer {
                image_name: image_name@,
            },
            Action::FindContainer { key } => ActionView::FindContainer { key: key@ },
            Action::EnsureStarted { container_id } => ActionView::EnsureStarted {
                container_id: container_id@,
            },
            Action::Attempt => ActionView::Attempt,
            Action::Respond { response } => ActionView::Respond { response: response@ },
            Action::Nothing => ActionView::Nothing,
        }
    }
}

/// One step of the machine: the state after it, what the driver is to do,
/// and, where the step chose from a pool, that pool's new rotation cursor.
#[derive(Debug, PartialEq, Eq)]
pub struct Step {
    pub next: Gateway,
    pub action: Action,
    pub cursor: Option<usize>,
}

/// What a step says, as plain values.
pub struct StepView {
    pub next: GatewayView,
    pub action: ActionView,
    pub cursor: Option<usize>,
}

impl View for Step {
    type V = StepView;

    open spec fn view(&self) -> StepView {
        StepView { next: self.next@, action: self.action@, cursor: self.cursor }
    }
}

/// The step that ends a request with `reason` and answers with `response`.
pub open spec fn fails_with(reason: Failure, response: ResponseView) -> StepView {
    StepView {
        next: GatewayView::Failed { reason },
        action: ActionView::Respond { response },
        cursor: None,
    }
}

/// The step on the arrival of `request`.
pub open spec fn arrival(request: RequestView) -> StepView {
    StepView {
        next: GatewayView::Received { request },
        action: ActionView::FindRoutes { uri: request.uri },
        cursor: None,
    }
}

/// After the routes: the service of the most specific route, or not found.
pub open spec fn after_routes(request: RequestView, routes: Seq<RouteView>) -> StepView {
    match identified(offered_routes(routes, request.uri), request.uri) {
        Some(image_name) => StepView {
            next: GatewayView::Resolved { request, image_name },
            action: ActionView::FindLoadBalancer { image_name },
            cursor: None,
        },
        None => fails_with(Failure::RouteNotFound, bare_response(NOT_FOUND)),
    }
}

/// After the pool: the container whose turn it is, or an internal error
/// where there is none.
pub open spec fn after_pool(request: RequestView, pool: Option<LoadBalancerView>, cursor: usize)
    -> StepView {
    match pool {
        None => fails_with(Failure::NoBackendInstance, bare_response(INTERNAL_SERVER_ERROR)),
        Some(found) => match selected(found, cursor as int) {
            SelectionView::Empty => fails_with(
                Failure::NoBackendInstance,
                bare_response(INTERNAL_SERVER_ERROR),
            ),
            SelectionView::Malformed { next_cursor } => StepView {
                next: GatewayView::Failed { reason: Failure::ContainerMissing },
                action: ActionView::Respond { response: bare_response(INTERNAL_SERVER_ERROR) },
                cursor: Some(next_cursor),
            },
            SelectionView::Picked { key, next_cursor } => StepView {
                next: GatewayView::InstanceSelected { request, key, record: None },
                action: ActionView::FindContainer { key },
                cursor: Some(next_cursor),
            },
        },
    }
}

/// After the record: the start of the container, or an internal error where
/// the registry has no record.
pub open spec fn after_record(request: RequestView, key: Seq<u8>, container: Option<ContainerView>)
    -> StepView {
    match container {
        None => fails_with(Failure::ContainerMissing, bare_response(INTERNAL_SERVER_ERROR)),
        Some(found) => StepView {
            next: GatewayView::InstanceSelected { request, key, record: Some(found) },
            action: ActionView::EnsureStarted { container_id: found.container_id },
            cursor: None,
        },
    }
}

/// On the start of forwarding: the first attempt; a request whose method the
/// gateway does not relay is answered with an internal error, and nothing is
/// sent.
pub open spec fn forwarding_begun(request: RequestView, public_port: usize, now: u64) -> StepView {
    match verb_named(request.method) {
        None => fails_with(Failure::UnsupportedMethod, bare_response(INTERNAL_SERVER_ERROR)),
        Some(verb) => StepView {
            next: GatewayView::ContainerReady {
                forwarder: ForwarderView {
                    request: outbound_for(request, verb, public_port),
                    started: now,
                },
            },
            action: ActionView::Attempt,
            cursor: None,
        },
    }
}

/// After the start: forwarding begins, or an internal error with the
/// runtime's reason where the container does not run.
pub open spec fn after_start(
    request: RequestView,
    container: ContainerView,
    failure: Option<Seq<char>>,
    now: u64,
) -> StepView {
    match failure {
        Some(text) => fails_with(
            Failure::ContainerStartFailure,
            ResponseView { status: INTERNAL_SERVER_ERROR, body: encode_utf8(text) },
        ),
        None => forwarding_begun(request, container.public_port, now),
    }
}

/// Why a forwarding ended, where it did not end with the container's answer.
pub open spec fn forward_failure(outcome: OutcomeView) -> Failure {
    if is_transient(outcome) {
        Failure::TimedOut
    } else {
        Failure::ForwardFailure
    }
}

/// After an attempt: one more attempt, or the answer.
pub open spec fn after_attempt(forwarder: ForwarderView, outcome: OutcomeView, now: u64)
    -> StepView {
    match verdict(forwarder.started, outcome, now) {
        TurnView::Attempt => StepView {
            next: GatewayView::ContainerReady { forwarder },
            action: ActionView::Attempt,
            cursor: None,
        },
        TurnView::Respond(response) => StepView {
            next: if outcome is Answered {
                GatewayView::Forwarded
            } else {
                GatewayView::Failed { reason: forward_failure(outcome) }
            },
            action: ActionView::Respond { response },
            cursor: None,
        },
    }
}

/// The step that `state` takes on `event` at the time `now`.
///
/// A request that has ended stays as it is. A caller that goes away ends the
/// request without an answer. Each state waits for one kind of event; any
/// other ends the request with an internal error.
pub open spec fn step_of(state: GatewayView, event: EventView, now: u64) -> StepView {
    if state.is_terminal() {
        StepView { next: state, action: ActionView::Nothing, cursor: None }
    } else if event is ClientGone {
        StepView {
            next: GatewayView::Failed { reason: Failure::ClientGone },
            action: ActionView::Nothing,
            cursor: None,
        }
    } else {
        match (state, event) {
            (GatewayView::Received { request }, EventView::RoutesFound { routes }) => after_routes(
                request,
                routes,
            ),
            (
                GatewayView::Resolved { request, image_name },
                EventView::LoadBalancerFound { pool, cursor },
            ) => after_pool(request, pool, cursor),
            (
                GatewayView::InstanceSelected { request, key, record: None },
                EventView::ContainerFound { container },
            ) => after_record(request, key, container),
            (
                GatewayView::InstanceSelected { request, key, record: Some(found) },
                EventView::StartFinished { failure },
            ) => after_start(request, found, failure, now),
            (
                GatewayView::ContainerReady { forwarder },
                EventView::AttemptFinished { outcome },
            ) => after_attempt(forwarder, outcome, now),
            _ => fails_with(Failure::OutOfTurn, bare_response(INTERNAL_SERVER_ERROR)),
        }
    }
}

/// The step that ends a request with `reason` and answers with `response`.
fn fail(reason: Failure, response: GatewayResponse) -> (step: Step)
    ensures
        step@ == fails_with(reason, response@),
{
    Step { next: Gateway::Failed { reason }, action: Action::Respond { response }, cursor: None }
}

/// Takes a request in: the first thing to do is to look up its routes.
pub fn active_service_discovery(request: RequestContext) -> (step: Step)
    ensures
        step@ == arrival(request@),
{
    let uri = request.uri.clone();
    Step { next: Gateway::Received { request }, action: Action::FindRoutes { uri }, cursor: None }
}

/// Chooses the container that is to serve `request` from the pool of its
/// service, in rotation from `cursor`, and asks for the container's record.
/// Without a pool, or with an empty one, the request ends with an internal
/// error; so it does where the reference whose turn it is is no key of a
/// record.
pub fn port_forward_request(request: RequestContext, pool: Option<LoadBalancer>, cursor: usize)
    -> (step: Step)
    ensures
        step@ == after_pool(
            request@,
            match pool {
                Some(found) => Some(found@),
                None => None,
            },
            cursor,
        ),
{
    match pool {
        None => fail(Failure::NoBackendInstance, GatewayResponse::bare(INTERNAL_SERVER_ERROR)),
        Some(found) => match select_instance(&found, cursor) {
            Selection::Empty => fail(
                Failure::NoBackendInstance,
                GatewayResponse::bare(INTERNAL_SERVER_ERROR),
            ),
            Selection::Malformed { next_cursor } => Step {
                next: Gateway::Failed { reason: Failure::ContainerMissing },
                action: Action::Respond { response: GatewayResponse::bare(INTERNAL_SERVER_ERROR) },
                cursor: Some(next_cursor),
            },
            Selection::Picked { key, next_cursor } => Step {
                next: Gateway::InstanceSelected { request, key, record: None },
                action: Action::FindContainer { key },
                cursor: Some(next_cursor),
            },
        },
    }
}

/// Begins forwarding `request` to the container that publishes
/// `public_port`, at the time `now`: the first attempt is due at once. A
/// request whose method the gateway does not relay ends with an internal
/// error, and nothing is sent.
pub fn forward_request(request: RequestContext, public_port: usize, now: u64) -> (step: Step)
    ensures
        step@ == forwarding_begun(request@, public_port, now),
{
    match Forwarder::begin(request, public_port, now) {
        Err(response) => fail(Failure::UnsupportedMethod, response),
        Ok(forwarder) => Step {
            next: Gateway::ContainerReady { forwarder },
            action: Action::Attempt,
            cursor: None,
        },
    }
}

impl Gateway {
    /// Where the request stands.
    pub fn stage(&self) -> (stage: Stage)
        ensures
            stage == self@.stage(),
    {
        match self {
            Gateway::Received { .. } => Stage::Received,
            Gateway::Resolved { .. } => Stage::Resolved,
            Gateway::InstanceSelected { .. } => Stage::InstanceSelected,
            Gateway::ContainerReady { .. } => Stage::ContainerReady,
            Gateway::Forwarded => Stage::Forwarded,
            Gateway::Failed { .. } => Stage::Failed,
        }
    }

    /// Whether the request has ended.
    pub fn is_finished(&self) -> (finished: bool)
        ensures
            finished == self@.is_terminal(),
    {
        match self {
            Gateway::Forwarded => true,
            Gateway::Failed { .. } => true,
            _ => false,
        }
    }

    /// The request that an attempt sends, while the request is being
    /// forwarded.
    pub fn outbound(&self) -> (request: Option<&crate::forward::Outbound>)
        ensures
            (match self@ {
                GatewayView::ContainerReady { forwarder } => request matches Some(outbound)
                    && outbound@ == forwarder.request,
                _ => request is None,
            }),
    {
        match self {
            Gateway::ContainerReady { forwarder } => Some(forwarder.request()),
            _ => None,
        }
    }

    /// The time that an attempt which begins at `now` may take, while the
    /// request is being forwarded.
    pub fn time_left(&self, now: u64) -> (left: Option<u64>)
        ensures
            left == (match self@ {
                GatewayView::ContainerReady { forwarder } => Some(
                    time_left(forwarder.started, now) as u64,
                ),
                _ => None,
            }),
    {
        match self {
            Gateway::ContainerReady { forwarder } => Some(forwarder.time_left(now)),
            _ => None,
        }
    }

    /// Takes the step that this state takes on `event` at the time `now`.
    pub fn step(self, event: Event, now: u64) -> (step: Step)
        ensures
            step@ == step_of(self@, event@, now),
    {
        if self.is_finished() {
            return Step { next: self, action: Action::Nothing, cursor: None };
        }
        match event {
            Event::ClientGone => Step {
                next: Gateway::Failed { reason: Failure::ClientGone },
                action: Action::Nothing,
                cursor: None,
            },
            Event::RoutesFound { routes } => match self {
                Gateway::Received { request } => Self::on_routes(request, routes),
                _ => fail(Failure::OutOfTurn, GatewayResponse::bare(INTERNAL_SERVER_ERROR)),
            },
            Event::LoadBalancerFound { pool, cursor } => match self {
                Gateway::Resolved { request, image_name } => port_forward_request(
                    request,
                    pool,
                    cursor,
                ),
                _ => fail(Failure::OutOfTurn, GatewayResponse::bare(INTERNAL_SERVER_ERROR)),
            },
            Event::ContainerFound { container } => match self {
                Gateway::InstanceSelected { request, key, record: None } => Self::on_record(
                    request,
                    key,
                    container,
                ),
                _ => fail(Failure::OutOfTurn, GatewayResponse::bare(INTERNAL_SERVER_ERROR)),
            },
            Event::StartFinished { failure } => match self {
                Gateway::InstanceSelected { request, key, record: Some(found) } => Self::on_start(
                    request,
                    found,
                    failure,
                    now,
                ),
                _ => fail(Failure::OutOfTurn, GatewayResponse::bare(INTERNAL_SERVER_ERROR)),
            },
            Event::AttemptFinished { outcome } => match self {
                Gateway::ContainerReady { forwarder } => Self::on_attempt(forwarder, outcome, now),
                _ => fail(Failure::OutOfTurn, GatewayResponse::bare(INTERNAL_SERVER_ERROR)),
            },
        }
    }

    /// Resolves the request against the routes that were found.
    pub fn on_routes(request: RequestContext, routes: Vec<ContainerRoute>) -> (step: Step)
        ensures
            step@ == after_routes(request@, route_table(routes@)),
    {
        match resolve(&routes, request.uri.as_str()) {
            Some(image_name) => {
                let wanted = image_name.clone();
                Step {
                    next: Gateway::Resolved { request, image_name },
                    action: Action::FindLoadBalancer { image_name: wanted },
                    cursor: None,
                }
            },
            None => fail(Failure::RouteNotFound, GatewayResponse::bare(NOT_FOUND)),
        }
    }

    /// Asks for the start of the container whose record was found.
    pub fn on_record(request: RequestContext, key: [u8; 12], container: Option<Container>) -> (step:
        Step)
        ensures
            step@ == after_record(
                request@,
                key@,
                match container {
                    Some(found) => Some(found@),
                    None => None,
                },
            ),
    {
        match container {
            None => fail(Failure::ContainerMissing, GatewayResponse::bare(INTERNAL_SERVER_ERROR)),
            Some(found) => {
                let container_id = found.container_id.clone();
                Step {
                    next: Gateway::InstanceSelected { request, key, record: Some(found) },
                    action: Action::EnsureStarted { container_id },
                    cursor: None,
                }
            },
        }
    }

    /// Begins forwarding once the container runs.
    pub fn on_start(
        request: RequestContext,
        container: Container,
        failure: Option<String>,
        now: u64,
    ) -> (step: Step)
        ensures
            step@ == after_start(
                request@,
                container@,
                match failure {
                    Some(text) => Some(text@),
                    None => None,
                },
                now,
            ),
    {
        match failure {
            Some(text) => fail(
                Failure::ContainerStartFailure,
                GatewayResponse::explained(INTERNAL_SERVER_ERROR, text.as_str()),
            ),
            None => forward_request(request, container.public_port, now),
        }
    }

    /// Decides what follows one attempt.
    pub fn on_attempt(forwarder: Forwarder, outcome: Outcome, now: u64) -> (step: Step)
        ensures
            step@ == after_attempt(forwarder@, outcome@, now),
    {
        let answered = match &outcome {
            Outcome::Answered { .. } => true,
            Outcome::Failed { .. } => false,
        };
        let spent = match &outcome {
            Outcome::Failed { code: None, connect, timed_out, .. } => *connect || *timed_out,
            _ => false,
        };
        match forwarder.decide(outcome, now) {
            Turn::Attempt => Step {
                next: Gateway::ContainerReady { forwarder },
                action: Action::Attempt,
                cursor: None,
            },
            Turn::Respond(response) => {
                let next = if answered {
                    Gateway::Forwarded
                } else if spent {
                    Gateway::Failed { reason: Failure::TimedOut }
                } else {
                    Gateway::Failed { reason: Failure::ForwardFailure }
                };
                Step { next, action: Action::Respond { response }, cursor: None }
            },
        }
    }
}

} // verus!
