use container_gateway::balancer::{Container, LoadBalancer};
use container_gateway::forward::{GatewayResponse, Header, Outcome, RequestContext, Verb};
use container_gateway::gateway::{
    active_service_discovery, forward_request, port_forward_request, Action, Event, Failure,
    Gateway, Stage, Step,
};
use container_gateway::routes::ContainerRoute;

const KEY: &str = "53e37d08776f724e42000000";
const KEY_BYTES: [u8; 12] = [0x53, 0xe3, 0x7d, 0x08, 0x77, 0x6f, 0x72, 0x4e, 0x42, 0, 0, 0];

fn request(method: &str, uri: &str) -> RequestContext {
    RequestContext {
        method: method.to_string(),
        uri: uri.to_string(),
        headers: vec![Header { name: "accept".to_string(), value: b"*/*".to_vec() }],
        body: b"body bytes".to_vec(),
    }
}

fn routes() -> Vec<ContainerRoute> {
    vec![
        ContainerRoute::new("/a".to_string(), "S1".to_string()),
        ContainerRoute::new("/a/b".to_string(), "S2".to_string()),
    ]
}

fn pool(references: &[&str]) -> Option<LoadBalancer> {
    Some(LoadBalancer {
        image_name: "S2".to_string(),
        containers: references.iter().map(|r| r.to_string()).collect(),
    })
}

fn record() -> Option<Container> {
    Some(Container { container_id: "runtime-7".to_string(), public_port: 8443 })
}

fn refused() -> Event {
    Event::AttemptFinished {
        outcome: Outcome::Failed { code: None, connect: true, timed_out: false, text: "refused".to_string() },
    }
}

fn respond(status: u16, body: &[u8]) -> Action {
    Action::Respond { response: GatewayResponse { status, body: body.to_vec() } }
}

fn failed(reason: Failure, status: u16, body: &[u8]) -> Step {
    Step { next: Gateway::Failed { reason }, action: respond(status, body), cursor: None }
}

fn resolved(method: &str) -> Gateway {
    let step = active_service_discovery(request(method, "/a/b/c?x=1"));
    step.next.step(Event::RoutesFound { routes: routes() }, 0).next
}

fn selected(method: &str) -> Gateway {
    resolved(method).step(Event::LoadBalancerFound { pool: pool(&[KEY]), cursor: 0 }, 0).next
}

fn starting(method: &str) -> Gateway {
    selected(method).step(Event::ContainerFound { container: record() }, 0).next
}

fn forwarding(method: &str, now: u64) -> Gateway {
    starting(method).step(Event::StartFinished { failure: None }, now).next
}

#[test]
fn arrival_asks_for_the_routes() {
    let step = active_service_discovery(request("GET", "/a/b/c?x=1"));
    assert_eq!(step.action, Action::FindRoutes { uri: "/a/b/c?x=1".to_string() });
    assert_eq!(step.cursor, None);
    assert_eq!(step.next, Gateway::Received { request: request("GET", "/a/b/c?x=1") });
    assert_eq!(step.next.stage(), Stage::Received);
    assert!(!step.next.is_finished());
}

#[test]
fn routes_lead_to_the_most_specific_service() {
    let received = active_service_discovery(request("GET", "/a/b/c?x=1")).next;
    let step = received.step(Event::RoutesFound { routes: routes() }, 0);
    assert_eq!(step.action, Action::FindLoadBalancer { image_name: "S2".to_string() });
    assert_eq!(
        step.next,
        Gateway::Resolved { request: request("GET", "/a/b/c?x=1"), image_name: "S2".to_string() }
    );
    assert_eq!(step.next.stage(), Stage::Resolved);
}

#[test]
fn routes_that_are_not_offered_are_left_aside() {
    let received = active_service_discovery(request("GET", "/a/b/c")).next;
    let others = vec![ContainerRoute::new("/a/x".to_string(), "S1".to_string())];
    let step = received.step(Event::RoutesFound { routes: others }, 0);
    assert_eq!(step, failed(Failure::RouteNotFound, 404, b""));
}

#[test]
fn no_route_is_not_found() {
    let received = active_service_discovery(request("GET", "/a")).next;
    let step = received.step(Event::RoutesFound { routes: Vec::new() }, 0);
    assert_eq!(step, failed(Failure::RouteNotFound, 404, b""));
    assert_eq!(step.next.stage(), Stage::Failed);
    assert!(step.next.is_finished());
}

#[test]
fn missing_pool_is_an_internal_error() {
    let step = resolved("GET").step(Event::LoadBalancerFound { pool: None, cursor: 0 }, 0);
    assert_eq!(step, failed(Failure::NoBackendInstance, 500, b""));
}

#[test]
fn empty_pool_is_an_internal_error() {
    let step = resolved("GET").step(Event::LoadBalancerFound { pool: pool(&[]), cursor: 3 }, 0);
    assert_eq!(step, failed(Failure::NoBackendInstance, 500, b""));
}

#[test]
fn pool_leads_to_the_container_whose_turn_it_is() {
    let other = "000000000000000000000001";
    let step = resolved("GET")
        .step(Event::LoadBalancerFound { pool: pool(&[other, KEY, other]), cursor: 4 }, 0);
    assert_eq!(step.action, Action::FindContainer { key: KEY_BYTES });
    assert_eq!(step.cursor, Some(2));
    assert_eq!(
        step.next,
        Gateway::InstanceSelected {
            request: request("GET", "/a/b/c?x=1"),
            key: KEY_BYTES,
            record: None
        }
    );
    assert_eq!(step.next.stage(), Stage::InstanceSelected);
}

#[test]
fn malformed_reference_is_an_internal_error_and_moves_the_cursor() {
    let step = resolved("GET")
        .step(Event::LoadBalancerFound { pool: pool(&["not a key", KEY]), cursor: 0 }, 0);
    assert_eq!(step.next, Gateway::Failed { reason: Failure::ContainerMissing });
    assert_eq!(step.action, respond(500, b""));
    assert_eq!(step.cursor, Some(1));
}

#[test]
fn missing_record_is_an_internal_error() {
    let step = selected("GET").step(Event::ContainerFound { container: None }, 0);
    assert_eq!(step, failed(Failure::ContainerMissing, 500, b""));
}

#[test]
fn record_leads_to_the_start_of_the_container() {
    let step = selected("GET").step(Event::ContainerFound { container: record() }, 0);
    assert_eq!(step.action, Action::EnsureStarted { container_id: "runtime-7".to_string() });
    assert_eq!(step.cursor, None);
    assert_eq!(
        step.next,
        Gateway::InstanceSelected {
            request: request("GET", "/a/b/c?x=1"),
            key: KEY_BYTES,
            record: record()
        }
    );
    assert_eq!(step.next.stage(), Stage::InstanceSelected);
}

#[test]
fn failed_start_is_an_internal_error_with_the_reason() {
    let step = starting("GET")
        .step(Event::StartFinished { failure: Some("no such image".to_string()) }, 0);
    assert_eq!(step, failed(Failure::ContainerStartFailure, 500, b"no such image"));
}

#[test]
fn started_container_gets_the_first_attempt() {
    let step = starting("POST").step(Event::StartFinished { failure: None }, 42);
    assert_eq!(step.action, Action::Attempt);
    assert_eq!(step.next.stage(), Stage::ContainerReady);
    let outbound = step.next.outbound().unwrap();
    assert_eq!(outbound.verb, Verb::Post);
    assert_eq!(outbound.url, "https://localhost:8443/a/b/c?x=1");
    assert_eq!(outbound.body, b"body bytes".to_vec());
    assert_eq!(outbound.headers, request("POST", "/").headers);
}

#[test]
fn unsupported_method_is_answered_without_an_attempt() {
    let mut state = active_service_discovery(request("BREW", "/a/b/c?x=1")).next;
    let events = vec![
        Event::RoutesFound { routes: routes() },
        Event::LoadBalancerFound { pool: pool(&[KEY]), cursor: 0 },
        Event::ContainerFound { container: record() },
        Event::StartFinished { failure: None },
    ];
    let mut last = Action::Nothing;
    for event in events {
        let step = state.step(event, 0);
        assert_ne!(step.action, Action::Attempt);
        assert!(step.next.outbound().is_none());
        state = step.next;
        last = step.action;
    }
    assert_eq!(state, Gateway::Failed { reason: Failure::UnsupportedMethod });
    assert_eq!(last, respond(500, b""));
}

#[test]
fn answer_of_the_container_ends_the_request() {
    let step = forwarding("GET", 0).step(
        Event::AttemptFinished { outcome: Outcome::Answered { status: 201, body: b"made".to_vec() } },
        5,
    );
    assert_eq!(step.next, Gateway::Forwarded);
    assert_eq!(step.action, respond(201, b"made"));
    assert_eq!(step.next.stage(), Stage::Forwarded);
    assert!(step.next.is_finished());
}

#[test]
fn error_status_of_the_container_is_passed_on_as_an_answer() {
    let step = forwarding("GET", 0).step(
        Event::AttemptFinished { outcome: Outcome::Answered { status: 500, body: b"oops".to_vec() } },
        5,
    );
    assert_eq!(step.next, Gateway::Forwarded);
    assert_eq!(step.action, respond(500, b"oops"));
}

#[test]
fn refused_get_is_retried_until_the_budget_is_spent_then_times_out() {
    let mut state = forwarding("GET", 1000);
    let mut attempts = 1;
    let mut now = 1000;
    loop {
        now += 250;
        let step = state.step(refused(), now);
        state = step.next;
        match step.action {
            Action::Attempt => {
                assert!(now - 1000 < 3000);
                attempts += 1;
            }
            other => {
                assert_eq!(other, respond(408, b""));
                break;
            }
        }
        assert!(attempts < 100);
    }
    assert_eq!(now, 4000);
    assert_eq!(attempts, 12);
    assert_eq!(state, Gateway::Failed { reason: Failure::TimedOut });
}

#[test]
fn post_is_sent_unchanged_on_every_attempt() {
    let mut state = forwarding("POST", 0);
    let first = format!("{:?}", state.outbound().unwrap());
    for now in [100, 900, 1700, 2999] {
        let step = state.step(refused(), now);
        assert_eq!(step.action, Action::Attempt);
        state = step.next;
        let again = state.outbound().unwrap();
        assert_eq!(format!("{:?}", again), first);
        assert_eq!(again.body, b"body bytes".to_vec());
        assert_eq!(again.headers, request("POST", "/").headers);
    }
}

#[test]
fn failure_with_a_status_ends_the_request_with_that_status() {
    let outcome = Outcome::Failed { code: Some(503), connect: false, timed_out: false, text: "unavailable".to_string() };
    let step = forwarding("GET", 0).step(Event::AttemptFinished { outcome }, 1);
    assert_eq!(step, failed(Failure::ForwardFailure, 503, b"unavailable"));
}

#[test]
fn fatal_failure_is_not_retried() {
    let outcome = Outcome::Failed { code: None, connect: false, timed_out: false, text: "bad request".to_string() };
    let step = forwarding("GET", 0).step(Event::AttemptFinished { outcome }, 1);
    assert_eq!(step, failed(Failure::ForwardFailure, 500, b"bad request"));
}

#[test]
fn caller_that_goes_away_ends_the_request_without_an_answer() {
    for state in [
        active_service_discovery(request("GET", "/a")).next,
        resolved("GET"),
        selected("GET"),
        starting("GET"),
        forwarding("GET", 0),
    ] {
        let step = state.step(Event::ClientGone, 9);
        assert_eq!(step.next, Gateway::Failed { reason: Failure::ClientGone });
        assert_eq!(step.action, Action::Nothing);
        assert_eq!(step.cursor, None);
    }
}

#[test]
fn ended_request_ignores_what_comes_after() {
    let step = Gateway::Forwarded.step(refused(), 1);
    assert_eq!(step.next, Gateway::Forwarded);
    assert_eq!(step.action, Action::Nothing);
    let ended = Gateway::Failed { reason: Failure::TimedOut };
    let step = ended.step(Event::RoutesFound { routes: routes() }, 1);
    assert_eq!(step.next, Gateway::Failed { reason: Failure::TimedOut });
    assert_eq!(step.action, Action::Nothing);
    let step = Gateway::Forwarded.step(Event::ClientGone, 1);
    assert_eq!(step.next, Gateway::Forwarded);
}

#[test]
fn event_out_of_turn_is_an_internal_error() {
    let step = active_service_discovery(request("GET", "/a")).next.step(Event::StartFinished { failure: None }, 0);
    assert_eq!(step, failed(Failure::OutOfTurn, 500, b""));
    let step = resolved("GET").step(Event::RoutesFound { routes: routes() }, 0);
    assert_eq!(step, failed(Failure::OutOfTurn, 500, b""));
    let step = selected("GET").step(Event::StartFinished { failure: None }, 0);
    assert_eq!(step, failed(Failure::OutOfTurn, 500, b""));
    let step = starting("GET").step(Event::ContainerFound { container: record() }, 0);
    assert_eq!(step, failed(Failure::OutOfTurn, 500, b""));
    let step = forwarding("GET", 0).step(Event::LoadBalancerFound { pool: None, cursor: 0 }, 0);
    assert_eq!(step, failed(Failure::OutOfTurn, 500, b""));
    let step = resolved("GET").step(refused(), 0);
    assert_eq!(step, failed(Failure::OutOfTurn, 500, b""));
}

#[test]
fn stage_steps_agree_with_the_machine() {
    let by_machine = resolved("GET").step(Event::LoadBalancerFound { pool: pool(&[KEY]), cursor: 0 }, 0);
    let direct = port_forward_request(request("GET", "/a/b/c?x=1"), pool(&[KEY]), 0);
    assert_eq!(by_machine, direct);
    let direct = Gateway::on_routes(request("GET", "/a/b/c?x=1"), routes());
    assert_eq!(direct.next, resolved("GET"));
    let direct = Gateway::on_record(request("GET", "/a/b/c?x=1"), KEY_BYTES, record());
    assert_eq!(direct.next, starting("GET"));
    let direct = Gateway::on_start(request("GET", "/a/b/c?x=1"), record().unwrap(), None, 7);
    assert_eq!(direct.next, forwarding("GET", 7));
}

#[test]
fn forwarding_begins_with_an_attempt() {
    let step = forward_request(request("PUT", "/items/1"), 7001, 99);
    assert_eq!(step.action, Action::Attempt);
    assert_eq!(step.cursor, None);
    let outbound = step.next.outbound().unwrap();
    assert_eq!(outbound.verb, Verb::Put);
    assert_eq!(outbound.url, "https://localhost:7001/items/1");
    assert_eq!(outbound.body, b"body bytes".to_vec());
    let later = step.next.step(refused(), 99 + 2999);
    assert_eq!(later.action, Action::Attempt);
    let end = later.next.step(refused(), 99 + 3000);
    assert_eq!(end, failed(Failure::TimedOut, 408, b""));
}

#[test]
fn forwarding_of_a_custom_verb_ends_at_once() {
    let step = forward_request(request("PROPFIND", "/a"), 7001, 0);
    assert_eq!(step, failed(Failure::UnsupportedMethod, 500, b""));
}

#[test]
fn time_left_is_known_while_forwarding_only() {
    assert_eq!(forwarding("GET", 500).time_left(1500), Some(2000));
    assert_eq!(forwarding("GET", 500).time_left(3500), Some(0));
    assert_eq!(starting("GET").time_left(0), None);
    assert_eq!(Gateway::Forwarded.time_left(0), None);
}

#[test]
fn offered_routes_of_which_none_is_eligible_are_not_found() {
    let received = active_service_discovery(request("GET", "/abc")).next;
    let offered = vec![
        ContainerRoute::new("/a".to_string(), "S1".to_string()),
        ContainerRoute::new("/ab".to_string(), "S2".to_string()),
    ];
    let step = received.step(Event::RoutesFound { routes: offered }, 0);
    assert_eq!(step, failed(Failure::RouteNotFound, 404, b""));
}

#[test]
fn attempt_given_up_at_the_end_of_the_budget_ends_in_a_timeout() {
    let given_up = || Event::AttemptFinished {
        outcome: Outcome::Failed {
            code: None,
            connect: false,
            timed_out: true,
            text: "timed out".to_string(),
        },
    };
    let early = forwarding("GET", 0).step(given_up(), 2000);
    assert_eq!(early.action, Action::Attempt);
    let late = early.next.step(given_up(), 3000);
    assert_eq!(late, failed(Failure::TimedOut, 408, b""));
}
