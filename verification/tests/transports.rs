use rollbar_rs::configuration::{set_token, Configuration};
use rollbar_rs::custom::CustomMap;
use rollbar_rs::dispatch::TokioTransport;
use rollbar_rs::errors::{ConstructionError, ErrorKind};
use rollbar_rs::level::Level;
use rollbar_rs::models::{Data, Item};
use rollbar_rs::threaded::{
    remaining_wait, DrainOutcome, Offer, ThreadedTransport, WorkerAction, WorkerState, QUEUE_CAPACITY,
    SHUTDOWN_TIMEOUT_MILLIS,
};
use rollbar_rs::transport::{
    token_header_name, user_agent_name, DeliveryRequest, Transport, TransportConfig, TransportEvent,
    DEFAULT_TIMEOUT_MILLIS,
};

fn item(text: &str) -> Item {
    Item { data: Data::message(Level::Error, text, CustomMap::new()) }
}

fn body_of(request: &DeliveryRequest) -> String {
    match &request.payload.data.body {
        rollbar_rs::models::Body::MessageBody { message } => message.body.clone(),
        _ => panic!("expected a message"),
    }
}

fn with_token(token: &str) -> Configuration {
    let mut config = Configuration::new("linux");
    set_token(&mut config, token);
    config
}

fn settings(endpoint: &str, proxy: Option<&str>) -> TransportConfig {
    TransportConfig { endpoint: endpoint.to_string(), timeout_millis: 250, proxy: proxy.map(|p| p.to_string()) }
}

fn threaded() -> ThreadedTransport {
    ThreadedTransport::new(&settings("http://127.0.0.1:9/item/", None)).ok().unwrap()
}

fn expect_delivery(action: WorkerAction) -> DeliveryRequest {
    match action {
        WorkerAction::Deliver(request) => request,
        WorkerAction::Wait => panic!("expected a delivery, got Wait"),
        WorkerAction::Exit => panic!("expected a delivery, got Exit"),
    }
}

#[test]
fn default_settings() {
    let config = TransportConfig::default();
    assert_eq!(config.endpoint, "https://api.rollbar.com/api/1/item/");
    assert_eq!(config.timeout_millis, 10000);
    assert_eq!(DEFAULT_TIMEOUT_MILLIS, 10000);
    assert_eq!(config.proxy, None);
    let copy = config.duplicate();
    assert_eq!(copy.endpoint, config.endpoint);
    assert_eq!(copy.timeout_millis, config.timeout_millis);
    assert_eq!(copy.proxy, config.proxy);
}

#[test]
fn fixed_names() {
    assert_eq!(token_header_name(), "X-Rollbar-Access-Token");
    assert_eq!(user_agent_name(), "SierraSoftworks/rollbar-rs v0.1.0");
    assert_eq!(QUEUE_CAPACITY, 100);
    assert_eq!(SHUTDOWN_TIMEOUT_MILLIS, 5000);
}

#[test]
fn settings_without_proxy_give_a_builder_that_builds() {
    let builder = TransportConfig::default().client_builder().ok().unwrap();
    assert!(builder.build().is_ok());
}

#[test]
fn settings_with_a_proxy_url_are_usable() {
    assert!(settings("http://e/", Some("http://proxy.example:3128")).client_builder().is_ok());
    assert!(settings("http://e/", Some("https://user:pw@proxy.example")).client_builder().is_ok());
    assert!(settings("http://e/", Some("proxy.example:3128")).client_builder().is_ok());
}

fn expect_invalid_proxy(result: Result<reqwest::ClientBuilder, ConstructionError>) {
    match result {
        Ok(_) => panic!("the proxy must be refused"),
        Err(e) => {
            assert_eq!(e.kind, ErrorKind::InvalidProxy);
            assert_eq!(e.description, "We could not configure Rollbar to use the proxy you provided.");
            assert_eq!(
                e.advice,
                "Make sure that you have specified a valid proxy URL in your configuration and try again."
            );
            assert!(e.internal.is_some());
        }
    }
}

#[test]
fn settings_with_a_bad_proxy_are_refused() {
    expect_invalid_proxy(settings("http://e/", Some("not a url")).client_builder());
    expect_invalid_proxy(settings("http://e/", Some("")).client_builder());
    expect_invalid_proxy(settings("http://e/", Some("ftp://proxy.example")).client_builder());
}

#[test]
fn transports_are_not_constructed_over_a_bad_proxy() {
    let bad = settings("http://e/", Some("not a url"));
    match ThreadedTransport::new(&bad) {
        Ok(_) => panic!("construction must fail"),
        Err(e) => assert_eq!(e.kind, ErrorKind::InvalidProxy),
    }
    match TokioTransport::new(&bad) {
        Ok(_) => panic!("construction must fail"),
        Err(e) => assert_eq!(e.kind, ErrorKind::InvalidProxy),
    }
}

#[test]
fn client_failure_keeps_its_cause() {
    let cause = reqwest::Proxy::all("not a url").err().unwrap();
    let e = ConstructionError::caused_by(ErrorKind::InvalidClient, cause);
    assert_eq!(e.kind, ErrorKind::InvalidClient);
    assert_eq!(e.description, "We could not configure Rollbar based on the configuration you have provided.");
    assert_eq!(e.advice, "Make sure that you have specified a valid configuration and try again.");
    assert!(e.internal.is_some());
}

#[test]
fn request_carries_a_writable_credential() {
    let r = DeliveryRequest::new("http://e/", "tok".to_string(), item("a"));
    assert_eq!(r.endpoint, "http://e/");
    assert_eq!(r.access_token, Some("tok".to_string()));
    assert_eq!(body_of(&r), "a");
    let tab = DeliveryRequest::new("http://e/", "a\tb".to_string(), item("a"));
    assert_eq!(tab.access_token, Some("a\tb".to_string()));
    let wide = DeliveryRequest::new("http://e/", "cl\u{e9}".to_string(), item("a"));
    assert_eq!(wide.access_token, Some("cl\u{e9}".to_string()));
    let empty = DeliveryRequest::new("http://e/", String::new(), item("a"));
    assert_eq!(empty.access_token, Some(String::new()));
}

#[test]
fn request_omits_a_credential_with_control_characters() {
    let newline = DeliveryRequest::new("http://e/", "bad\ntoken".to_string(), item("a"));
    assert_eq!(newline.access_token, None);
    assert_eq!(body_of(&newline), "a");
    let delete = DeliveryRequest::new("http://e/", "bad\u{7f}".to_string(), item("a"));
    assert_eq!(delete.access_token, None);
    let nul = DeliveryRequest::new("http://e/", "\u{0}".to_string(), item("a"));
    assert_eq!(nul.access_token, None);
}

#[test]
fn new_queue_is_running_and_empty() {
    let mut t = threaded();
    assert_eq!(t.state(), WorkerState::Running);
    assert_eq!(t.len(), 0);
    assert_eq!(t.endpoint(), "http://127.0.0.1:9/item/");
    assert!(matches!(t.next_action(), WorkerAction::Wait));
    assert!(t.take_builder().is_some());
    assert!(t.take_builder().is_none());
}

#[test]
fn worker_gets_entries_in_the_order_they_were_sent() {
    let config = with_token("tok");
    let mut t = threaded();
    t.send(TransportEvent { config: &config, payload: item("E1") });
    t.send(TransportEvent { config: &config, payload: item("E2") });
    t.send(TransportEvent { config: &config, payload: item("E3") });
    assert_eq!(t.len(), 3);
    let first = expect_delivery(t.next_action());
    assert_eq!(body_of(&first), "E1");
    assert_eq!(first.endpoint, "http://127.0.0.1:9/item/");
    assert_eq!(first.access_token, Some("tok".to_string()));
    t.send(TransportEvent { config: &config, payload: item("E4") });
    assert_eq!(body_of(&expect_delivery(t.next_action())), "E2");
    assert_eq!(body_of(&expect_delivery(t.next_action())), "E3");
    assert_eq!(body_of(&expect_delivery(t.next_action())), "E4");
    assert!(matches!(t.next_action(), WorkerAction::Wait));
    assert_eq!(t.len(), 0);
}

#[test]
fn send_without_credential_queues_nothing() {
    let config = Configuration::new("linux");
    let mut t = threaded();
    t.send(TransportEvent { config: &config, payload: item("E1") });
    assert_eq!(t.len(), 0);
    assert!(matches!(t.next_action(), WorkerAction::Wait));
    let mut d = TokioTransport::new(&TransportConfig::default()).ok().unwrap();
    d.send(TransportEvent { config: &config, payload: item("E1") });
    assert_eq!(d.take_scheduled(true).len(), 0);
}

#[test]
fn queue_never_grows_past_its_capacity() {
    let config = with_token("tok");
    let mut t = threaded();
    for i in 0..QUEUE_CAPACITY {
        assert!(matches!(t.offer("tok".to_string(), item(&format!("E{}", i))), Offer::Queued));
    }
    assert_eq!(t.len(), 100);
    match t.offer("tok".to_string(), item("over")) {
        Offer::Full(token, payload) => {
            assert_eq!(token, "tok");
            assert_eq!(payload.data.level, Some(Level::Error));
        }
        _ => panic!("a full queue hands the event back"),
    }
    t.send(TransportEvent { config: &config, payload: item("dropped") });
    assert_eq!(t.len(), 100);
    assert_eq!(body_of(&expect_delivery(t.next_action())), "E0");
    assert_eq!(t.len(), 99);
    assert!(matches!(t.offer("tok".to_string(), item("fits")), Offer::Queued));
    assert_eq!(t.len(), 100);
}

#[test]
fn shutdown_drains_what_was_queued() {
    let config = with_token("tok");
    let mut t = threaded();
    t.send(TransportEvent { config: &config, payload: item("E1") });
    t.send(TransportEvent { config: &config, payload: item("E2") });
    t.shutdown();
    assert_eq!(t.state(), WorkerState::Draining);
    assert_eq!(t.len(), 2);
    assert_eq!(body_of(&expect_delivery(t.next_action())), "E1");
    assert_eq!(t.state(), WorkerState::Draining);
    assert_eq!(body_of(&expect_delivery(t.next_action())), "E2");
    assert!(matches!(t.next_action(), WorkerAction::Exit));
    assert_eq!(t.state(), WorkerState::Stopped);
    assert_eq!(t.conclude(), DrainOutcome::Drained);
    assert_eq!(t.state(), WorkerState::Stopped);
    assert!(matches!(t.next_action(), WorkerAction::Exit));
}

#[test]
fn shutdown_that_times_out_discards_the_rest() {
    let config = with_token("tok");
    let mut t = threaded();
    t.send(TransportEvent { config: &config, payload: item("E1") });
    t.send(TransportEvent { config: &config, payload: item("E2") });
    t.send(TransportEvent { config: &config, payload: item("E3") });
    t.shutdown();
    assert_eq!(body_of(&expect_delivery(t.next_action())), "E1");
    assert_eq!(t.conclude(), DrainOutcome::TimedOut(2));
    assert_eq!(t.state(), WorkerState::Stopped);
    assert_eq!(t.len(), 0);
    assert!(matches!(t.next_action(), WorkerAction::Exit));
    assert_eq!(t.conclude(), DrainOutcome::Drained);
}

#[test]
fn nothing_is_taken_on_after_shutdown() {
    let config = with_token("tok");
    let mut t = threaded();
    t.shutdown();
    t.shutdown();
    assert_eq!(t.state(), WorkerState::Draining);
    match t.offer("tok".to_string(), item("late")) {
        Offer::Closed(token, _) => assert_eq!(token, "tok"),
        _ => panic!("a draining transport hands the event back"),
    }
    t.send(TransportEvent { config: &config, payload: item("late") });
    assert_eq!(t.len(), 0);
    assert!(matches!(t.next_action(), WorkerAction::Exit));
    assert!(matches!(t.offer("tok".to_string(), item("later")), Offer::Closed(_, _)));
    t.shutdown();
    assert_eq!(t.state(), WorkerState::Stopped);
}

#[test]
fn two_transports_stop_without_a_worker() {
    let config = with_token("tok");
    let unreachable = settings("http://127.0.0.1:9/item/", None);
    let mut a = ThreadedTransport::new(&unreachable).ok().unwrap();
    let mut b = ThreadedTransport::new(&unreachable).ok().unwrap();
    a.send(TransportEvent { config: &config, payload: item("A1") });
    b.send(TransportEvent { config: &config, payload: item("B1") });
    b.send(TransportEvent { config: &config, payload: item("B2") });
    a.shutdown();
    b.shutdown();
    assert_eq!(remaining_wait(SHUTDOWN_TIMEOUT_MILLIS), None);
    assert_eq!(a.conclude(), DrainOutcome::TimedOut(1));
    assert_eq!(b.conclude(), DrainOutcome::TimedOut(2));
    assert_eq!(a.state(), WorkerState::Stopped);
    assert_eq!(b.state(), WorkerState::Stopped);
    assert!(matches!(a.next_action(), WorkerAction::Exit));
    assert!(matches!(b.next_action(), WorkerAction::Exit));
}

#[test]
fn shutdown_wait_is_bounded() {
    assert_eq!(remaining_wait(0), Some(5000));
    assert_eq!(remaining_wait(1), Some(4999));
    assert_eq!(remaining_wait(4999), Some(1));
    assert_eq!(remaining_wait(5000), None);
    assert_eq!(remaining_wait(u64::MAX), None);
}

#[test]
fn dispatch_makes_one_request_per_credentialed_event() {
    let config = with_token("tok");
    let request = TokioTransport::dispatch("http://e/", TransportEvent { config: &config, payload: item("E1") });
    let request = request.unwrap();
    assert_eq!(request.endpoint, "http://e/");
    assert_eq!(request.access_token, Some("tok".to_string()));
    assert_eq!(body_of(&request), "E1");
    let none = Configuration::new("linux");
    assert!(TokioTransport::dispatch("http://e/", TransportEvent { config: &none, payload: item("E1") }).is_none());
}

#[test]
fn dispatcher_hands_out_what_was_sent_once() {
    let config = with_token("tok");
    let mut d = TokioTransport::new(&settings("http://e/", None)).ok().unwrap();
    assert_eq!(d.endpoint(), "http://e/");
    d.send(TransportEvent { config: &config, payload: item("E1") });
    d.send(TransportEvent { config: &config, payload: item("E2") });
    let requests = d.take_scheduled(true);
    assert_eq!(requests.len(), 2);
    assert_eq!(body_of(&requests[0]), "E1");
    assert_eq!(body_of(&requests[1]), "E2");
    assert_eq!(requests[0].endpoint, "http://e/");
    assert_eq!(d.take_scheduled(true).len(), 0);
    assert!(d.take_builder().is_some());
    assert!(d.take_builder().is_none());
}

#[test]
fn dispatcher_drops_work_the_runtime_refuses() {
    let config = with_token("tok");
    let mut d = TokioTransport::new(&settings("http://e/", None)).ok().unwrap();
    d.send(TransportEvent { config: &config, payload: item("E1") });
    assert_eq!(d.take_scheduled(false).len(), 0);
    assert_eq!(d.take_scheduled(true).len(), 0);
}

#[test]
fn try_send_reports_what_became_of_the_event() {
    let config = with_token("tok");
    let none = Configuration::new("linux");
    let mut t = threaded();
    assert!(t.try_send(TransportEvent { config: &none, payload: item("E0") }).is_none());
    assert!(matches!(t.try_send(TransportEvent { config: &config, payload: item("E1") }), Some(Offer::Queued)));
    assert_eq!(t.len(), 1);
    for i in 1..QUEUE_CAPACITY {
        assert!(matches!(
            t.try_send(TransportEvent { config: &config, payload: item(&format!("E{}", i + 1)) }),
            Some(Offer::Queued)
        ));
    }
    match t.try_send(TransportEvent { config: &config, payload: item("over") }) {
        Some(Offer::Full(token, payload)) => {
            assert_eq!(token, "tok");
            match payload.data.body {
                rollbar_rs::models::Body::MessageBody { message } => assert_eq!(message.body, "over"),
                _ => panic!("expected a message"),
            }
        }
        _ => panic!("a full queue hands the event back"),
    }
    t.shutdown();
    assert!(matches!(t.try_send(TransportEvent { config: &config, payload: item("late") }), Some(Offer::Closed(_, _))));
    assert!(t.try_send(TransportEvent { config: &none, payload: item("late") }).is_none());
    assert_eq!(t.len(), 100);
}
