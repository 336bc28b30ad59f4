use rollbar_rs::client::Client;
use rollbar_rs::configuration::{set_environment, set_log_level, set_token, Configuration};
use rollbar_rs::custom::CustomMap;
use rollbar_rs::dispatch::TokioTransport;
use rollbar_rs::level::Level;
use rollbar_rs::models::Data;
use rollbar_rs::threaded::{ThreadedTransport, WorkerAction};
use rollbar_rs::transport::{Transport, TransportConfig};

fn configured(token: Option<&str>, minimum: Level) -> Configuration {
    let mut config = Configuration::new("linux");
    if let Some(t) = token {
        set_token(&mut config, t);
    }
    set_log_level(&mut config, minimum);
    config
}

fn queued_client(config: Configuration) -> Client<ThreadedTransport> {
    let settings =
        TransportConfig { endpoint: "http://collector.test/item/".to_string(), timeout_millis: 100, proxy: None };
    Client::new(ThreadedTransport::new(&settings).ok().unwrap(), config)
}

#[test]
fn event_below_the_minimum_is_not_sent() {
    let mut client = queued_client(configured(Some("tok"), Level::Warning));
    client.report(Data::message(Level::Debug, "quiet", CustomMap::new()), "linux");
    client.report(Data::message(Level::Info, "quiet", CustomMap::new()), "linux");
    assert_eq!(client.transport().len(), 0);
    assert!(matches!(client.transport_mut().next_action(), WorkerAction::Wait));
}

#[test]
fn event_at_or_above_the_minimum_is_sent_once() {
    let mut client = queued_client(configured(Some("tok"), Level::Warning));
    client.report(Data::message(Level::Debug, "quiet", CustomMap::new()), "linux");
    client.report(Data::message(Level::Error, "loud", CustomMap::new()), "linux");
    assert_eq!(client.transport().len(), 1);
    match client.transport_mut().next_action() {
        WorkerAction::Deliver(request) => {
            assert_eq!(request.endpoint, "http://collector.test/item/");
            assert_eq!(request.access_token, Some("tok".to_string()));
            assert_eq!(request.payload.data.level, Some(Level::Error));
            assert_eq!(request.payload.data.level.unwrap().as_str(), "error");
            assert_eq!(request.payload.data.platform, Some("linux".to_string()));
            assert_eq!(request.payload.data.language, Some("rust".to_string()));
        }
        _ => panic!("exactly one request is expected"),
    }
    assert!(matches!(client.transport_mut().next_action(), WorkerAction::Wait));
}

#[test]
fn event_at_the_minimum_is_sent() {
    let mut client = queued_client(configured(Some("tok"), Level::Warning));
    client.report(Data::message(Level::Warning, "edge", CustomMap::new()), "linux");
    assert_eq!(client.transport().len(), 1);
}

#[test]
fn nothing_is_sent_without_a_credential() {
    let mut client = queued_client(configured(None, Level::Debug));
    client.report(Data::message(Level::Critical, "lost", CustomMap::new()), "linux");
    client.report(Data::message(Level::Debug, "lost", CustomMap::new()), "linux");
    assert_eq!(client.transport().len(), 0);
}

#[test]
fn report_with_fixes_the_identifier_of_a_bare_event() {
    let mut config = configured(Some("tok"), Level::Debug);
    set_environment(&mut config, "production");
    let mut client = queued_client(config);
    let mut data = Data::message(Level::Info, "hello", CustomMap::new());
    data.uuid = None;
    client.report_with(data, "linux", "fixed-id".to_string());
    match client.transport_mut().next_action() {
        WorkerAction::Deliver(request) => {
            assert_eq!(request.payload.data.uuid, Some("fixed-id".to_string()));
            assert_eq!(request.payload.data.environment, Some("production".to_string()));
        }
        _ => panic!("one request is expected"),
    }
}

#[test]
fn client_keeps_its_parts() {
    let client = queued_client(configured(Some("tok"), Level::Error));
    assert_eq!(client.config().access_token, Some("tok".to_string()));
    assert_eq!(client.config().log_level, Level::Error);
    assert_eq!(client.transport().endpoint(), "http://collector.test/item/");
    let (transport, config) = client.into_parts();
    assert_eq!(transport.len(), 0);
    assert_eq!(config.log_level, Level::Error);
}

#[test]
fn default_transports_can_be_constructed() {
    let queued = Client::<ThreadedTransport>::with_default_transport(Configuration::new("linux"));
    let queued = queued.ok().unwrap();
    assert_eq!(queued.transport().endpoint(), "https://api.rollbar.com/api/1/item/");
    let dispatched = Client::<TokioTransport>::with_default_transport(Configuration::new("linux"));
    let mut dispatched = dispatched.ok().unwrap();
    assert_eq!(dispatched.transport().endpoint(), "https://api.rollbar.com/api/1/item/");
    dispatched.report(Data::message(Level::Error, "x", CustomMap::new()), "linux");
    assert_eq!(dispatched.transport_mut().take_scheduled(true).len(), 0);
}

#[test]
fn dispatcher_client_schedules_surviving_events() {
    let mut client =
        Client::new(TokioTransport::new(&TransportConfig::default()).ok().unwrap(), configured(Some("tok"), Level::Warning));
    client.report(Data::message(Level::Debug, "quiet", CustomMap::new()), "linux");
    client.report(Data::message(Level::Error, "loud", CustomMap::new()), "linux");
    let requests = client.transport_mut().take_scheduled(true);
    assert_eq!(requests.len(), 1);
    assert_eq!(requests[0].access_token, Some("tok".to_string()));
    assert_eq!(requests[0].payload.data.level, Some(Level::Error));
}
