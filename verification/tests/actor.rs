use nacos_grpc::api_model::{server_check_payload, ClientConfig};
use nacos_grpc::client::{
    Action, ClientError, Event, InnerGrpcClient, InnerGrpcClientCmd, InnerGrpcClientResult,
};
use nacos_grpc::dispatcher::InboundRead;
use nacos_grpc::machine::{Phase, HEARTBEAT_INTERVAL_MS};
use nacos_grpc::payload::{Payload, PayloadUtils};
use nacos_grpc::transport::ParsedEndpoint;

fn runtime() -> tokio::runtime::Runtime {
    tokio::runtime::Builder::new_current_thread().build().unwrap()
}

fn client(rt: &tokio::runtime::Runtime) -> InnerGrpcClient {
    let _entered = rt.enter();
    InnerGrpcClient::new("http://127.0.0.1:8848".to_string()).unwrap()
}

fn sender() -> tokio::sync::mpsc::Sender<Option<Payload>> {
    tokio::sync::mpsc::channel(5).0
}

fn frame(tag: &str) -> Payload {
    PayloadUtils::build_payload(tag, "{}".to_string())
}

fn setup_json(config: &ClientConfig) -> String {
    let (names, client_version) = config.setup_request().into_parts();
    let mut labels = serde_json::Map::new();
    for (k, v) in names {
        labels.insert(k, serde_json::Value::String(v));
    }
    let mut body = serde_json::Map::new();
    body.insert("labels".to_string(), serde_json::Value::Object(labels));
    if let Some(version) = client_version {
        body.insert("clientVersion".to_string(), serde_json::Value::String(version));
    }
    serde_json::to_string(&serde_json::Value::Object(body)).unwrap()
}

fn streaming(rt: &tokio::runtime::Runtime) -> InnerGrpcClient {
    let mut c = client(rt);
    c.started();
    let body = setup_json(c.config());
    c.conn_bi_stream_opened(sender(), body);
    c
}

fn probe() -> Action {
    Action::UnaryCall { payload: server_check_payload(), reply: false }
}

#[test]
fn new_refuses_an_address_that_is_no_uri() {
    let rt = runtime();
    let _entered = rt.enter();
    assert_eq!(InnerGrpcClient::new(String::new()).err(), Some(ClientError::InvalidAddress));
    assert_eq!(
        InnerGrpcClient::new("http://bad host/".to_string()).err(),
        Some(ClientError::InvalidAddress)
    );
}

#[test]
fn new_outside_a_runtime_reports_it() {
    assert_eq!(
        InnerGrpcClient::new("http://127.0.0.1:8848".to_string()).err(),
        Some(ClientError::NoRuntime)
    );
    assert_eq!(InnerGrpcClient::new(String::new()).err(), Some(ClientError::InvalidAddress));
}

#[test]
fn new_client_is_created_and_idle() {
    let rt = runtime();
    let c = client(&rt);
    assert_eq!(c.phase(), Phase::Created);
    assert!(!c.stream_reader());
    assert!(c.stream_sender().is_none());
    assert_eq!(c.config(), &ClientConfig::default());
}

#[test]
fn new_by_channel_always_succeeds() {
    let rt = runtime();
    let _entered = rt.enter();
    let channel = tonic::transport::Channel::from_static("http://127.0.0.1:8848").connect_lazy();
    let c = InnerGrpcClient::new_by_channel(channel).unwrap();
    assert_eq!(c.phase(), Phase::Created);
    assert!(!c.stream_reader());
    assert!(c.stream_sender().is_none());
    let _shared = c.channel().clone();
}

#[test]
fn start_asks_for_the_stream_over_a_queue_of_five() {
    let rt = runtime();
    let mut c = client(&rt);
    assert_eq!(c.started(), vec![Action::OpenStream { queue_capacity: 5 }]);
    assert_eq!(c.phase(), Phase::Connecting);
    assert_eq!(c.started(), Vec::<Action>::new());
    assert_eq!(c.phase(), Phase::Connecting);
}

#[test]
fn setup_envelope_is_the_first_outbound_frame() {
    let rt = runtime();
    let mut c = client(&rt);
    c.started();
    let body = setup_json(c.config());
    let actions = c.conn_bi_stream_opened(sender(), body.clone());
    assert_eq!(actions.len(), 3);
    assert_eq!(actions[0], Action::StartDispatcher);
    assert_eq!(actions[2], Action::ScheduleHeartbeat { delay_ms: 5000 });
    let setup = match &actions[1] {
        Action::SendSetup(p) => p.clone(),
        other => panic!("expected the setup handshake, got {:?}", other),
    };
    assert_eq!(setup.type_tag(), "ConnectionSetupRequest");
    assert_eq!(setup.client_ip(), "127.0.0.1");
    assert!(setup.headers().is_empty());
    assert_eq!(setup.body(), &body.into_bytes());
    let parsed: serde_json::Value = serde_json::from_slice(setup.body()).unwrap();
    assert_eq!(
        parsed.get("labels").and_then(|l| l.get("AppName")).and_then(|v| v.as_str()),
        Some("rust_nacos_client")
    );
    assert_eq!(parsed.get("clientVersion").and_then(|v| v.as_str()), Some("0.3."));
    assert_eq!(c.phase(), Phase::Streaming);
    assert!(c.stream_reader());
    assert!(c.stream_sender().is_some());
}

#[test]
fn setup_is_sent_once_per_stream() {
    let rt = runtime();
    let mut c = streaming(&rt);
    assert_eq!(c.conn_bi_stream_opened(sender(), "{}".to_string()), Vec::<Action>::new());
    assert_eq!(c.started(), Vec::<Action>::new());
    assert_eq!(c.phase(), Phase::Streaming);
}

#[test]
fn stream_opened_before_start_is_ignored() {
    let rt = runtime();
    let mut c = client(&rt);
    assert_eq!(c.conn_bi_stream_opened(sender(), "{}".to_string()), Vec::<Action>::new());
    assert_eq!(c.phase(), Phase::Created);
    assert!(c.stream_sender().is_none());
}

#[test]
fn connect_failure_stops_the_actor() {
    let rt = runtime();
    let mut c = client(&rt);
    c.started();
    assert_eq!(c.conn_bi_stream_failed(), vec![Action::Stop]);
    assert_eq!(c.phase(), Phase::Stopped);
    assert_eq!(c.conn_bi_stream_opened(sender(), "{}".to_string()), Vec::<Action>::new());
    assert_eq!(c.started(), Vec::<Action>::new());
    assert_eq!(c.phase(), Phase::Stopped);
}

#[test]
fn no_probe_and_no_call_before_streaming() {
    let rt = runtime();
    let mut c = client(&rt);
    assert_eq!(c.heartbeat_tick(), Vec::<Action>::new());
    assert_eq!(c.check_heartbeat(), Vec::<Action>::new());
    assert_eq!(c.heartbeat(), Vec::<Action>::new());
    assert_eq!(c.do_request(frame("Q"), true), Vec::<Action>::new());
    c.started();
    assert_eq!(c.heartbeat_tick(), Vec::<Action>::new());
    assert_eq!(c.do_request(frame("Q"), false), Vec::<Action>::new());
    assert_eq!(c.receive_bi_stream(InboundRead::Frame(frame("A"))), Vec::<Action>::new());
    assert_eq!(c.phase(), Phase::Connecting);
}

#[test]
fn each_tick_issues_exactly_one_probe() {
    assert_eq!(HEARTBEAT_INTERVAL_MS, 5000);
    let rt = runtime();
    let c = streaming(&rt);
    let next = Action::ScheduleHeartbeat { delay_ms: 5000 };
    assert_eq!(c.heartbeat_tick(), vec![probe(), next.clone()]);
    assert_eq!(c.heartbeat_tick(), vec![probe(), next.clone()]);
    assert_eq!(c.check_heartbeat(), vec![probe()]);
    assert_eq!(c.heartbeat(), vec![next]);
}

#[test]
fn streaming_actor_dispatches_unary_requests() {
    let rt = runtime();
    let c = streaming(&rt);
    assert_eq!(
        c.do_request(frame("Q"), true),
        vec![Action::UnaryCall { payload: frame("Q"), reply: true }]
    );
    assert_eq!(
        c.do_request(frame("R"), false),
        vec![Action::UnaryCall { payload: frame("R"), reply: false }]
    );
}

#[test]
fn inbound_frames_are_delivered_then_end_stops_the_actor() {
    let rt = runtime();
    let mut c = streaming(&rt);
    assert_eq!(c.receive_bi_stream(InboundRead::Frame(frame("A"))), vec![Action::Deliver(frame("A"))]);
    assert_eq!(c.receive_bi_stream(InboundRead::Malformed), Vec::<Action>::new());
    assert_eq!(c.receive_bi_stream(InboundRead::Frame(frame("B"))), vec![Action::Deliver(frame("B"))]);
    assert_eq!(c.phase(), Phase::Streaming);
    assert_eq!(c.receive_bi_stream(InboundRead::End), vec![Action::Stop]);
    assert_eq!(c.phase(), Phase::Stopped);
    assert!(!c.stream_reader());
    assert!(c.stream_sender().is_none());
}

#[test]
fn first_read_error_stops_without_delivery() {
    let rt = runtime();
    let mut c = streaming(&rt);
    assert_eq!(c.receive_bi_stream(InboundRead::StreamError), vec![Action::Stop]);
    assert_eq!(c.phase(), Phase::Stopped);
    assert_eq!(c.receive_bi_stream(InboundRead::Frame(frame("A"))), Vec::<Action>::new());
}

#[test]
fn stopped_actor_sends_nothing_more() {
    let rt = runtime();
    let mut c = streaming(&rt);
    c.receive_bi_stream(InboundRead::End);
    assert_eq!(c.heartbeat_tick(), Vec::<Action>::new());
    assert_eq!(c.check_heartbeat(), Vec::<Action>::new());
    assert_eq!(c.heartbeat(), Vec::<Action>::new());
    assert_eq!(c.do_request(frame("Q"), true), Vec::<Action>::new());
    assert_eq!(c.stop(), Vec::<Action>::new());
    assert_eq!(c.on_event(Event::HeartbeatTick), Vec::<Action>::new());
    assert_eq!(c.phase(), Phase::Stopped);
}

#[test]
fn setup_send_failure_changes_nothing() {
    let rt = runtime();
    let mut c = streaming(&rt);
    assert_eq!(c.bi_stream_setup_failed(), Vec::<Action>::new());
    assert_eq!(c.on_event(Event::SetupSendFailed), Vec::<Action>::new());
    assert_eq!(c.phase(), Phase::Streaming);
    assert!(c.stream_reader());
    assert_eq!(c.receive_bi_stream(InboundRead::Frame(frame("A"))), vec![Action::Deliver(frame("A"))]);
}

#[test]
fn stop_request_stops_in_every_phase() {
    let rt = runtime();
    let mut created = client(&rt);
    assert_eq!(created.stop(), vec![Action::Stop]);
    assert_eq!(created.phase(), Phase::Stopped);
    assert_eq!(created.started(), Vec::<Action>::new());

    let mut live = streaming(&rt);
    assert_eq!(live.stop(), vec![Action::Stop]);
    assert_eq!(live.phase(), Phase::Stopped);
    assert!(live.stream_sender().is_none());
    assert!(!live.stream_reader());
    assert_eq!(live.receive_bi_stream(InboundRead::Frame(frame("A"))), Vec::<Action>::new());
}

#[test]
fn mailbox_messages_are_taken_without_effect() {
    let rt = runtime();
    let mut c = streaming(&rt);
    assert_eq!(
        c.handle(InnerGrpcClientCmd::ReceiverStreamItem(frame("A"))),
        Ok(InnerGrpcClientResult::NoResult)
    );
    assert_eq!(c.handle(InnerGrpcClientCmd::Ping), Ok(InnerGrpcClientResult::NoResult));
    assert_eq!(c.phase(), Phase::Streaming);
    assert!(c.stream_reader());
}

#[test]
fn events_drive_the_same_transitions() {
    let rt = runtime();
    let mut c = client(&rt);
    assert_eq!(c.on_event(Event::Started), vec![Action::OpenStream { queue_capacity: 5 }]);
    let actions = c.on_event(Event::StreamOpened { sender: sender(), setup_body: "{}".to_string() });
    assert_eq!(
        actions,
        vec![
            Action::StartDispatcher,
            Action::SendSetup(PayloadUtils::build_full_payload(
                "ConnectionSetupRequest",
                "{}".to_string(),
                "127.0.0.1",
                Vec::new(),
            )),
            Action::ScheduleHeartbeat { delay_ms: 5000 },
        ]
    );
    assert_eq!(
        c.on_event(Event::UnaryRequest { payload: frame("Q"), reply: true }),
        vec![Action::UnaryCall { payload: frame("Q"), reply: true }]
    );
    assert_eq!(
        c.on_event(Event::Inbound(InboundRead::Frame(frame("A")))),
        vec![Action::Deliver(frame("A"))]
    );
    assert_eq!(c.on_event(Event::Inbound(InboundRead::End)), vec![Action::Stop]);
    assert_eq!(c.on_event(Event::StopRequested), Vec::<Action>::new());
    assert_eq!(c.phase(), Phase::Stopped);

    let mut failing = client(&rt);
    failing.on_event(Event::Started);
    assert_eq!(failing.on_event(Event::StreamFailed), vec![Action::Stop]);
    assert_eq!(failing.phase(), Phase::Stopped);
}

#[test]
fn custom_config_sets_the_client_address() {
    let rt = runtime();
    let _entered = rt.enter();
    let channel = tonic::transport::Channel::from_static("http://127.0.0.1:8848").connect_lazy();
    let config = ClientConfig::new(
        vec![("AppName".to_string(), "demo".to_string())],
        None,
        "10.9.8.7".to_string(),
    )
    .unwrap();
    let mut c = InnerGrpcClient::new_with_config(channel, config.clone());
    assert_eq!(c.config(), &config);
    assert_eq!(c.bi_stream_setup("{}".to_string()).client_ip(), "10.9.8.7");
    c.started();
    let actions = c.conn_bi_stream_opened(sender(), setup_json(&config));
    match &actions[1] {
        Action::SendSetup(p) => {
            assert_eq!(p.client_ip(), "10.9.8.7");
            assert_eq!(p.body(), &b"{\"labels\":{\"AppName\":\"demo\"}}".to_vec());
        },
        other => panic!("expected the setup handshake, got {:?}", other),
    }
}

#[test]
fn parse_accepts_uris_only() {
    assert!(ParsedEndpoint::parse("http://127.0.0.1:8848".to_string()).is_ok());
    assert!(ParsedEndpoint::parse("/".to_string()).is_ok());
    assert_eq!(ParsedEndpoint::parse(String::new()).err(), Some(ClientError::InvalidAddress));
    assert_eq!(
        ParsedEndpoint::parse("http://bad host/".to_string()).err(),
        Some(ClientError::InvalidAddress)
    );
}

#[test]
fn new_on_refuses_a_bad_address_before_a_missing_runtime() {
    let bad = ParsedEndpoint::parse(String::new());
    let r = InnerGrpcClient::new_on(bad, tokio::runtime::Handle::try_current());
    assert_eq!(r.err(), Some(ClientError::InvalidAddress));

    let good = ParsedEndpoint::parse("http://127.0.0.1:8848".to_string());
    let r = InnerGrpcClient::new_on(good, tokio::runtime::Handle::try_current());
    assert_eq!(r.err(), Some(ClientError::NoRuntime));

    let rt = runtime();
    let good = ParsedEndpoint::parse("http://127.0.0.1:8848".to_string());
    let c = InnerGrpcClient::new_on(good, Ok(rt.handle().clone())).unwrap();
    assert_eq!(c.phase(), Phase::Created);
    let bad = ParsedEndpoint::parse(String::new());
    let r = InnerGrpcClient::new_on(bad, Ok(rt.handle().clone()));
    assert_eq!(r.err(), Some(ClientError::InvalidAddress));
    let r = InnerGrpcClient::new_on(Err(ClientError::NoRuntime), Ok(rt.handle().clone()));
    assert_eq!(r.err(), Some(ClientError::NoRuntime));
}

#[test]
fn a_whole_run_yields_its_actions_in_order() {
    let rt = runtime();
    let mut c = client(&rt);
    let actions = c.on_events(vec![
        Event::HeartbeatTick,
        Event::UnaryRequest { payload: frame("early"), reply: true },
        Event::Started,
        Event::HeartbeatTick,
        Event::StreamOpened { sender: sender(), setup_body: "{}".to_string() },
        Event::SetupSendFailed,
        Event::HeartbeatTick,
        Event::Inbound(InboundRead::Frame(frame("A"))),
        Event::Inbound(InboundRead::Malformed),
        Event::Inbound(InboundRead::Frame(frame("B"))),
        Event::HeartbeatTick,
        Event::Inbound(InboundRead::End),
        Event::HeartbeatTick,
        Event::Inbound(InboundRead::Frame(frame("late"))),
        Event::UnaryRequest { payload: frame("late"), reply: false },
    ]);
    let tick = Action::ScheduleHeartbeat { delay_ms: 5000 };
    assert_eq!(
        actions,
        vec![
            Action::OpenStream { queue_capacity: 5 },
            Action::StartDispatcher,
            Action::SendSetup(c.bi_stream_setup("{}".to_string())),
            tick.clone(),
            probe(),
            tick.clone(),
            Action::Deliver(frame("A")),
            Action::Deliver(frame("B")),
            probe(),
            tick,
            Action::Stop,
        ]
    );
    assert_eq!(c.phase(), Phase::Stopped);
    assert_eq!(c.on_events(Vec::new()), Vec::<Action>::new());
}
