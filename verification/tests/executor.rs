use frapi::executor::channel::CHANNEL_CAPACITY;
use frapi::executor::command::{Command, CommandExecute, Message};
use frapi::executor::session::{Activation, HttpEvent, WsAction, WsEvent};
use frapi::executor::{Executor, State};
use frapi::settings::method_settings::Method;
use frapi::settings::protocol_settings::Protocol;
use frapi::states::main_page::generics::Header;
use frapi::states::main_page::request::request_data::RequestData;
use frapi::states::main_page::response::{HttpReply, JsonViewType, Response, ResponseView};
use frapi::states::{Event, EventKind, Events};

fn request(protocol: Protocol, uri: &str, message: &str) -> RequestData {
    let mut data = RequestData::default();
    data.protocol = protocol;
    data.method = Method::GET;
    data.uri = uri.to_string();
    data.message.set(message.to_string());
    data
}

fn reply(status: u16, body: &str) -> HttpReply {
    HttpReply {
        status,
        headers: vec![Header { key: "content-type".to_string(), value: "application/json".to_string() }],
        url: "https://example.test/ok".to_string(),
        body: Ok(body.to_string()),
    }
}

fn last_event(events: &Events) -> (EventKind, String) {
    let event: &Event = events.get(events.len() - 1);
    (event.kind(), event.get_data().message.clone())
}

fn open_session(executor: &mut Executor, events: &mut Events) {
    let started = executor.execute(&request(Protocol::WSS, "example.test/socket", ""), true, events);
    assert!(matches!(started, Activation::WS(_)));
    let action = executor.ws_thread(WsEvent::CONNECTED, events);
    assert!(matches!(action, WsAction::WAIT));
}

#[test]
fn new_executor_is_free_and_keeps_its_responses() {
    let executor = Executor::new(vec![]);
    assert_eq!(executor.current_state(), State::FREE);
    assert_eq!(executor.responses().len(), 0);
}

#[test]
fn https_get_ends_with_one_record_and_a_free_executor() {
    let mut executor = Executor::new(vec![]);
    let mut events = Events::new();
    let started = executor.execute(&request(Protocol::HTTPS, "example.test/ok", ""), false, &mut events);
    match started {
        Activation::HTTP(command) => {
            assert_eq!(command.uri, "example.test/ok");
            assert_eq!(command.protocol, Protocol::HTTPS);
            assert_eq!(command.method, Method::GET);
            assert_eq!(command.http_url(), "HTTPS://example.test/ok");
        }
        other => panic!("expected an HTTP exchange, got {:?}", other),
    }
    assert_eq!(executor.current_state(), State::BUSY);
    assert_eq!(
        last_event(&events),
        (EventKind::Info, "Detected free executor, sending http request...".to_string())
    );

    executor.http_thread(HttpEvent::REPLY(reply(200, "{\"a\":1}")), &mut events);

    assert_eq!(executor.current_state(), State::FREE);
    assert_eq!(executor.responses().len(), 1);
    let response = &executor.responses()[0];
    assert_eq!(response.code, 200);
    assert_eq!(response.data.raw, "{\"a\":1}");
    let expected: serde_json::Value = serde_json::from_str("{\"a\":1}").unwrap();
    assert_eq!(response.data.json.complex, expected);
    assert_eq!(response.data.json.simple, "{\n  \"a\": 1\n}");
    assert!(response.data.json_is_exist());
    assert_eq!(response.data.headers.len(), 1);
    assert_eq!(response.data.headers[0].key, "content-type");
    assert_eq!(response.data.redictection_url, "https://example.test/ok");
    assert!(response.is_folded);
    assert_eq!(last_event(&events), (EventKind::Info, "Received success response".to_string()));
}

#[test]
fn socket_opens_without_a_write_and_sends_what_is_fired_later() {
    let mut executor = Executor::new(vec![]);
    let mut events = Events::new();
    let started =
        executor.execute(&request(Protocol::WSS, "example.test/socket", "hello"), true, &mut events);
    match started {
        Activation::WS(command) => {
            assert_eq!(command.ws_url(), "wss://example.test/socket");
            assert_eq!(command.message, "");
        }
        other => panic!("expected a WebSocket session, got {:?}", other),
    }
    assert_eq!(executor.current_state(), State::CONNECTED);

    let action = executor.ws_thread(WsEvent::CONNECTED, &mut events);
    assert!(matches!(action, WsAction::WAIT));
    assert_eq!(
        last_event(&events),
        (EventKind::Info, "Websocket: start messages loop...".to_string())
    );

    let again =
        executor.execute(&request(Protocol::WSS, "example.test/socket", "ping"), false, &mut events);
    assert!(matches!(again, Activation::NONE));
    assert_eq!(executor.current_state(), State::CONNECTED);

    match executor.ws_thread(WsEvent::TICK, &mut events) {
        WsAction::SEND(command) => assert_eq!(command.message, "ping"),
        other => panic!("expected a write, got {:?}", other),
    }
    assert_eq!(last_event(&events), (EventKind::Info, "Websocket: sending message".to_string()));
    assert!(matches!(executor.ws_thread(WsEvent::TICK, &mut events), WsAction::WAIT));
    assert_eq!(executor.current_state(), State::CONNECTED);
    assert_eq!(executor.responses().len(), 0);
}

#[test]
fn socket_sends_its_first_message_when_it_opens() {
    let mut executor = Executor::new(vec![]);
    let mut events = Events::new();
    let started =
        executor.execute(&request(Protocol::WS, "example.test/socket", "hello"), false, &mut events);
    match started {
        Activation::WS(command) => {
            assert_eq!(command.ws_url(), "ws://example.test/socket");
            assert_eq!(command.message, "hello");
        }
        other => panic!("expected a WebSocket session, got {:?}", other),
    }
    match executor.ws_thread(WsEvent::CONNECTED, &mut events) {
        WsAction::SEND(command) => assert_eq!(command.message, "hello"),
        other => panic!("expected a write, got {:?}", other),
    }
}

#[test]
fn close_from_the_peer_leaves_one_closed_record() {
    let mut executor = Executor::new(vec![]);
    let mut events = Events::new();
    open_session(&mut executor, &mut events);

    let action = executor.ws_thread(WsEvent::CLOSE, &mut events);
    assert!(matches!(action, WsAction::STOP));
    assert_eq!(executor.current_state(), State::FREE);
    assert_eq!(executor.responses().len(), 1);
    assert_eq!(executor.responses()[0].data.raw, "Connection closed");
    assert_eq!(executor.responses()[0].code, 0);
    assert_eq!(last_event(&events), (EventKind::Warning, "Peer close connection.".to_string()));

    executor.terminate();
    assert_eq!(executor.current_state(), State::FREE);
    assert_eq!(executor.responses().len(), 1);
    assert!(matches!(executor.ws_thread(WsEvent::TICK, &mut events), WsAction::STOP));
    assert_eq!(executor.responses().len(), 1);
}

#[test]
fn terminate_before_the_exchange_resolves_leaves_no_record() {
    let mut executor = Executor::new(vec![]);
    let mut events = Events::new();
    let _ = executor.execute(&request(Protocol::HTTP, "example.test/slow", ""), false, &mut events);
    executor.terminate();
    assert_eq!(executor.current_state(), State::BUSY);

    executor.http_thread(HttpEvent::COMMAND, &mut events);
    assert_eq!(executor.current_state(), State::FREE);
    assert_eq!(executor.responses().len(), 0);

    executor.http_thread(HttpEvent::REPLY(reply(200, "late")), &mut events);
    assert_eq!(executor.current_state(), State::FREE);
    assert_eq!(executor.responses().len(), 0);
}

#[test]
fn command_event_without_a_command_changes_nothing() {
    let mut executor = Executor::new(vec![]);
    let mut events = Events::new();
    let _ = executor.execute(&request(Protocol::HTTP, "example.test/slow", ""), false, &mut events);
    executor.http_thread(HttpEvent::COMMAND, &mut events);
    assert_eq!(executor.current_state(), State::BUSY);
    executor.http_thread(HttpEvent::REPLY(reply(200, "in time")), &mut events);
    assert_eq!(executor.current_state(), State::FREE);
    assert_eq!(executor.responses().len(), 1);
}

#[test]
fn execute_while_busy_does_nothing() {
    let mut executor = Executor::new(vec![]);
    let mut events = Events::new();
    let first = executor.execute(&request(Protocol::HTTPS, "example.test/a", ""), false, &mut events);
    assert!(matches!(first, Activation::HTTP(_)));
    let logged = events.len();

    let second = executor.execute(&request(Protocol::HTTPS, "example.test/b", ""), false, &mut events);
    assert!(matches!(second, Activation::NONE));
    let third = executor.execute(&request(Protocol::WSS, "example.test/c", "x"), false, &mut events);
    assert!(matches!(third, Activation::NONE));
    assert_eq!(executor.current_state(), State::BUSY);
    assert_eq!(executor.responses().len(), 0);
    assert_eq!(events.len(), logged);

    executor.http_thread(HttpEvent::REPLY(reply(200, "a")), &mut events);
    assert_eq!(executor.responses().len(), 1);
    assert_eq!(executor.responses()[0].data.raw, "a");
}

#[test]
fn terminate_when_free_is_a_noop() {
    let mut executor = Executor::new(vec![]);
    executor.terminate();
    assert_eq!(executor.current_state(), State::FREE);
    assert_eq!(executor.responses().len(), 0);
    executor.terminate();
    assert_eq!(executor.current_state(), State::FREE);

    let mut events = Events::new();
    let started = executor.execute(&request(Protocol::HTTP, "example.test", ""), false, &mut events);
    assert!(matches!(started, Activation::HTTP(_)));
}

#[test]
fn writes_keep_the_order_of_the_calls() {
    let mut executor = Executor::new(vec![]);
    let mut events = Events::new();
    open_session(&mut executor, &mut events);
    let sent = ["one", "two", "three", "four", "five"];
    for text in sent.iter() {
        let none = executor.execute(&request(Protocol::WSS, "example.test/socket", text), false, &mut events);
        assert!(matches!(none, Activation::NONE));
    }
    let mut written: Vec<String> = Vec::new();
    for _ in 0..sent.len() {
        match executor.ws_thread(WsEvent::TICK, &mut events) {
            WsAction::SEND(command) => written.push(command.message),
            other => panic!("expected a write, got {:?}", other),
        }
    }
    assert_eq!(written, vec!["one", "two", "three", "four", "five"]);
    assert!(matches!(executor.ws_thread(WsEvent::TICK, &mut events), WsAction::WAIT));
}

#[test]
fn a_full_channel_drops_what_is_fired() {
    let mut executor = Executor::new(vec![]);
    let mut events = Events::new();
    open_session(&mut executor, &mut events);
    for i in 0..(CHANNEL_CAPACITY + 5) {
        let text = format!("m{}", i);
        let _ = executor.execute(&request(Protocol::WSS, "example.test/socket", &text), false, &mut events);
    }
    let mut written = 0;
    loop {
        match executor.ws_thread(WsEvent::TICK, &mut events) {
            WsAction::SEND(command) => {
                assert_eq!(command.message, format!("m{}", written));
                written += 1;
            }
            WsAction::WAIT => break,
            WsAction::STOP => panic!("the session must stay open"),
        }
    }
    assert_eq!(written, 100);
    assert_eq!(CHANNEL_CAPACITY, 100);
}

#[test]
fn terminate_stops_an_open_session_at_the_next_tick() {
    let mut executor = Executor::new(vec![]);
    let mut events = Events::new();
    open_session(&mut executor, &mut events);
    let _ = executor.execute(&request(Protocol::WSS, "example.test/socket", "before"), false, &mut events);
    executor.terminate();
    assert_eq!(executor.current_state(), State::CONNECTED);
    assert!(matches!(executor.ws_thread(WsEvent::TICK, &mut events), WsAction::SEND(_)));
    assert!(matches!(executor.ws_thread(WsEvent::TICK, &mut events), WsAction::STOP));
    assert_eq!(
        last_event(&events),
        (EventKind::Info, "Websocket: requested WS termination.".to_string())
    );
    assert_eq!(executor.current_state(), State::FREE);
    assert_eq!(executor.responses().len(), 0);
}

#[test]
fn text_frames_become_records_in_the_order_received() {
    let mut executor = Executor::new(vec![]);
    let mut events = Events::new();
    open_session(&mut executor, &mut events);
    assert!(matches!(
        executor.ws_thread(WsEvent::TEXT("{\"n\":1}".to_string()), &mut events),
        WsAction::WAIT
    ));
    assert!(matches!(executor.ws_thread(WsEvent::OTHER, &mut events), WsAction::WAIT));
    assert!(matches!(
        executor.ws_thread(WsEvent::TEXT("plain".to_string()), &mut events),
        WsAction::WAIT
    ));
    assert_eq!(executor.responses().len(), 2);
    assert_eq!(executor.responses()[0].data.raw, "{\"n\":1}");
    assert_eq!(executor.responses()[0].code, 0);
    assert!(executor.responses()[0].data.json_is_exist());
    assert_eq!(executor.responses()[1].data.raw, "plain");
    assert!(!executor.responses()[1].data.json_is_exist());
    assert_eq!(executor.current_state(), State::CONNECTED);
}

#[test]
fn failed_read_is_taken_as_a_close() {
    let mut executor = Executor::new(vec![]);
    let mut events = Events::new();
    open_session(&mut executor, &mut events);
    let action = executor.ws_thread(WsEvent::FAILED("reset by peer".to_string()), &mut events);
    assert!(matches!(action, WsAction::STOP));
    assert_eq!(executor.current_state(), State::FREE);
    assert_eq!(executor.responses().len(), 1);
    assert_eq!(executor.responses()[0].data.raw, "Connection closed");
    assert_eq!(
        last_event(&events),
        (
            EventKind::Error,
            "Error: During WS connection on new message error occured. Error: reset by peer"
                .to_string()
        )
    );
}

#[test]
fn refused_handshake_frees_the_executor() {
    let mut executor = Executor::new(vec![]);
    let mut events = Events::new();
    let _ = executor.execute(&request(Protocol::WS, "nowhere.test", "x"), false, &mut events);
    assert_eq!(executor.current_state(), State::CONNECTED);
    assert!(matches!(executor.ws_thread(WsEvent::TICK, &mut events), WsAction::WAIT));
    let action = executor.ws_thread(WsEvent::REFUSED("no route".to_string()), &mut events);
    assert!(matches!(action, WsAction::STOP));
    assert_eq!(executor.current_state(), State::FREE);
    assert_eq!(executor.responses().len(), 0);
    assert_eq!(
        last_event(&events),
        (EventKind::Error, "Error: Could not connect to WS. Error: no route".to_string())
    );
}

#[test]
fn failed_write_is_logged_and_the_session_goes_on() {
    let mut executor = Executor::new(vec![]);
    let mut events = Events::new();
    open_session(&mut executor, &mut events);
    let mut data = request(Protocol::WSS, "example.test/socket", "ping");
    data.body.raw.set("the body".to_string());
    let command = CommandExecute::from(&data);
    let action = executor.ws_thread(WsEvent::UNSENT(command, "broken pipe".to_string()), &mut events);
    assert!(matches!(action, WsAction::WAIT));
    assert_eq!(executor.current_state(), State::CONNECTED);
    assert_eq!(
        last_event(&events),
        (
            EventKind::Error,
            "Error: Could not send message to WS channel. Message: the body. Error: broken pipe"
                .to_string()
        )
    );
}

#[test]
fn http_failure_still_leaves_one_record() {
    let mut executor = Executor::new(vec![]);
    let mut events = Events::new();
    let _ = executor.execute(&request(Protocol::HTTP, "nowhere.test", ""), false, &mut events);
    executor.http_thread(HttpEvent::FAILURE(None), &mut events);
    assert_eq!(executor.current_state(), State::FREE);
    assert_eq!(executor.responses().len(), 1);
    assert_eq!(executor.responses()[0].code, 0);
    assert_eq!(
        executor.responses()[0].data.raw,
        "During Request Error occured. Could not read error reason."
    );
    assert_eq!(
        last_event(&events),
        (
            EventKind::Error,
            "During Request Error occured. Could not read error reason.".to_string()
        )
    );
}

#[test]
fn http_events_do_not_reach_a_socket_session() {
    let mut executor = Executor::new(vec![]);
    let mut events = Events::new();
    open_session(&mut executor, &mut events);
    executor.http_thread(HttpEvent::REPLY(reply(200, "stray")), &mut events);
    assert_eq!(executor.current_state(), State::CONNECTED);
    assert_eq!(executor.responses().len(), 0);
}

#[test]
fn messages_and_commands_carry_the_request() {
    let mut data = request(Protocol::WS, "example.test", "hi");
    data.headers.push(Header { key: "k".to_string(), value: "v".to_string() });
    data.body.raw.set("raw body".to_string());

    let command = CommandExecute::from(&data);
    assert_eq!(command.uri, "example.test");
    assert_eq!(command.body, "raw body");
    assert_eq!(command.message, "hi");
    assert_eq!(command.headers.len(), 1);
    assert_eq!(command.headers[0].key, "k");
    assert_eq!(command.headers[0].value, "v");

    let mut fire = Command::execute(&data);
    fire.drop_message();
    match fire {
        Command::EXECUTE(inner) => {
            assert_eq!(inner.message, "");
            assert_eq!(inner.body, "raw body");
        }
        Command::TERRMINATE => panic!("expected a request"),
    }
    let mut stop = Command::termiate();
    stop.drop_message();
    assert!(matches!(stop, Command::TERRMINATE));

    assert!(matches!(Message::execute(&data).get_command(), Some(Command::EXECUTE(_))));
    assert!(Message::execute(&data).get_result().is_none());
    assert!(matches!(Message::terminate().get_command(), Some(Command::TERRMINATE)));
    assert!(Message::RESULT(frapi::executor::command::Result {}).get_command().is_none());
    assert!(Message::RESULT(frapi::executor::command::Result {}).get_result().is_some());
}

#[test]
fn response_presentation_can_be_set() {
    let mut executor = Executor::new(vec![]);
    let mut events = Events::new();
    let _ = executor.execute(&request(Protocol::HTTPS, "example.test", ""), false, &mut events);
    executor.http_thread(HttpEvent::REPLY(reply(200, "[1]")), &mut events);
    assert!(executor.responses()[0].is_folded);
    executor.set_response_folded(0, false);
    executor.set_response_view(0, ResponseView::JSON);
    executor.set_response_json_view(0, JsonViewType::Comlex);
    let response = &executor.responses()[0];
    assert!(!response.is_folded);
    assert_eq!(response.selected_view, ResponseView::JSON);
    assert_eq!(response.data.json.view_type, JsonViewType::Comlex);
    assert_eq!(response.data.raw, "[1]");
    assert_eq!(response.code, 200);
}

#[test]
fn executor_starts_with_the_responses_it_is_given() {
    let kept = vec![Response::from_utf8_bytes_at("old".to_string(), 1)];
    let mut executor = Executor::new(kept);
    let mut events = Events::new();
    assert_eq!(executor.responses().len(), 1);
    let _ = executor.execute(&request(Protocol::HTTP, "example.test", ""), false, &mut events);
    executor.http_thread(HttpEvent::REPLY(reply(204, "")), &mut events);
    assert_eq!(executor.responses().len(), 2);
    assert_eq!(executor.responses()[0].data.raw, "old");
    assert_eq!(executor.responses()[1].code, 204);
}
