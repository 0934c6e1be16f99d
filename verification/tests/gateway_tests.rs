use chat_core::client::ClientErrorKind;
use chat_core::gateway::{GatewayAction, GatewayPhase, GatewaySession, OpenClawClient};
use chat_core::model::{EntityId, Message, MessageContent};

fn user_message(text: &str) -> Message {
    Message { from: EntityId::User, content: MessageContent::from_text(text.to_string()) }
}

fn session_for(prompt: &str) -> GatewaySession {
    let client = OpenClawClient::new("ws://127.0.0.1:18789".to_string());
    client.start_session(&vec![user_message(prompt)])
}

fn only_frame(acts: Vec<GatewayAction>) -> String {
    assert_eq!(acts.len(), 1);
    match acts.into_iter().next().unwrap() {
        GatewayAction::SendFrame(f) => f,
        other => panic!("expected a frame, got {:?}", other),
    }
}

const CHALLENGE: &str = "{\"type\":\"event\",\"event\":\"connect.challenge\"}";
const HELLO_OK: &str = "{\"type\":\"res\",\"ok\":true,\"payload\":{\"type\":\"hello-ok\"}}";

#[test]
fn challenge_is_answered_with_a_connect_request() {
    let mut s = session_for("hi");
    assert_eq!(s.phase(), GatewayPhase::AwaitChallenge);

    let frame = only_frame(s.on_text(CHALLENGE));
    assert_eq!(s.phase(), GatewayPhase::AwaitHello);

    let v: serde_json::Value = serde_json::from_str(&frame).unwrap();
    assert_eq!(v["type"].as_str().unwrap(), "req");
    assert_eq!(v["method"].as_str().unwrap(), "connect");
    assert!(!v["id"].as_str().unwrap().is_empty());
    let params = &v["params"];
    assert_eq!(params["minProtocol"].as_i64().unwrap(), 3);
    assert_eq!(params["maxProtocol"].as_i64().unwrap(), 3);
    assert_eq!(params["role"].as_str().unwrap(), "operator");
    assert_eq!(params["scopes"][0].as_str().unwrap(), "operator.read");
    assert_eq!(params["scopes"][1].as_str().unwrap(), "operator.write");
    assert_eq!(params["client"]["id"].as_str().unwrap(), "gateway-client");
    assert_eq!(params["client"]["version"].as_str().unwrap(), "1.0.0");
    assert_eq!(params["client"]["platform"].as_str().unwrap(), "desktop");
    assert_eq!(params["client"]["mode"].as_str().unwrap(), "cli");
    assert!(params.get("auth").is_none());
}

#[test]
fn token_is_embedded_escaped_in_the_connect_request() {
    let mut client = OpenClawClient::new("ws://127.0.0.1:18789".to_string());
    client.set_key("se\"cr\\et\nwith\tcontrol\u{1}chars").unwrap();
    let mut s = client.start_session(&vec![user_message("hi")]);

    let frame = only_frame(s.on_text(CHALLENGE));
    let v: serde_json::Value = serde_json::from_str(&frame).unwrap();
    assert_eq!(
        v["params"]["auth"]["token"].as_str().unwrap(),
        "se\"cr\\et\nwith\tcontrol\u{1}chars"
    );
}

// Scenario: the gateway adapter receives connect.challenge and then a
// response with ok=false: exactly one Response error, no agent request,
// and the stream is over.
#[test]
fn failed_hello_yields_one_response_error_without_an_agent_request() {
    let mut s = session_for("hi");
    let frame = only_frame(s.on_text(CHALLENGE));
    let v: serde_json::Value = serde_json::from_str(&frame).unwrap();
    assert_eq!(v["method"].as_str().unwrap(), "connect");

    let acts = s.on_text("{\"type\":\"res\",\"ok\":false,\"error\":{\"message\":\"denied\"}}");
    assert_eq!(acts.len(), 1);
    match &acts[0] {
        GatewayAction::YieldError(e) => {
            assert_eq!(e.kind, ClientErrorKind::Response);
            assert_eq!(e.message, "{\"message\":\"denied\"}");
        }
        other => panic!("expected an error, got {:?}", other),
    }
    assert_eq!(s.phase(), GatewayPhase::Closed);

    // Nothing further is acted on.
    assert!(s.on_text(HELLO_OK).is_empty());
}

#[test]
fn hello_ok_is_answered_with_the_agent_request() {
    let mut s = session_for("what is the weather?");
    s.on_text(CHALLENGE);
    let frame = only_frame(s.on_text(HELLO_OK));
    assert_eq!(s.phase(), GatewayPhase::Streaming);

    let v: serde_json::Value = serde_json::from_str(&frame).unwrap();
    assert_eq!(v["method"].as_str().unwrap(), "agent");
    let params = &v["params"];
    assert_eq!(params["message"].as_str().unwrap(), "what is the weather?");
    assert!(!params["idempotencyKey"].as_str().unwrap().is_empty());
    assert_eq!(params["agentId"].as_str().unwrap(), "main");
}

fn streaming_session(prompt: &str) -> GatewaySession {
    let mut s = session_for(prompt);
    s.on_text(CHALLENGE);
    s.on_text(HELLO_OK);
    assert_eq!(s.phase(), GatewayPhase::Streaming);
    s
}

fn only_content(acts: &[GatewayAction]) -> &MessageContent {
    assert_eq!(acts.len(), 1);
    match &acts[0] {
        GatewayAction::YieldContent(c) => c,
        other => panic!("expected content, got {:?}", other),
    }
}

// Content snapshots are cumulative: deltas append, full texts replace.
#[test]
fn deltas_accumulate_into_cumulative_snapshots() {
    let mut s = streaming_session("hi");
    let a1 = s.on_text(
        "{\"type\":\"event\",\"event\":\"agent.text.delta\",\"payload\":{\"delta\":\"He\"}}",
    );
    assert_eq!(only_content(&a1).text, "He");
    let a2 = s.on_text(
        "{\"type\":\"event\",\"event\":\"agent.text.delta\",\"payload\":{\"delta\":\"llo\"}}",
    );
    assert_eq!(only_content(&a2).text, "Hello");

    let done = s.on_text("{\"type\":\"event\",\"event\":\"agent.done\"}");
    assert_eq!(done.len(), 2);
    match &done[0] {
        GatewayAction::YieldContent(c) => assert_eq!(c.text, "Hello"),
        other => panic!("expected content, got {:?}", other),
    }
    assert!(matches!(done[1], GatewayAction::EndOfStream));
    assert_eq!(s.phase(), GatewayPhase::Closed);
}

#[test]
fn full_text_events_replace_the_snapshot() {
    let mut s = streaming_session("hi");
    s.on_text("{\"type\":\"event\",\"event\":\"agent.text.delta\",\"payload\":{\"delta\":\"Hm\"}}");
    let acts = s.on_text(
        "{\"type\":\"event\",\"event\":\"agent.text\",\"payload\":{\"text\":\"Fresh\"}}",
    );
    assert_eq!(only_content(&acts).text, "Fresh");
}

#[test]
fn agent_event_data_delta_appends() {
    let mut s = streaming_session("hi");
    let acts = s.on_text(
        "{\"type\":\"event\",\"event\":\"agent\",\"payload\":{\"data\":{\"delta\":\"Hi\"}}}",
    );
    assert_eq!(only_content(&acts).text, "Hi");
}

#[test]
fn chat_done_event_ends_with_final_snapshot() {
    let mut s = streaming_session("hi");
    s.on_text("{\"type\":\"event\",\"event\":\"agent.text\",\"payload\":{\"text\":\"done now\"}}");
    let acts = s.on_text(
        "{\"type\":\"event\",\"event\":\"chat\",\"payload\":{\"state\":\"done\"}}",
    );
    assert_eq!(acts.len(), 2);
    match &acts[0] {
        GatewayAction::YieldContent(c) => assert_eq!(c.text, "done now"),
        other => panic!("expected content, got {:?}", other),
    }
    assert!(matches!(acts[1], GatewayAction::EndOfStream));
}

#[test]
fn agent_error_event_yields_a_response_error() {
    let mut s = streaming_session("hi");
    let acts = s.on_text(
        "{\"type\":\"event\",\"event\":\"agent.error\",\"payload\":{\"message\":\"boom\"}}",
    );
    assert_eq!(acts.len(), 1);
    assert!(matches!(&acts[0], GatewayAction::YieldError(e) if e.kind == ClientErrorKind::Response));
    assert_eq!(s.phase(), GatewayPhase::Closed);
}

#[test]
fn completed_response_collects_result_payload_texts() {
    let mut s = streaming_session("hi");
    let acts = s.on_text(
        "{\"type\":\"res\",\"ok\":true,\"payload\":{\"status\":\"completed\",\"result\":{\"payloads\":[{\"text\":\"one \"},{\"text\":\"two\"}]}}}",
    );
    assert_eq!(acts.len(), 2);
    match &acts[0] {
        GatewayAction::YieldContent(c) => assert_eq!(c.text, "one two"),
        other => panic!("expected content, got {:?}", other),
    }
    assert!(matches!(acts[1], GatewayAction::EndOfStream));
    assert_eq!(s.phase(), GatewayPhase::Closed);
}

#[test]
fn unrecognized_events_and_malformed_texts_are_ignored() {
    let mut s = streaming_session("hi");
    assert!(s.on_text("{\"type\":\"event\",\"event\":\"totally.new\"}").is_empty());
    assert!(s.on_text("not json at all").is_empty());
    assert!(s.on_text("{\"type\":\"something-else\"}").is_empty());
    assert_eq!(s.phase(), GatewayPhase::Streaming);
}

#[test]
fn transport_close_ends_the_stream_cleanly() {
    let mut s = streaming_session("hi");
    let acts = s.on_close();
    assert_eq!(acts.len(), 1);
    assert!(matches!(acts[0], GatewayAction::EndOfStream));
    assert_eq!(s.phase(), GatewayPhase::Closed);
    assert!(s.on_close().is_empty());
}

#[test]
fn transport_error_yields_a_network_error() {
    let mut s = streaming_session("hi");
    let acts = s.on_transport_error("reset by peer".to_string());
    assert_eq!(acts.len(), 1);
    assert!(matches!(&acts[0], GatewayAction::YieldError(e) if e.kind == ClientErrorKind::Network));
    assert_eq!(s.phase(), GatewayPhase::Closed);
}

#[test]
fn the_session_submits_the_latest_user_turn() {
    let client = OpenClawClient::new("ws://x".to_string());
    let history = vec![
        user_message("first"),
        Message { from: EntityId::App, content: MessageContent::from_text("note".to_string()) },
        user_message("second"),
        Message { from: EntityId::Tool, content: MessageContent::from_text("r".to_string()) },
    ];
    let mut s = client.start_session(&history);
    s.on_text(CHALLENGE);
    let frame = only_frame(s.on_text(HELLO_OK));
    let v: serde_json::Value = serde_json::from_str(&frame).unwrap();
    assert_eq!(v["params"]["message"].as_str().unwrap(), "second");
}

#[test]
fn client_exposes_the_gateway_assistant() {
    let client = OpenClawClient::new("ws://127.0.0.1:18789".to_string());
    assert_eq!(client.url(), "ws://127.0.0.1:18789");
    let bots = client.bots();
    assert_eq!(bots.len(), 1);
    assert_eq!(bots[0].id.id, "openclaw/assistant");
    assert_eq!(bots[0].name, "OpenClaw Assistant");
    assert!(bots[0].capabilities.text_input);
    assert!(bots[0].capabilities.attachment_input);
}

#[test]
fn display_names_strip_the_namespace() {
    assert_eq!(chat_core::naming::display_name_from_namespaced("pkg.tool"), "tool");
    assert_eq!(chat_core::naming::display_name_from_namespaced("plain"), "plain");
    assert_eq!(chat_core::naming::display_name_from_namespaced("a.b.c"), "b.c");
}

#[test]
fn json_quote_escapes_and_round_trips() {
    let quoted = chat_core::json::json_quote("a\"b\\c\nd\te\r\u{2}f");
    let v: serde_json::Value = serde_json::from_str(&quoted).unwrap();
    assert_eq!(v.as_str().unwrap(), "a\"b\\c\nd\te\r\u{2}f");
}
