use std::cell::RefCell;
use std::rc::Rc;

use chat_core::client::{ClientError, ClientErrorKind, RealtimeChannel, StreamEvent, Upgrade};
use chat_core::controller::{ChatController, ChatControllerPlugin, ChatTask, TaskAction};
use chat_core::model::{
    Bot, BotCapabilities, BotId, EntityAvatar, EntityId, Message, MessageContent, ToolCall,
    ToolCallPermissionStatus, ToolResult,
};
use chat_core::mutation::VecMutation;
use chat_core::state::{ChatState, ChatStateMutation};

fn bot(id: &str) -> Bot {
    Bot {
        id: BotId::new(id),
        name: id.to_string(),
        avatar: EntityAvatar::Text("b".to_string()),
        capabilities: BotCapabilities::new().with_text_input(),
    }
}

fn user_message(text: &str) -> Message {
    Message { from: EntityId::User, content: MessageContent::from_text(text.to_string()) }
}

fn content(text: &str) -> MessageContent {
    MessageContent::from_text(text.to_string())
}

fn controller_with_bot(id: &str) -> ChatController {
    let mut c = ChatController::new();
    c.dispatch_mutation(ChatStateMutation::MutateBots(VecMutation::Push(bot(id))));
    c.dispatch_mutation(ChatStateMutation::SetBotId(Some(BotId::new(id))));
    c
}

fn start_stream(c: &mut ChatController) -> u64 {
    match c.dispatch_task(ChatTask::Send) {
        TaskAction::StartStream { gen, .. } => gen,
        _ => panic!("expected a started stream"),
    }
}

// Scenario: selected bot, history [User:"hi"], Send dispatched, backend
// streams ["H", "Hello"] then completes.
#[test]
fn send_streams_cumulative_snapshots_into_one_bot_message() {
    let mut c = controller_with_bot("a/bot");
    c.dispatch_mutation(ChatStateMutation::MutateMessages(VecMutation::Push(user_message("hi"))));

    let (gen, bot_id, history) = match c.dispatch_task(ChatTask::Send) {
        TaskAction::StartStream { gen, bot_id, history } => (gen, bot_id, history),
        _ => panic!("expected a started stream"),
    };
    assert_eq!(bot_id.id, "a/bot");
    assert_eq!(history.len(), 1);
    assert_eq!(history[0].content.text, "hi");
    assert!(c.state().is_streaming);

    assert!(c.on_stream_event(gen, StreamEvent::Content(content("H"))).is_none());
    assert_eq!(c.state().messages.len(), 2);
    assert_eq!(c.state().messages[1].content.text, "H");

    c.on_stream_event(gen, StreamEvent::Content(content("Hello")));
    c.on_stream_event(gen, StreamEvent::Finished);

    assert_eq!(c.state().messages.len(), 2);
    assert_eq!(c.state().messages[1].content.text, "Hello");
    assert!(matches!(&c.state().messages[1].from, EntityId::Bot(b) if b.id == "a/bot"));
    assert!(!c.state().is_streaming);
}

// Scenario: Stop issued mid-stream after snapshot "Hel" was applied; the
// backend later emits "Hello", which must not be applied.
#[test]
fn stop_discards_late_snapshots() {
    let mut c = controller_with_bot("a/bot");
    c.dispatch_mutation(ChatStateMutation::MutateMessages(VecMutation::Push(user_message("hi"))));
    let gen = start_stream(&mut c);

    c.on_stream_event(gen, StreamEvent::Content(content("Hel")));
    assert_eq!(c.state().messages[1].content.text, "Hel");

    assert!(matches!(c.dispatch_task(ChatTask::Stop), TaskAction::CancelStream));
    assert!(!c.state().is_streaming);

    c.on_stream_event(gen, StreamEvent::Content(content("Hello")));
    assert_eq!(c.state().messages[1].content.text, "Hel");
    assert!(!c.state().is_streaming);
}

// The stream recovers its target: if the streamed message is deleted by
// an edit mid-stream, the next snapshot appends a fresh message rather
// than overwriting an unrelated one.
#[test]
fn deleting_the_streamed_message_makes_the_stream_append_again() {
    let mut c = controller_with_bot("a/bot");
    c.dispatch_mutation(ChatStateMutation::MutateMessages(VecMutation::Push(user_message("hi"))));
    let gen = start_stream(&mut c);

    c.on_stream_event(gen, StreamEvent::Content(content("A")));
    assert_eq!(c.state().messages.len(), 2);
    c.dispatch_mutation(ChatStateMutation::MutateMessages(VecMutation::RemoveOne(1)));
    assert_eq!(c.state().messages.len(), 1);

    c.on_stream_event(gen, StreamEvent::Content(content("B")));
    assert_eq!(c.state().messages.len(), 2);
    assert_eq!(c.state().messages[1].content.text, "B");
}

#[test]
fn send_without_selected_bot_is_rejected() {
    let mut c = ChatController::new();
    c.dispatch_mutation(ChatStateMutation::MutateMessages(VecMutation::Push(user_message("hi"))));
    assert!(matches!(c.dispatch_task(ChatTask::Send), TaskAction::Rejected));
    assert!(!c.state().is_streaming);
}

#[test]
fn send_while_streaming_is_rejected() {
    let mut c = controller_with_bot("a/bot");
    let _gen = start_stream(&mut c);
    assert!(matches!(c.dispatch_task(ChatTask::Send), TaskAction::Rejected));
}

#[test]
fn stream_failure_appends_error_message_and_stops_streaming() {
    let mut c = controller_with_bot("a/bot");
    let gen = start_stream(&mut c);
    let err = ClientError::new(ClientErrorKind::Network, "connection lost".to_string());
    c.on_stream_event(gen, StreamEvent::Failure(err));
    assert!(!c.state().is_streaming);
    let last = c.state().messages.last().unwrap();
    assert!(matches!(last.from, EntityId::App));
    assert_eq!(last.content.text, "connection lost");
}

fn pending_call(id: &str, name: &str) -> ToolCall {
    ToolCall {
        id: id.to_string(),
        name: name.to_string(),
        permission_status: ToolCallPermissionStatus::Pending,
    }
}

fn tool_request_message(calls: Vec<ToolCall>) -> Message {
    Message {
        from: EntityId::Bot(BotId::new("a/bot")),
        content: MessageContent {
            text: String::new(),
            attachments: Vec::new(),
            tool_calls: calls,
            tool_results: Vec::new(),
        },
    }
}

// Approval is idempotent at the message granularity: the second approval
// hits the no-pending-call guard, dispatches nothing, and changes
// nothing.
#[test]
fn approving_twice_executes_once() {
    let mut c = controller_with_bot("a/bot");
    c.dispatch_mutation(ChatStateMutation::MutateMessages(VecMutation::Push(
        tool_request_message(vec![pending_call("c1", "pkg.alpha"), pending_call("c2", "pkg.beta")]),
    )));

    let first = c.approve_tools(0);
    let calls = match first {
        TaskAction::RunTools { calls, .. } => calls,
        _ => panic!("expected calls to run"),
    };
    assert_eq!(calls.len(), 2);
    assert!(calls.iter().all(|t| t.permission_status == ToolCallPermissionStatus::Approved));
    assert!(c.state().messages[0]
        .content
        .tool_calls
        .iter()
        .all(|t| t.permission_status == ToolCallPermissionStatus::Approved));
    let messages_after_first = c.state().messages.len();

    let second = c.approve_tools(0);
    assert!(matches!(second, TaskAction::Rejected));
    assert_eq!(c.state().messages.len(), messages_after_first);
    assert!(c.state().messages[0]
        .content
        .tool_calls
        .iter()
        .all(|t| t.permission_status == ToolCallPermissionStatus::Approved));
}

// Denial produces one error-marked ToolResult per denied call and never
// contacts the backend.
#[test]
fn denial_synthesizes_one_error_result_per_call() {
    let mut c = controller_with_bot("a/bot");
    c.dispatch_mutation(ChatStateMutation::MutateMessages(VecMutation::Push(
        tool_request_message(vec![pending_call("c1", "pkg.alpha"), pending_call("c2", "pkg.beta")]),
    )));

    c.deny_tools(0);

    assert!(c.state().messages[0]
        .content
        .tool_calls
        .iter()
        .all(|t| t.permission_status == ToolCallPermissionStatus::Denied));

    let results_msg = c.state().messages.last().unwrap();
    assert!(matches!(results_msg.from, EntityId::Tool));
    let results = &results_msg.content.tool_results;
    assert_eq!(results.len(), 2);
    assert!(results.iter().all(|r| r.is_error));
    assert_eq!(results[0].tool_call_id, "c1");
    assert_eq!(results[1].tool_call_id, "c2");
    assert_eq!(
        results[0].content,
        "Tool execution was denied by the user. Tool 'alpha' was not executed."
    );
    assert!(!c.state().is_streaming);
}

#[test]
fn execute_runs_only_approved_calls() {
    let mut c = controller_with_bot("a/bot");
    let mut approved = pending_call("c1", "pkg.alpha");
    approved.permission_status = ToolCallPermissionStatus::Approved;
    let mut denied = pending_call("c2", "pkg.beta");
    denied.permission_status = ToolCallPermissionStatus::Denied;
    let pending = pending_call("c3", "pkg.gamma");

    let action = c.dispatch_task(ChatTask::Execute(
        vec![approved, denied, pending],
        Some(BotId::new("a/bot")),
    ));
    match action {
        TaskAction::RunTools { bot_id, calls } => {
            assert_eq!(bot_id.unwrap().id, "a/bot");
            assert_eq!(calls.len(), 1);
            assert_eq!(calls[0].id, "c1");
        }
        _ => panic!("expected calls to run"),
    }
}

#[test]
fn tool_results_append_in_order() {
    let mut c = controller_with_bot("a/bot");
    let results = vec![
        ToolResult { tool_call_id: "c1".to_string(), content: "one".to_string(), is_error: false },
        ToolResult { tool_call_id: "c2".to_string(), content: "two".to_string(), is_error: false },
    ];
    c.push_tool_results(results);
    let last = c.state().messages.last().unwrap();
    assert!(matches!(last.from, EntityId::Tool));
    assert_eq!(last.content.tool_results.len(), 2);
    assert_eq!(last.content.tool_results[0].content, "one");
    assert_eq!(last.content.tool_results[1].content, "two");
}

struct RecordingPlugin {
    tag: u64,
    upgrade_log: Rc<RefCell<Vec<u64>>>,
    state_log: Rc<RefCell<Vec<u64>>>,
    claims: bool,
}

impl ChatControllerPlugin for RecordingPlugin {
    fn on_state_ready(&mut self, _state: &ChatState, _mutations: &Vec<ChatStateMutation>) {
        self.state_log.borrow_mut().push(self.tag);
    }

    fn on_upgrade(&mut self, upgrade: Upgrade, _bot_id: &BotId) -> Option<Upgrade> {
        self.upgrade_log.borrow_mut().push(self.tag);
        if self.claims {
            None
        } else {
            Some(upgrade)
        }
    }
}

fn recording_plugin(
    tag: u64,
    upgrade_log: &Rc<RefCell<Vec<u64>>>,
    state_log: &Rc<RefCell<Vec<u64>>>,
    claims: bool,
) -> Box<dyn ChatControllerPlugin> {
    Box::new(RecordingPlugin {
        tag,
        upgrade_log: Rc::clone(upgrade_log),
        state_log: Rc::clone(state_log),
        claims,
    })
}

// Upgrade offering is order-preserving: with three plugins of which the
// second claims, the first is asked and declines, the second claims, and
// the third is never asked.
#[test]
fn upgrade_offer_stops_at_first_claimer() {
    let upgrade_log = Rc::new(RefCell::new(Vec::new()));
    let state_log = Rc::new(RefCell::new(Vec::new()));
    let mut c = controller_with_bot("a/bot");
    let _p1 = c.append_plugin(recording_plugin(1, &upgrade_log, &state_log, false));
    let p2 = c.append_plugin(recording_plugin(2, &upgrade_log, &state_log, true));
    let _p3 = c.append_plugin(recording_plugin(3, &upgrade_log, &state_log, false));

    let gen = start_stream(&mut c);
    let claimed = c.on_stream_event(
        gen,
        StreamEvent::Upgraded(Upgrade::Realtime(RealtimeChannel { channel_id: 7 })),
    );

    assert_eq!(claimed, Some(p2));
    assert_eq!(*upgrade_log.borrow(), vec![1, 2]);
    // A claimed upgrade ends streaming without appending content.
    assert!(!c.state().is_streaming);
}

#[test]
fn unclaimed_upgrade_is_dropped_and_streaming_continues() {
    let upgrade_log = Rc::new(RefCell::new(Vec::new()));
    let state_log = Rc::new(RefCell::new(Vec::new()));
    let mut c = controller_with_bot("a/bot");
    c.append_plugin(recording_plugin(1, &upgrade_log, &state_log, false));

    let gen = start_stream(&mut c);
    let messages_before = c.state().messages.len();
    let claimed = c.on_stream_event(
        gen,
        StreamEvent::Upgraded(Upgrade::Realtime(RealtimeChannel { channel_id: 7 })),
    );

    assert_eq!(claimed, None);
    assert_eq!(*upgrade_log.borrow(), vec![1]);
    assert!(c.state().is_streaming);
    assert_eq!(c.state().messages.len(), messages_before);
}

#[test]
fn plugins_are_notified_in_registration_order_for_every_mutation() {
    let upgrade_log = Rc::new(RefCell::new(Vec::new()));
    let state_log = Rc::new(RefCell::new(Vec::new()));
    let mut c = ChatController::new();
    c.append_plugin(recording_plugin(1, &upgrade_log, &state_log, false));
    c.append_plugin(recording_plugin(2, &upgrade_log, &state_log, false));

    c.dispatch_mutation(ChatStateMutation::SetIsStreaming(false));
    assert_eq!(*state_log.borrow(), vec![1, 2]);
}

#[test]
fn removed_plugin_is_not_notified_again() {
    let upgrade_log = Rc::new(RefCell::new(Vec::new()));
    let state_log = Rc::new(RefCell::new(Vec::new()));
    let mut c = ChatController::new();
    let p1 = c.append_plugin(recording_plugin(1, &upgrade_log, &state_log, false));
    let _p2 = c.append_plugin(recording_plugin(2, &upgrade_log, &state_log, false));

    c.remove_plugin(p1);
    c.dispatch_mutation(ChatStateMutation::SetIsStreaming(false));
    assert_eq!(*state_log.borrow(), vec![2]);
}
