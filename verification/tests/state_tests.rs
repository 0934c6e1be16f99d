use chat_core::model::{
    Attachment, Bot, BotCapabilities, BotId, EntityAvatar, EntityId, Message, MessageContent,
};
use chat_core::mutation::VecMutation;
use chat_core::state::{apply_state_mutation, ChatState, ChatStateMutation};

fn bot(id: &str) -> Bot {
    Bot {
        id: BotId::new(id),
        name: id.to_string(),
        avatar: EntityAvatar::Text("b".to_string()),
        capabilities: BotCapabilities::new().with_text_input(),
    }
}

#[test]
fn set_is_streaming_flips_the_flag() {
    let mut s = ChatState::new();
    assert!(!s.is_streaming);
    apply_state_mutation(&mut s, ChatStateMutation::SetIsStreaming(true));
    assert!(s.is_streaming);
    apply_state_mutation(&mut s, ChatStateMutation::SetIsStreaming(false));
    assert!(!s.is_streaming);
}

#[test]
fn set_bot_id_selects() {
    let mut s = ChatState::new();
    apply_state_mutation(&mut s, ChatStateMutation::SetBotId(Some(BotId::new("x/y"))));
    assert_eq!(s.bot_id.as_ref().unwrap().id, "x/y");
    apply_state_mutation(&mut s, ChatStateMutation::SetBotId(None));
    assert!(s.bot_id.is_none());
}

#[test]
fn roster_mutation_keeps_valid_selection() {
    let mut s = ChatState::new();
    apply_state_mutation(&mut s, ChatStateMutation::MutateBots(VecMutation::Push(bot("a/1"))));
    apply_state_mutation(&mut s, ChatStateMutation::MutateBots(VecMutation::Push(bot("a/2"))));
    apply_state_mutation(&mut s, ChatStateMutation::SetBotId(Some(BotId::new("a/1"))));

    // Removing the other bot keeps the selection.
    apply_state_mutation(&mut s, ChatStateMutation::MutateBots(VecMutation::RemoveOne(1)));
    assert_eq!(s.bots.len(), 1);
    assert_eq!(s.bot_id.as_ref().unwrap().id, "a/1");
}

#[test]
fn roster_mutation_clears_dangling_selection() {
    let mut s = ChatState::new();
    apply_state_mutation(&mut s, ChatStateMutation::MutateBots(VecMutation::Push(bot("a/1"))));
    apply_state_mutation(&mut s, ChatStateMutation::SetBotId(Some(BotId::new("a/1"))));

    // Replacing the roster with one that lacks the selected id clears it.
    apply_state_mutation(
        &mut s,
        ChatStateMutation::MutateBots(VecMutation::SetAll(vec![bot("a/2")])),
    );
    assert!(s.bot_id.is_none());
}

#[test]
fn attachments_copy_their_bytes() {
    let a = Attachment::from_bytes(
        "recording.wav".to_string(),
        Some("audio/wav".to_string()),
        &[1, 2, 3],
    );
    assert_eq!(a.name, "recording.wav");
    assert_eq!(a.mime.as_deref(), Some("audio/wav"));
    assert_eq!(a.content, vec![1, 2, 3]);
}

#[test]
fn message_mutations_edit_history() {
    let mut s = ChatState::new();
    let m1 = Message { from: EntityId::User, content: MessageContent::from_text("hi".to_string()) };
    let m2 = Message { from: EntityId::App, content: MessageContent::from_text("ok".to_string()) };
    apply_state_mutation(&mut s, ChatStateMutation::MutateMessages(VecMutation::Push(m1)));
    apply_state_mutation(&mut s, ChatStateMutation::MutateMessages(VecMutation::Push(m2)));
    assert_eq!(s.messages.len(), 2);
    assert_eq!(s.messages[1].content.text, "ok");
    apply_state_mutation(&mut s, ChatStateMutation::MutateMessages(VecMutation::RemoveOne(0)));
    assert_eq!(s.messages.len(), 1);
    assert_eq!(s.messages[0].content.text, "ok");
}
