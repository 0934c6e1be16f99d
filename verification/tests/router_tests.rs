use chat_core::client::ClientErrorKind;
use chat_core::model::{Bot, BotCapabilities, BotId, EntityAvatar};
use chat_core::router::MultiClient;

fn bot(id: &str) -> Bot {
    Bot {
        id: BotId::new(id),
        name: id.to_string(),
        avatar: EntityAvatar::Text("b".to_string()),
        capabilities: BotCapabilities::new().with_text_input(),
    }
}

#[test]
fn bots_concatenates_rosters_in_registration_order() {
    let mut r = MultiClient::new();
    r.push_client(10, vec![bot("a/1"), bot("a/2")]);
    r.push_client(20, vec![bot("b/1")]);
    let all = r.bots();
    assert_eq!(all.len(), 3);
    assert_eq!(all[0].id.id, "a/1");
    assert_eq!(all[1].id.id, "a/2");
    assert_eq!(all[2].id.id, "b/1");
}

#[test]
fn route_finds_the_owning_client() {
    let mut r = MultiClient::new();
    r.push_client(10, vec![bot("a/1")]);
    r.push_client(20, vec![bot("b/1")]);
    assert_eq!(r.route(&BotId::new("b/1")).unwrap(), 20);
    assert_eq!(r.route(&BotId::new("a/1")).unwrap(), 10);
}

#[test]
fn route_fails_when_no_client_claims_the_bot() {
    let mut r = MultiClient::new();
    r.push_client(10, vec![bot("a/1")]);
    let err = r.route(&BotId::new("c/9")).unwrap_err();
    assert_eq!(err.kind, ClientErrorKind::Response);
    assert_eq!(err.message, "bot not found");
}

#[test]
fn removing_a_client_removes_its_roster() {
    let mut r = MultiClient::new();
    r.push_client(10, vec![bot("a/1")]);
    r.push_client(20, vec![bot("b/1")]);
    r.remove_client(10);
    assert!(r.route(&BotId::new("a/1")).is_err());
    assert_eq!(r.route(&BotId::new("b/1")).unwrap(), 20);
    assert_eq!(r.bots().len(), 1);

    // Removing an unknown key changes nothing.
    r.remove_client(99);
    assert_eq!(r.bots().len(), 1);
}
