use turbocommit::conversation::Conversation;
use turbocommit::protocol::{Message, Role};

#[test]
fn messages_keep_insertion_order() {
    let mut conversation = Conversation::new();
    conversation.add_message(Message::system(String::from("be terse")));
    conversation.add_message(Message::user(String::from("diff text")));
    conversation.add_message(Message::user(String::from("extra instruction")));
    let snapshot = conversation.snapshot();
    assert_eq!(snapshot.len(), 3);
    assert_eq!(snapshot[0].role, Role::System);
    assert_eq!(snapshot[0].content, "be terse");
    assert_eq!(snapshot[1].role, Role::User);
    assert_eq!(snapshot[1].content, "diff text");
    assert_eq!(snapshot[2].role, Role::User);
    assert_eq!(snapshot[2].content, "extra instruction");
    assert_eq!(conversation.len(), 3);
}

#[test]
fn revision_appends_answer_then_critique() {
    let mut conversation = Conversation::new();
    conversation.add_message(Message::system(String::from("prompt")));
    conversation.add_message(Message::user(String::from("diff")));
    conversation.record_revision(
        String::from("feat: first try"),
        String::from("mention the config change"),
    );
    let snapshot = conversation.snapshot();
    assert_eq!(snapshot.len(), 4);
    assert_eq!(snapshot[2].role, Role::Assistant);
    assert_eq!(snapshot[2].content, "feat: first try");
    assert_eq!(snapshot[3].role, Role::User);
    assert_eq!(snapshot[3].content, "mention the config change");
}

#[test]
fn readiness_needs_system_then_user() {
    let mut conversation = Conversation::new();
    assert!(!conversation.is_ready_for_request());
    conversation.add_message(Message::system(String::from("prompt")));
    assert!(!conversation.is_ready_for_request());
    conversation.add_message(Message::user(String::from("diff")));
    assert!(conversation.is_ready_for_request());

    let mut wrong_order = Conversation::new();
    wrong_order.add_message(Message::user(String::from("diff")));
    wrong_order.add_message(Message::system(String::from("prompt")));
    assert!(!wrong_order.is_ready_for_request());

    let mut no_user = Conversation::new();
    no_user.add_message(Message::system(String::from("prompt")));
    no_user.add_message(Message::assistant(String::from("answer")));
    assert!(!no_user.is_ready_for_request());
}

#[test]
fn constructors_tag_roles() {
    assert_eq!(Message::system(String::from("s")).role, Role::System);
    assert_eq!(Message::user(String::from("u")).role, Role::User);
    assert_eq!(Message::assistant(String::from("a")).role, Role::Assistant);
    assert_eq!(Message::assistant(String::from("a")).content, "a");
}
