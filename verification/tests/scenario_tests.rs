use turbocommit::actions::{ActionLoop, Phase, Step, Task};
use turbocommit::choices::choose_message;
use turbocommit::conversation::Conversation;
use turbocommit::model::Model;
use turbocommit::negotiate::{check_budget, RoundDecision};
use turbocommit::protocol::{Choice, Delta, Message, Response};
use turbocommit::stream::{consume_stream, StreamEvent};

fn fragment(index: i64, content: &str) -> StreamEvent {
    let mut resp = Response::empty();
    resp.choices.push(Choice {
        index,
        finish_reason: None,
        delta: Delta { role: None, content: Some(String::from(content)) },
    });
    StreamEvent::Data(resp)
}

#[test]
fn small_diff_streams_one_candidate_and_aborts_cleanly() {
    // A 500-token system message plus a 1000-token diff against a
    // 4096-token window: accepted at once, no selection round.
    let context = Model::Gpt35Turbo.context_size();
    assert_eq!(context, 4096);
    let decision = check_budget(1000, 500, context);
    assert_eq!(decision, RoundDecision::Fit { diff_tokens: 1000 });

    let mut conversation = Conversation::new();
    conversation.add_message(Message::system(String::from("system prompt")));
    conversation.add_message(Message::user(String::from("the diff")));
    assert_eq!(conversation.len(), 2);

    // One candidate requested; the stream completes it and terminates.
    let events = vec![
        fragment(0, "feat: "),
        fragment(0, "add the thing"),
        StreamEvent::Done,
    ];
    let state = consume_stream(1, &events).unwrap();
    let candidates = state.into_candidates();
    assert_eq!(candidates, vec![String::from("feat: add the thing")]);

    // A single candidate is auto-chosen, no index prompt.
    let chosen = choose_message(&candidates).unwrap();

    // The user aborts: terminal state, and no commit step was ever issued.
    let mut action = ActionLoop::new(chosen);
    let step = action.on_task(Task::Abort);
    assert_eq!(step, Step::Halt);
    assert_eq!(action.phase, Phase::Aborted);
}

#[test]
fn oversized_diff_narrows_then_proceeds() {
    // A 5000-token diff against a 4096-token window must trigger file
    // selection rather than being sent or truncated.
    let context = Model::Gpt35Turbo.context_size();
    let first = check_budget(5000, 0, context);
    assert_eq!(first, RoundDecision::TooLong { total_tokens: 5000 });

    // The user picks a subset; the regenerated diff measures 800 tokens
    // and the loop exits.
    let second = check_budget(800, 0, context);
    assert_eq!(second, RoundDecision::Fit { diff_tokens: 800 });

    // The negotiation done, the conversation is seeded and a request can go
    // out.
    let mut conversation = Conversation::new();
    conversation.add_message(Message::system(String::from("system prompt")));
    conversation.add_message(Message::user(String::from("narrowed diff")));
    assert_eq!(conversation.snapshot().len(), 2);
}

#[test]
fn revision_flow_grows_the_conversation_and_loops() {
    let mut conversation = Conversation::new();
    conversation.add_message(Message::system(String::from("system prompt")));
    conversation.add_message(Message::user(String::from("diff")));

    let mut action = ActionLoop::new(String::from("feat: first answer"));
    let step = action.on_task(Task::Revise);
    assert_eq!(step, Step::AskRevision);
    conversation.record_revision(action.message.clone(), String::from("shorter please"));
    assert_eq!(conversation.len(), 4);

    // The new batch arrives and one candidate is chosen.
    let events = vec![fragment(0, "feat: shorter"), StreamEvent::Done];
    let state = consume_stream(1, &events).unwrap();
    let chosen = choose_message(&state.into_candidates()).unwrap();
    action.revised(chosen);
    assert_eq!(action.phase, Phase::Presented);
    assert_eq!(action.message, "feat: shorter");

    // This time the user commits, and the collaborator succeeds.
    let step = action.on_task(Task::Commit);
    assert_eq!(step, Step::RunCommit);
    assert!(!action.commit_finished(true));
    assert_eq!(action.phase, Phase::Done);
}
