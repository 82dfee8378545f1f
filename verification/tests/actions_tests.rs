use turbocommit::actions::{ActionLoop, Phase, Step, Task};

#[test]
fn task_labels_round_trip() {
    let tasks = [Task::Commit, Task::Edit, Task::Revise, Task::Abort];
    for task in tasks {
        assert_eq!(Task::from_str(task.to_str()), task);
    }
    assert_eq!(Task::from_str("Commit it"), Task::Commit);
    assert_eq!(Task::from_str("Edit it & Commit"), Task::Edit);
    assert_eq!(Task::from_str("Revise"), Task::Revise);
    assert_eq!(Task::from_str("Abort"), Task::Abort);
}

#[test]
fn commit_path_ends_the_loop() {
    let mut state = ActionLoop::new(String::from("feat: add parser"));
    assert_eq!(state.phase, Phase::Presented);
    let step = state.on_task(Task::Commit);
    assert_eq!(step, Step::RunCommit);
    assert_eq!(state.phase, Phase::Committing);
    let fatal = state.commit_finished(true);
    assert!(!fatal);
    assert_eq!(state.phase, Phase::Done);
    assert_eq!(state.message, "feat: add parser");
}

#[test]
fn commit_failure_is_fatal_not_retried() {
    let mut state = ActionLoop::new(String::from("fix: typo"));
    state.on_task(Task::Commit);
    let fatal = state.commit_finished(false);
    assert!(fatal);
    assert_ne!(state.phase, Phase::Done);
}

#[test]
fn edit_replaces_message_and_re_presents() {
    let mut state = ActionLoop::new(String::from("old text"));
    let step = state.on_task(Task::Edit);
    assert_eq!(step, Step::OpenEditor);
    assert_eq!(state.phase, Phase::Edited);
    state.edited(String::from("new text"));
    assert_eq!(state.message, "new text");
    assert_eq!(state.phase, Phase::Presented);
}

#[test]
fn revise_presents_the_newly_chosen_candidate() {
    let mut state = ActionLoop::new(String::from("draft one"));
    let step = state.on_task(Task::Revise);
    assert_eq!(step, Step::AskRevision);
    assert_eq!(state.phase, Phase::Reviewing);
    state.revised(String::from("draft two"));
    assert_eq!(state.message, "draft two");
    assert_eq!(state.phase, Phase::Presented);
}

#[test]
fn abort_is_terminal_and_commits_nothing() {
    let mut state = ActionLoop::new(String::from("anything"));
    let step = state.on_task(Task::Abort);
    assert_eq!(step, Step::Halt);
    assert_eq!(state.phase, Phase::Aborted);
    assert_eq!(state.message, "anything");
}
