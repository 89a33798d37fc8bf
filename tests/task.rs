use gutenberg_downloader::task::{status_succeeds, Action, Event, Failure, Outcome, Phase, Task};

#[test]
fn status_success_range() {
    assert!(!status_succeeds(0));
    assert!(!status_succeeds(199));
    assert!(status_succeeds(200));
    assert!(status_succeeds(204));
    assert!(status_succeeds(299));
    assert!(!status_succeeds(300));
    assert!(!status_succeeds(404));
    assert!(!status_succeeds(1000));
}

#[test]
fn task_starts_by_checking_local_file() {
    let (task, action) = Task::new(5);
    assert_eq!(task.phase, Phase::Checking);
    assert!(matches!(action, Action::CheckLocal(ref f) if f == "book_5.txt"));
    assert_eq!(task.outcome(), None);
}

#[test]
fn present_file_is_skipped_without_request() {
    let (mut task, _) = Task::new(42);
    let a = task.on_event(Event::Local(true));
    assert!(matches!(a, Action::Finish(Outcome::Skipped)));
    assert_eq!(task.outcome(), Some(Outcome::Skipped));
}

#[test]
fn full_successful_run() {
    let (mut task, _) = Task::new(3);
    let a = task.on_event(Event::Local(false));
    assert!(matches!(a, Action::Get(ref u) if u == "https://www.gutenberg.org/cache/epub/3/pg3.txt"));
    let a = task.on_event(Event::Status(200));
    assert!(matches!(a, Action::ReadBody));
    let a = task.on_event(Event::Body(Some(String::from("B"))));
    match a {
        Action::Write(f, t) => {
            assert_eq!(f, "book_3.txt");
            assert_eq!(t, "B");
        }
        _ => panic!("expected a write"),
    }
    let a = task.on_event(Event::Written(true));
    assert!(matches!(a, Action::Finish(Outcome::Saved)));
    assert_eq!(task.outcome(), Some(Outcome::Saved));
}

#[test]
fn transport_failure_is_absorbed() {
    let (mut task, _) = Task::new(9);
    task.on_event(Event::Local(false));
    let a = task.on_event(Event::Unreachable);
    assert!(matches!(a, Action::Finish(Outcome::Failed(Failure::Transport))));
}

#[test]
fn unsuccessful_status_is_absorbed() {
    let (mut task, _) = Task::new(9);
    task.on_event(Event::Local(false));
    let a = task.on_event(Event::Status(404));
    assert!(matches!(a, Action::Finish(Outcome::Failed(Failure::Status(404)))));
}

#[test]
fn decode_failure_is_absorbed() {
    let (mut task, _) = Task::new(9);
    task.on_event(Event::Local(false));
    task.on_event(Event::Status(200));
    let a = task.on_event(Event::Body(None));
    assert!(matches!(a, Action::Finish(Outcome::Failed(Failure::Decode))));
}

#[test]
fn write_failure_is_absorbed() {
    let (mut task, _) = Task::new(9);
    task.on_event(Event::Local(false));
    task.on_event(Event::Status(201));
    task.on_event(Event::Body(Some(String::from("text"))));
    let a = task.on_event(Event::Written(false));
    assert!(matches!(a, Action::Finish(Outcome::Failed(Failure::Write))));
}

#[test]
fn unexpected_event_changes_nothing() {
    let (mut task, _) = Task::new(9);
    let a = task.on_event(Event::Status(200));
    assert!(matches!(a, Action::Wait));
    assert_eq!(task.phase, Phase::Checking);
    task.on_event(Event::Local(true));
    let a = task.on_event(Event::Local(false));
    assert!(matches!(a, Action::Wait));
    assert_eq!(task.outcome(), Some(Outcome::Skipped));
}
