use std::collections::HashMap;

use gutenberg_downloader::batch::{Batch, FIRST_ID, LAST_ID};
use gutenberg_downloader::naming::book_url;
use gutenberg_downloader::task::{Action, Event, Failure, Outcome, Task};

#[derive(Clone)]
enum Reply {
    Unreachable,
    Answered(u16, Option<&'static str>),
}

struct World {
    files: HashMap<String, String>,
    replies: HashMap<u32, Reply>,
    requests: Vec<String>,
    signals: usize,
}

impl World {
    fn new() -> World {
        World { files: HashMap::new(), replies: HashMap::new(), requests: Vec::new(), signals: 0 }
    }
}

// Runs every task of `first..=last` one event at a time, in turns, and asks the
// batch for the completion signal after each finished task.
fn run(world: &mut World, first: u32, last: u32) -> Batch {
    let mut batch = Batch::new(first, last);
    let mut live: Vec<(Task, Action, Option<Reply>)> = Vec::new();
    for id in first..=last {
        let (task, action) = Task::new(id);
        live.push((task, action, None));
    }
    world.signals = 0;
    while !live.is_empty() {
        let mut next = Vec::new();
        for (mut task, action, mut pending) in live {
            let event = match action {
                Action::CheckLocal(f) => Event::Local(world.files.contains_key(&f)),
                Action::Get(url) => {
                    world.requests.push(url);
                    let reply = world.replies.get(&task.id).cloned().unwrap_or(Reply::Unreachable);
                    pending = Some(reply.clone());
                    match reply {
                        Reply::Unreachable => Event::Unreachable,
                        Reply::Answered(status, _) => Event::Status(status),
                    }
                }
                Action::ReadBody => match pending {
                    Some(Reply::Answered(_, Some(t))) => Event::Body(Some(String::from(t))),
                    _ => Event::Body(None),
                },
                Action::Write(f, t) => {
                    world.files.insert(f, t);
                    Event::Written(true)
                }
                Action::Finish(outcome) => {
                    assert!(batch.record(task.id, outcome));
                    if batch.take_completion() {
                        world.signals += 1;
                    }
                    continue;
                }
                Action::Wait => panic!("task waits on an answered action"),
            };
            assert!(world.signals == 0);
            let action = task.on_event(event);
            next.push((task, action, pending));
        }
        live = next;
    }
    batch
}

#[test]
fn scenario_three_items_one_present() {
    let mut world = World::new();
    world.files.insert(String::from("book_2.txt"), String::from("old"));
    world.replies.insert(1, Reply::Answered(200, Some("A")));
    world.replies.insert(2, Reply::Answered(200, Some("should not be fetched")));
    world.replies.insert(3, Reply::Answered(200, Some("B")));
    let batch = run(&mut world, 1, 3);
    assert_eq!(world.files.get("book_1.txt").map(|s| s.as_str()), Some("A"));
    assert_eq!(world.files.get("book_2.txt").map(|s| s.as_str()), Some("old"));
    assert_eq!(world.files.get("book_3.txt").map(|s| s.as_str()), Some("B"));
    assert_eq!(world.requests, vec![book_url(1), book_url(3)]);
    assert_eq!(world.signals, 1);
    assert_eq!(batch.outcome(2), Some(Outcome::Skipped));
    assert_eq!(batch.outcome(1), Some(Outcome::Saved));
}

#[test]
fn transport_failure_does_not_stop_neighbours() {
    let mut world = World::new();
    world.replies.insert(4, Reply::Answered(200, Some("four")));
    world.replies.insert(5, Reply::Unreachable);
    world.replies.insert(6, Reply::Answered(200, Some("six")));
    let batch = run(&mut world, 4, 6);
    assert_eq!(world.files.get("book_4.txt").map(|s| s.as_str()), Some("four"));
    assert!(!world.files.contains_key("book_5.txt"));
    assert_eq!(world.files.get("book_6.txt").map(|s| s.as_str()), Some("six"));
    assert_eq!(batch.outcome(5), Some(Outcome::Failed(Failure::Transport)));
    assert_eq!(world.signals, 1);
}

#[test]
fn present_item_gets_no_request() {
    let mut world = World::new();
    world.files.insert(String::from("book_42.txt"), String::from("kept"));
    for id in 40..=44 {
        world.replies.insert(id, Reply::Answered(200, Some("new")));
    }
    run(&mut world, 40, 44);
    assert!(!world.requests.contains(&book_url(42)));
    assert_eq!(world.requests.len(), 4);
    assert_eq!(world.files.get("book_42.txt").map(|s| s.as_str()), Some("kept"));
}

#[test]
fn second_run_repeats_nothing_that_succeeded() {
    let mut world = World::new();
    world.replies.insert(1, Reply::Answered(200, Some("one")));
    world.replies.insert(2, Reply::Answered(404, None));
    world.replies.insert(3, Reply::Answered(200, None));
    world.replies.insert(4, Reply::Unreachable);
    run(&mut world, 1, 4);
    let files_once = world.files.clone();
    assert_eq!(world.requests.len(), 4);
    world.requests.clear();
    run(&mut world, 1, 4);
    assert_eq!(world.files, files_once);
    assert!(!world.requests.contains(&book_url(1)));
    assert_eq!(world.requests.len(), 3);
}

#[test]
fn completion_waits_for_every_task() {
    let mut batch = Batch::new(1, 3);
    assert!(!batch.all_finished());
    assert!(!batch.take_completion());
    assert!(batch.record(1, Outcome::Saved));
    assert!(!batch.take_completion());
    assert!(batch.record(3, Outcome::Failed(Failure::Decode)));
    assert!(!batch.take_completion());
    assert!(batch.record(2, Outcome::Skipped));
    assert!(batch.all_finished());
    assert!(batch.take_completion());
    assert!(!batch.take_completion());
}

#[test]
fn record_rejects_unknown_or_repeated_ids() {
    let mut batch = Batch::new(1, 3);
    assert!(!batch.record(0, Outcome::Saved));
    assert!(!batch.record(4, Outcome::Saved));
    assert!(batch.record(2, Outcome::Saved));
    assert!(!batch.record(2, Outcome::Skipped));
    assert_eq!(batch.outcome(2), Some(Outcome::Saved));
    assert_eq!(batch.outcome(1), None);
    assert_eq!(batch.outcome(9), None);
}

#[test]
fn empty_batch_completes_at_once() {
    let mut batch = Batch::new(5, 4);
    assert!(batch.all_finished());
    assert!(batch.take_completion());
    assert!(!batch.take_completion());
}

#[test]
fn standard_batch_covers_one_to_hundred() {
    let batch = Batch::standard();
    assert_eq!(batch.first(), 1);
    assert_eq!(batch.last(), 100);
    assert_eq!(FIRST_ID, 1);
    assert_eq!(LAST_ID, 100);
    assert!(!batch.all_finished());
}
