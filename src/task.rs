//! The fetch-or-skip task of one item, as a state machine.
//!
//! The caller performs each [`Action`] the task asks for and hands the answer
//! back as an [`Event`]. Every failure is absorbed into the task's outcome.
use vstd::prelude::*;
use crate::naming::{book_filename, book_url, filename_of, url_of};

verus! {

/// Why an item was abandoned.
#[derive(Clone, Copy, Debug, PartialEq, Eq, Structural)]
pub enum Failure {
    /// The request did not reach the server or got no answer.
    Transport,
    /// The server answered with this status, which is not a success.
    Status(u16),
    /// The body could not be decoded as text.
    Decode,
    /// The text could not be written to the local file.
    Write,
}

/// How a task ended.
#[derive(Clone, Copy, Debug, PartialEq, Eq, Structural)]
pub enum Outcome {
    /// The local file was already there; nothing was fetched.
    Skipped,
    /// The text was fetched and written to the local file.
    Saved,
    /// The item was abandoned.
    Failed(Failure),
}

/// Where a task stands.
#[derive(Clone, Copy, Debug, PartialEq, Eq, Structural)]
pub enum Phase {
    /// Waiting to learn whether the local file exists.
    Checking,
    /// Waiting for the answer to the request.
    Requesting,
    /// Waiting for the decoded body.
    Reading,
    /// Waiting for the local write to end.
    Writing,
    /// Done; nothing more is asked.
    Finished(Outcome),
}

/// An answer from the outside world to the action a task asked for.
pub enum Event {
    /// Whether the local file exists.
    Local(bool),
    /// The request failed at the transport level.
    Unreachable,
    /// The server answered with this status code.
    Status(u16),
    /// The body decoded as text, or `None` where it could not be decoded.
    Body(Option<String>),
    /// Whether the local write succeeded.
    Written(bool),
}

/// What a task asks the caller to do next.
pub enum Action {
    /// Tell whether the file of this name exists.
    CheckLocal(String),
    /// Send one GET request to this address.
    Get(String),
    /// Decode the body of the response just received as text.
    ReadBody,
    /// Write the text (second) to the file of this name (first).
    Write(String, String),
    /// The task is over with this outcome.
    Finish(Outcome),
    /// The event did not answer what the task asked for; nothing to do.
    Wait,
}

/// The mathematical form of an [`Event`].
pub enum EventView {
    Local(bool),
    Unreachable,
    Status(u16),
    Body(Option<Seq<char>>),
    Written(bool),
}

/// The mathematical form of an [`Action`].
pub enum ActionView {
    CheckLocal(Seq<char>),
    Get(Seq<char>),
    ReadBody,
    Write(Seq<char>, Seq<char>),
    Finish(Outcome),
    Wait,
}

impl View for Event {
    type V = EventView;

    open spec fn view(&self) -> EventView {
        match self {
            Event::Local(b) => EventView::Local(*b),
            Event::Unreachable => EventView::Unreachable,
            Event::Status(c) => EventView::Status(*c),
            Event::Body(t) => EventView::Body(
                match t {
                    Some(s) => Some(s@),
                    None => None,
                },
            ),
            Event::Written(b) => EventView::Written(*b),
        }
    }
}

impl View for Action {
    type V = ActionView;

    open spec fn view(&self) -> ActionView {
        match self {
            Action::CheckLocal(f) => ActionView::CheckLocal(f@),
            Action::Get(u) => ActionView::Get(u@),
            Action::ReadBody => ActionView::ReadBody,
            Action::Write(f, t) => ActionView::Write(f@, t@),
            Action::Finish(o) => ActionView::Finish(*o),
            Action::Wait => ActionView::Wait,
        }
    }
}

/// Whether an HTTP status code signals success (2xx).
pub open spec fn is_success_code(code: u16) -> bool {
    200 <= code && code < 300
}

/// Relies on `reqwest::StatusCode` (the `http` crate's type): `from_u16` accepts
/// every code from 100 to 999, and `is_success` holds exactly for 200 to 299.
#[verifier::external_body]
fn status_is_success(code: u16) -> (r: bool)
    requires
        100 <= code <= 999,
    ensures
        r == is_success_code(code),
{
    match reqwest::StatusCode::from_u16(code) {
        Ok(status) => status.is_success(),
        Err(_) => false,
    }
}

/// Whether a response with this status code is followed up by reading its body.
/// A number outside 100 to 999 is no valid status and counts as failure.
pub fn status_succeeds(code: u16) -> (r: bool)
    ensures
        r == is_success_code(code),
{
    if 100 <= code && code <= 999 {
        status_is_success(code)
    } else {
        false
    }
}

/// The state a task of item `id` starts in, and the first action it asks for.
pub open spec fn start(id: u32) -> (Phase, ActionView) {
    (Phase::Checking, ActionView::CheckLocal(filename_of(id)))
}

/// One step of the task of item `id`: from phase `p`, on event `e`, the next
/// phase and the action asked for. An event that does not answer what phase
/// `p` waits for changes nothing and asks for nothing.
pub open spec fn step(id: u32, p: Phase, e: EventView) -> (Phase, ActionView) {
    let done = |o: Outcome| (Phase::Finished(o), ActionView::Finish(o));
    let ignored = (p, ActionView::Wait);
    match p {
        Phase::Checking => match e {
            EventView::Local(true) => done(Outcome::Skipped),
            EventView::Local(false) => (Phase::Requesting, ActionView::Get(url_of(id))),
            _ => ignored,
        },
        Phase::Requesting => match e {
            EventView::Unreachable => done(Outcome::Failed(Failure::Transport)),
            EventView::Status(c) => if is_success_code(c) {
                (Phase::Reading, ActionView::ReadBody)
            } else {
                done(Outcome::Failed(Failure::Status(c)))
            },
            _ => ignored,
        },
        Phase::Reading => match e {
            EventView::Body(Some(t)) => (Phase::Writing, ActionView::Write(filename_of(id), t)),
            EventView::Body(None) => done(Outcome::Failed(Failure::Decode)),
            _ => ignored,
        },
        Phase::Writing => match e {
            EventView::Written(true) => done(Outcome::Saved),
            EventView::Written(false) => done(Outcome::Failed(Failure::Write)),
            _ => ignored,
        },
        Phase::Finished(_) => ignored,
    }
}

/// The fetch-or-skip task of one item.
pub struct Task {
    pub id: u32,
    pub phase: Phase,
}

impl Task {
    /// Starts the task of item `id`: it first asks whether the item's local
    /// file exists.
    pub fn new(id: u32) -> (r: (Task, Action))
        ensures
            r.0.id == id,
            (r.0.phase, r.1@) == start(id),
    {
        (Task { id, phase: Phase::Checking }, Action::CheckLocal(book_filename(id)))
    }

    /// Takes the answer to the last action and returns the next one.
    pub fn on_event(&mut self, e: Event) -> (a: Action)
        ensures
            final(self).id == old(self).id,
            (final(self).phase, a@) == step(old(self).id, old(self).phase, e@),
    {
        let id = self.id;
        match self.phase {
            Phase::Checking => match e {
                Event::Local(true) => self.finish(Outcome::Skipped),
                Event::Local(false) => {
                    self.phase = Phase::Requesting;
                    Action::Get(book_url(id))
                },
                _ => Action::Wait,
            },
            Phase::Requesting => match e {
                Event::Unreachable => self.finish(Outcome::Failed(Failure::Transport)),
                Event::Status(c) => if status_succeeds(c) {
                    self.phase = Phase::Reading;
                    Action::ReadBody
                } else {
                    self.finish(Outcome::Failed(Failure::Status(c)))
                },
                _ => Action::Wait,
            },
            Phase::Reading => match e {
                Event::Body(Some(t)) => {
                    self.phase = Phase::Writing;
                    Action::Write(book_filename(id), t)
                },
                Event::Body(None) => self.finish(Outcome::Failed(Failure::Decode)),
                _ => Action::Wait,
            },
            Phase::Writing => match e {
                Event::Written(true) => self.finish(Outcome::Saved),
                Event::Written(false) => self.finish(Outcome::Failed(Failure::Write)),
                _ => Action::Wait,
            },
            Phase::Finished(_) => Action::Wait,
        }
    }

    fn finish(&mut self, o: Outcome) -> (a: Action)
        ensures
            final(self).id == old(self).id,
            final(self).phase == Phase::Finished(o),
            a@ == ActionView::Finish(o),
    {
        self.phase = Phase::Finished(o);
        Action::Finish(o)
    }

    /// The outcome, once the task is over.
    pub fn outcome(&self) -> (r: Option<Outcome>)
        ensures
            r == (match self.phase {
                Phase::Finished(o) => Some(o),
                _ => None,
            }),
    {
        match self.phase {
            Phase::Finished(o) => Some(o),
            _ => None,
        }
    }
}

} // verus!
