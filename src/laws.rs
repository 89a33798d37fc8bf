//! What a run of the batch does to the local store, and the laws it obeys.
//!
//! The outside world is modelled per item: whether the item's file is present,
//! what the server replies to its request, and whether a write to its file
//! succeeds. A task's run is then the sequence of actions that its state
//! machine asks for when each action is answered by that world.
use vstd::prelude::*;
use crate::naming::{filename_of, url_of};
use crate::task::{step, start, is_success_code, ActionView, EventView, Failure, Outcome, Phase};

verus! {

/// What the server does with the request for one item.
pub enum Reply {
    /// The request fails at the transport level.
    Unreachable,
    /// The server answers with `status`; `body` is the body decoded as text,
    /// or `None` where it cannot be decoded.
    Answered { status: u16, body: Option<Seq<char>> },
}

/// The answer of the world to `a`, for an item whose file is `present`, whose
/// request gets `reply`, and whose file can be written where `writable`.
pub open spec fn answer(a: ActionView, present: bool, reply: Reply, writable: bool) -> EventView {
    match a {
        ActionView::CheckLocal(_) => EventView::Local(present),
        ActionView::Get(_) => match reply {
            Reply::Unreachable => EventView::Unreachable,
            Reply::Answered { status, .. } => EventView::Status(status),
        },
        ActionView::ReadBody => match reply {
            Reply::Answered { body, .. } => EventView::Body(body),
            Reply::Unreachable => EventView::Body(None),
        },
        _ => EventView::Written(writable),
    }
}

/// A measure of how far a phase is from the end; every step that is not
/// ignored lowers it.
pub open spec fn rank(p: Phase) -> nat {
    match p {
        Phase::Checking => 4,
        Phase::Requesting => 3,
        Phase::Reading => 2,
        Phase::Writing => 1,
        Phase::Finished(_) => 0,
    }
}

/// The actions a task of item `id` asks for from phase `p` on, `a` being the
/// one it has just asked for, when the world answers each of them.
pub open spec fn run_from(
    id: u32,
    p: Phase,
    a: ActionView,
    present: bool,
    reply: Reply,
    writable: bool,
) -> Seq<ActionView>
    decreases rank(p),
{
    let next = step(id, p, answer(a, present, reply, writable));
    if a is Finish || a is Wait || rank(next.0) >= rank(p) {
        seq![a]
    } else {
        seq![a] + run_from(id, next.0, next.1, present, reply, writable)
    }
}

/// The actions the task of item `id` asks for over its whole run.
pub open spec fn item_trace(id: u32, present: bool, reply: Reply, writable: bool) -> Seq<
    ActionView,
> {
    run_from(id, start(id).0, start(id).1, present, reply, writable)
}

/// Whether a run sends a request.
pub open spec fn sends_request(trace: Seq<ActionView>) -> bool {
    exists|i: int| 0 <= i < trace.len() && (#[trigger] trace[i]) is Get
}

/// The text that the last write of a run puts into a file, if the run writes.
pub open spec fn text_written(trace: Seq<ActionView>) -> Option<Seq<char>>
    decreases trace.len(),
{
    if trace.len() == 0 {
        None
    } else {
        match trace.last() {
            ActionView::Write(_, t) => Some(t),
            _ => text_written(trace.drop_last()),
        }
    }
}

/// The content of item `id`'s file after its task has run on a store where
/// the file holds `old` (`None`: absent).
pub open spec fn file_after(id: u32, old: Option<Seq<char>>, reply: Reply, writable: bool) -> Option<
    Seq<char>,
> {
    match old {
        Some(t) => Some(t),
        None => if writable {
            text_written(item_trace(id, false, reply, writable))
        } else {
            None
        },
    }
}

/// The local store, from item ID to the content of its file, after one run of
/// the batch over `first..=last`. The server replies `replies(id)` to the
/// request for `id`, and a write of `id`'s file succeeds where `writable(id)`.
pub open spec fn store_after(
    first: u32,
    last: u32,
    store: Map<u32, Seq<char>>,
    replies: spec_fn(u32) -> Reply,
    writable: spec_fn(u32) -> bool,
) -> Map<u32, Seq<char>> {
    let after = |id: u32|
        if first <= id <= last {
            file_after(id, if store.contains_key(id) { Some(store[id]) } else { None }, replies(id), writable(id))
        } else if store.contains_key(id) {
            Some(store[id])
        } else {
            None
        };
    Map::new(|id: u32| after(id) is Some, |id: u32| after(id)->0)
}

/// The IDs for which one run of the batch sends a request.
pub open spec fn requested_ids(
    first: u32,
    last: u32,
    store: Map<u32, Seq<char>>,
    replies: spec_fn(u32) -> Reply,
    writable: spec_fn(u32) -> bool,
) -> Set<u32> {
    Set::new(
        |id: u32|
            first <= id <= last && sends_request(
                item_trace(id, store.contains_key(id), replies(id), writable(id)),
            ),
    )
}

/// The whole run of one item's task, case by case: a present file ends the
/// task at once; otherwise exactly one request is sent, and the text is
/// written only after a successful status and a decodable body.
pub proof fn lemma_item_trace(id: u32, present: bool, reply: Reply, writable: bool)
    ensures
        item_trace(id, present, reply, writable) == (if present {
            seq![ActionView::CheckLocal(filename_of(id)), ActionView::Finish(Outcome::Skipped)]
        } else {
            let head = seq![ActionView::CheckLocal(filename_of(id)), ActionView::Get(url_of(id))];
            match reply {
                Reply::Unreachable => head.push(
                    ActionView::Finish(Outcome::Failed(Failure::Transport)),
                ),
                Reply::Answered { status, body } => if !is_success_code(status) {
                    head.push(ActionView::Finish(Outcome::Failed(Failure::Status(status))))
                } else {
                    match body {
                        None => head.push(ActionView::ReadBody).push(
                            ActionView::Finish(Outcome::Failed(Failure::Decode)),
                        ),
                        Some(t) => head.push(ActionView::ReadBody).push(
                            ActionView::Write(filename_of(id), t),
                        ).push(
                            ActionView::Finish(
                                if writable {
                                    Outcome::Saved
                                } else {
                                    Outcome::Failed(Failure::Write)
                                },
                            ),
                        ),
                    }
                },
            }
        }),
{
    reveal_with_fuel(run_from, 6);
    let tr = item_trace(id, present, reply, writable);
    if present {
        assert(tr =~= seq![ActionView::CheckLocal(filename_of(id)), ActionView::Finish(Outcome::Skipped)]);
    } else {
        let head = seq![ActionView::CheckLocal(filename_of(id)), ActionView::Get(url_of(id))];
        match reply {
            Reply::Unreachable => {
                assert(tr =~= head.push(ActionView::Finish(Outcome::Failed(Failure::Transport))));
            },
            Reply::Answered { status, body } => {
                if !is_success_code(status) {
                    assert(tr =~= head.push(ActionView::Finish(Outcome::Failed(Failure::Status(status)))));
                } else {
                    match body {
                        None => {
                            assert(tr =~= head.push(ActionView::ReadBody).push(
                                ActionView::Finish(Outcome::Failed(Failure::Decode)),
                            ));
                        },
                        Some(t) => {
                            let o = if writable { Outcome::Saved } else { Outcome::Failed(Failure::Write) };
                            assert(tr =~= head.push(ActionView::ReadBody).push(
                                ActionView::Write(filename_of(id), t),
                            ).push(ActionView::Finish(o)));
                        },
                    }
                }
            },
        }
    }
}

/// What the task of an item leaves behind: it sends a request exactly when the
/// item's file is absent, and it writes exactly the decoded body of a
/// successful reply.
pub proof fn lemma_item_effect(id: u32, present: bool, reply: Reply, writable: bool)
    ensures
        sends_request(item_trace(id, present, reply, writable)) == !present,
        text_written(item_trace(id, false, reply, writable)) == (match reply {
            Reply::Answered { status, body } => if is_success_code(status) {
                body
            } else {
                None
            },
            Reply::Unreachable => None,
        }),
{
    lemma_item_trace(id, present, reply, writable);
    lemma_item_trace(id, false, reply, writable);
    let tr = item_trace(id, present, reply, writable);
    let tr0 = item_trace(id, false, reply, writable);
    if !present {
        assert(tr[1] is Get);
    }
    reveal_with_fuel(text_written, 5);
    assert(tr0.drop_last() =~= tr0.subrange(0, tr0.len() - 1));
}

/// A successful fetch is saved: an item of the batch whose file is absent,
/// whose request is answered with a success status and a decodable body, and
/// whose file can be written, holds that body after the run, whatever the
/// other items do.
pub proof fn lemma_fetched_item_saved(
    first: u32,
    last: u32,
    store: Map<u32, Seq<char>>,
    replies: spec_fn(u32) -> Reply,
    writable: spec_fn(u32) -> bool,
    id: u32,
    status: u16,
    text: Seq<char>,
)
    requires
        first <= id <= last,
        !store.contains_key(id),
        replies(id) == (Reply::Answered { status, body: Some(text) }),
        is_success_code(status),
        writable(id),
    ensures
        store_after(first, last, store, replies, writable).contains_key(id),
        store_after(first, last, store, replies, writable)[id] == text,
        requested_ids(first, last, store, replies, writable).contains(id),
{
    lemma_item_effect(id, false, replies(id), writable(id));
}

/// Skip: an item whose file already exists gets no request, and its file is
/// left as it was.
pub proof fn lemma_present_item_skipped(
    first: u32,
    last: u32,
    store: Map<u32, Seq<char>>,
    replies: spec_fn(u32) -> Reply,
    writable: spec_fn(u32) -> bool,
    id: u32,
)
    requires
        store.contains_key(id),
    ensures
        !requested_ids(first, last, store, replies, writable).contains(id),
        store_after(first, last, store, replies, writable).contains_key(id),
        store_after(first, last, store, replies, writable)[id] == store[id],
{
    lemma_item_effect(id, true, replies(id), writable(id));
}

/// Idempotence: against the same server and disk, a second run of the batch
/// leaves the store as the first run left it, and sends no request for an
/// item whose file the first run left in place.
pub proof fn lemma_run_twice(
    first: u32,
    last: u32,
    store: Map<u32, Seq<char>>,
    replies: spec_fn(u32) -> Reply,
    writable: spec_fn(u32) -> bool,
)
    ensures
        store_after(first, last, store_after(first, last, store, replies, writable), replies, writable)
            == store_after(first, last, store, replies, writable),
        forall|id: u32|
            store_after(first, last, store, replies, writable).contains_key(id) ==> !requested_ids(
                first,
                last,
                store_after(first, last, store, replies, writable),
                replies,
                writable,
            ).contains(id),
{
    let once = store_after(first, last, store, replies, writable);
    let twice = store_after(first, last, once, replies, writable);
    assert forall|id: u32| once.contains_key(id) implies !requested_ids(first, last, once, replies, writable).contains(id) by {
        lemma_item_effect(id, true, replies(id), writable(id));
    }
    assert forall|id: u32| #[trigger] twice.contains_key(id) == once.contains_key(id) && (once.contains_key(id) ==> twice[id] == once[id]) by {
        lemma_item_effect(id, false, replies(id), writable(id));
    }
    assert(twice =~= once);
}

/// Isolation: what the server does with the request for item `k` changes
/// nothing for any other item, neither whether it is requested nor what its
/// file holds after the run.
pub proof fn lemma_items_isolated(
    first: u32,
    last: u32,
    store: Map<u32, Seq<char>>,
    replies: spec_fn(u32) -> Reply,
    other_replies: spec_fn(u32) -> Reply,
    writable: spec_fn(u32) -> bool,
    k: u32,
)
    requires
        forall|id: u32| id != k ==> #[trigger] replies(id) == other_replies(id),
    ensures
        forall|id: u32|
            id != k ==> {
                &&& requested_ids(first, last, store, replies, writable).contains(id)
                    == requested_ids(first, last, store, other_replies, writable).contains(id)
                &&& store_after(first, last, store, replies, writable).contains_key(id)
                    == store_after(first, last, store, other_replies, writable).contains_key(id)
                &&& store_after(first, last, store, replies, writable).contains_key(id)
                    ==> store_after(first, last, store, replies, writable)[id]
                    == store_after(first, last, store, other_replies, writable)[id]
            },
{
    assert forall|id: u32| id != k implies {
        &&& requested_ids(first, last, store, replies, writable).contains(id)
            == requested_ids(first, last, store, other_replies, writable).contains(id)
        &&& store_after(first, last, store, replies, writable).contains_key(id)
            == store_after(first, last, store, other_replies, writable).contains_key(id)
        &&& store_after(first, last, store, replies, writable).contains_key(id)
            ==> store_after(first, last, store, replies, writable)[id]
            == store_after(first, last, store, other_replies, writable)[id]
    } by {
        assert(replies(id) == other_replies(id));
    }
}

} // verus!
