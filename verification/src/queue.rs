//! The order in which queued events are handled: mouse moves that follow one
//! another collapse into the newest, and nothing else is dropped or moved.

use vstd::prelude::*;
use crate::hook::WorkerEvent;

verus! {

pub open spec fn is_move(event: WorkerEvent) -> bool {
    event is MouseMove
}

/// Whether the event at `i` is a mouse move with another mouse move right
/// behind it, which makes it stale.
pub open spec fn superseded(events: Seq<WorkerEvent>, i: int) -> bool {
    is_move(events[i]) && i + 1 < events.len() && is_move(events[i + 1])
}

/// What is handled of the first `n` events: each of them that is not
/// superseded, in the order of arrival.
pub open spec fn coalesced_upto(events: Seq<WorkerEvent>, n: int) -> Seq<WorkerEvent>
    decreases n,
{
    if n <= 0 {
        Seq::empty()
    } else if superseded(events, n - 1) {
        coalesced_upto(events, n - 1)
    } else {
        coalesced_upto(events, n - 1).push(events[n - 1])
    }
}

/// The events that are handled, in order.
pub open spec fn coalesced(events: Seq<WorkerEvent>) -> Seq<WorkerEvent> {
    coalesced_upto(events, events.len() as int)
}

/// Tells whether an event is a mouse move.
pub fn is_mouse_move(event: &WorkerEvent) -> (moved: bool)
    ensures
        moved == is_move(*event),
{
    match event {
        WorkerEvent::MouseMove { .. } => true,
        _ => false,
    }
}

/// Skips the mouse moves that are queued from position `from` on and gives
/// the newest mouse move, `first` if none is queued there, with the position
/// of the first event that was not skipped. An event of another kind ends
/// the skipping and stays in the queue.
pub fn drain_to_latest_mouse_move(
    first: WorkerEvent,
    queued: &Vec<WorkerEvent>,
    from: usize,
) -> (drained: (WorkerEvent, usize))
    requires
        from <= queued.len(),
    ensures
        from <= drained.1 <= queued.len(),
        forall|k: int| from <= k < drained.1 ==> is_move(#[trigger] queued[k]),
        drained.1 < queued.len() ==> !is_move(queued[drained.1 as int]),
        drained.0 == if drained.1 == from {
            first
        } else {
            queued[drained.1 - 1]
        },
{
    let mut latest = first;
    let mut next = from;
    while next < queued.len() && is_mouse_move(&queued[next])
        invariant
            from <= next <= queued.len(),
            forall|k: int| from <= k < next ==> is_move(#[trigger] queued[k]),
            latest == if next == from {
                first
            } else {
                queued[next - 1]
            },
        decreases queued.len() - next,
    {
        latest = queued[next];
        next += 1;
    }
    (latest, next)
}

/// Within a run of mouse moves nothing is handled before the last of them.
proof fn lemma_run_is_skipped(events: Seq<WorkerEvent>, from: int, to: int)
    requires
        0 <= from <= to < events.len(),
        forall|k: int| from <= k <= to ==> is_move(#[trigger] events[k]),
    ensures
        coalesced_upto(events, to) == coalesced_upto(events, from),
    decreases to - from,
{
    if from < to {
        lemma_run_is_skipped(events, from, to - 1);
        assert(is_move(events[to - 1]) && is_move(events[to]));
        assert(superseded(events, to - 1));
    }
}

/// Puts a batch of events into the order in which they are handled: the
/// events as they arrived, but of each run of mouse moves only the newest.
pub fn coalesce_mouse_moves(events: &Vec<WorkerEvent>) -> (kept: Vec<WorkerEvent>)
    ensures
        kept@ == coalesced(events@),
{
    let mut kept: Vec<WorkerEvent> = Vec::new();
    let mut i: usize = 0;
    while i < events.len()
        invariant
            i <= events.len(),
            kept@ == coalesced_upto(events@, i as int),
        decreases events.len() - i,
    {
        let event = events[i];
        if is_mouse_move(&event) {
            let (latest, next) = drain_to_latest_mouse_move(event, events, i + 1);
            proof {
                assert forall|k: int| i <= k <= next - 1 implies is_move(#[trigger] events@[k]) by {
                    if k > i {
                        assert(is_move(events[k]));
                    }
                }
                lemma_run_is_skipped(events@, i as int, next - 1);
                assert(!superseded(events@, next - 1));
                assert(latest == events@[next - 1]);
            }
            kept.push(latest);
            i = next;
        } else {
            assert(!superseded(events@, i as int));
            kept.push(event);
            i += 1;
        }
    }
    kept
}

/// The events of `events` that are no mouse moves, in order.
pub open spec fn others(events: Seq<WorkerEvent>) -> Seq<WorkerEvent> {
    events.filter(|event: WorkerEvent| !is_move(event))
}

proof fn lemma_others_push(events: Seq<WorkerEvent>, event: WorkerEvent)
    ensures
        others(events.push(event)) == if is_move(event) {
            others(events)
        } else {
            others(events).push(event)
        },
{
    reveal(Seq::filter);
    assert(events.push(event).drop_last() =~= events);
}

proof fn lemma_others_kept_upto(events: Seq<WorkerEvent>, n: int)
    requires
        0 <= n <= events.len(),
    ensures
        others(coalesced_upto(events, n)) == others(events.take(n)),
    decreases n,
{
    reveal(Seq::filter);
    if n > 0 {
        lemma_others_kept_upto(events, n - 1);
        assert(events.take(n) =~= events.take(n - 1).push(events[n - 1]));
        lemma_others_push(events.take(n - 1), events[n - 1]);
        if !superseded(events, n - 1) {
            lemma_others_push(coalesced_upto(events, n - 1), events[n - 1]);
        }
    } else {
        assert(events.take(0) =~= Seq::<WorkerEvent>::empty());
    }
}

/// Coalescing drops no event of another kind than mouse move and does not
/// change their order.
pub proof fn lemma_others_are_kept(events: Seq<WorkerEvent>)
    ensures
        others(coalesced(events)) == others(events),
{
    lemma_others_kept_upto(events, events.len() as int);
    assert(events.take(events.len() as int) =~= events);
}

proof fn lemma_last_kept_upto(events: Seq<WorkerEvent>, n: int)
    requires
        0 <= n <= events.len(),
    ensures
        forall|j: int|
            0 <= j < coalesced_upto(events, n).len() - 1 ==> !(is_move(
                #[trigger] coalesced_upto(events, n)[j],
            ) && is_move(coalesced_upto(events, n)[j + 1])),
        coalesced_upto(events, n).len() > 0 && is_move(coalesced_upto(events, n).last()) ==> n
            == events.len() || !is_move(events[n]),
        n > 0 && !superseded(events, n - 1) ==> coalesced_upto(events, n).len() > 0
            && coalesced_upto(events, n).last() == events[n - 1],
    decreases n,
{
    if n > 0 {
        lemma_last_kept_upto(events, n - 1);
    }
}

/// After coalescing no two mouse moves follow one another, and where the
/// newest event is a mouse move it is the last one handled.
pub proof fn lemma_moves_are_collapsed(events: Seq<WorkerEvent>)
    ensures
        forall|j: int|
            0 <= j < coalesced(events).len() - 1 ==> !(is_move(#[trigger] coalesced(events)[j])
                && is_move(coalesced(events)[j + 1])),
        events.len() > 0 ==> coalesced(events).len() > 0 && coalesced(events).last()
            == events.last(),
{
    lemma_last_kept_upto(events, events.len() as int);
}

} // verus!
