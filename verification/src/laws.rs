//! System-wide laws, stated over the mathematical models that the
//! operations' contracts use, and proved once and for all.

use vstd::prelude::*;

use crate::bus::SessionEvent;
use crate::session::SessionView;
use crate::stream::transition;
use crate::stream::StreamInput;
use crate::stream::StreamStep;

verus! {

/// Law: creating a session and then getting the returned identifier
/// yields a session with the given name and a zero counter.  `create`
/// turns the store's mapping into `sessions.insert(id, record)`, and
/// `get` returns exactly the mapping's record for a known id, so the
/// fetched record is the one created.
pub proof fn lemma_create_then_get(sessions: Map<u128, SessionView>, id: u128, name: Seq<char>)
    ensures
        sessions.insert(id, (SessionView { name, count: 0 })).contains_key(id),
        sessions.insert(id, (SessionView { name, count: 0 }))[id] == (SessionView {
            name,
            count: 0,
        }),
{
}

/// Law: a snapshot of the store reflects exactly the sessions created
/// before it was taken.  A session created afterwards leaves the
/// snapshot's mapping untouched: the new identifier is bound in the
/// store's later mapping, every other session is still present there
/// unchanged, and nothing else appears — so the created session shows
/// up in every subsequent snapshot and in no earlier one.
pub proof fn lemma_list_snapshot(before: Map<u128, SessionView>, id: u128, record: SessionView)
    ensures
        before.insert(id, record).contains_key(id),
        before.insert(id, record)[id] == record,
        forall|k: u128|
            k != id ==> (before.insert(id, record).contains_key(k) <==> before.contains_key(k)),
        forall|k: u128|
            k != id && before.contains_key(k) ==> before.insert(id, record)[k] == before[k],
{
}

/// The outputs of a stream filter over a whole sequence of resolved
/// inputs, started in the `Active` state: inputs are processed in
/// order until a transition terminates the filter; the terminating
/// round's output is included and nothing follows it.
pub open spec fn filter_run(target: u128, inputs: Seq<StreamInput>) -> Seq<StreamStep>
    decreases inputs.len(),
{
    if inputs.len() == 0 {
        Seq::empty()
    } else {
        let next = transition(target, inputs.first());
        if next.0 is Terminated {
            seq![next.1]
        } else {
            seq![next.1] + filter_run(target, inputs.drop_first())
        }
    }
}

/// Law: events published for one session are never delivered on a
/// stream opened for another.  Whatever resolved inputs a stream for
/// `target` processes — however events for other sessions interleave —
/// every item it ever emits carries `target`'s identifier.
pub proof fn lemma_stream_isolation(target: u128, inputs: Seq<StreamInput>, i: int)
    requires
        0 <= i < filter_run(target, inputs).len(),
    ensures
        filter_run(target, inputs)[i] matches StreamStep::Emit(e) ==> e.id == target,
    decreases inputs.len(),
{
    if inputs.len() == 0 {
    } else {
        let next = transition(target, inputs.first());
        if next.0 is Terminated || i == 0 {
        } else {
            lemma_stream_isolation(target, inputs.drop_first(), i - 1);
            assert(filter_run(target, inputs)[i] == filter_run(target, inputs.drop_first())[i - 1]);
        }
    }
}

/// Law: lag never terminates a stream.  If none of the inputs before
/// round `i` is a cancellation or a bus closure — lag notices and
/// events, matching or foreign, in any number — the filter is still
/// running at round `i`, and an event for the target session arriving
/// then is emitted: a stream that fell behind resumes delivering the
/// events published after the gap.
pub proof fn lemma_stream_survives_lag(
    target: u128,
    inputs: Seq<StreamInput>,
    i: int,
    e: SessionEvent,
)
    requires
        0 <= i < inputs.len(),
        forall|j: int| 0 <= j < i ==> !(inputs[j] is Cancelled) && !(inputs[j] is Closed),
        inputs[i] == StreamInput::Event(e),
        e.id == target,
    ensures
        filter_run(target, inputs).len() > i,
        filter_run(target, inputs)[i] == StreamStep::Emit(e),
    decreases i,
{
    if i == 0 {
        assert(inputs.first() == StreamInput::Event(e));
    } else {
        let rest = inputs.drop_first();
        assert(!(inputs[0] is Cancelled) && !(inputs[0] is Closed));
        assert(transition(target, inputs.first()).0 is Active);
        assert forall|j: int| 0 <= j < i - 1 implies !(rest[j] is Cancelled) && !(rest[j]
            is Closed) by {
            assert(rest[j] == inputs[j + 1]);
        }
        assert(rest[i - 1] == inputs[i]);
        lemma_stream_survives_lag(target, rest, i - 1, e);
        assert(filter_run(target, inputs)[i] == filter_run(target, rest)[i - 1]);
    }
}

} // verus!

