//! Why it is sound to call an operation again from the start with one reply more.
use crate::error::ErrorView;
use crate::exchange::{fetched, sent, settled, Document, Flow, Reply, RequestView, Tape};
use vstd::prelude::*;

verus! {

/// The tape with more replies at its end.
pub open spec fn grown(t: Tape, more: Seq<Reply>) -> Tape {
    Tape { replies: t.replies + more, pos: t.pos }
}

/// What an operation comes to where more replies stand unused at the end of its
/// tape.
pub open spec fn regrown<V>(f: Flow<V>, more: Seq<Reply>) -> Flow<V> {
    match f {
        Flow::Ready(v, t) => Flow::Ready(v, grown(t, more)),
        Flow::Fail(e, t) => Flow::Fail(e, grown(t, more)),
        Flow::Wait(q, k) => Flow::Wait(q, k),
    }
}

/// Whether an operation that has come to `before` comes to the same in `after`, where
/// `more` replies were added.
pub open spec fn stays<V>(before: Flow<V>, after: Flow<V>, more: Seq<Reply>) -> bool {
    before !is Wait ==> after == regrown(before, more)
}

/// Whether an operation, once it has finished, finishes in the same way whatever
/// replies are added.
pub open spec fn stable<V>(op: spec_fn(Tape) -> Flow<V>) -> bool {
    forall|t: Tape, more: Seq<Reply>| stays(op(t), #[trigger] op(grown(t, more)), more)
}

/// Whether an operation that goes on with a value is stable for each value.
pub open spec fn stable_on<V, W>(op: spec_fn(V, Tape) -> Flow<W>) -> bool {
    forall|v: V, t: Tape, more: Seq<Reply>| stays(op(v, t), #[trigger] op(v, grown(t, more)), more)
}

/// What came of a request for a document stays so.
pub broadcast proof fn fetched_holds<T: Document>(request: RequestView, t: Tape, more: Seq<Reply>)
    ensures
        stays(
            fetched::<T>(request, t),
            #[trigger] fetched::<T>(request, grown(t, more)),
            more,
        ),
{
    if t.pos < t.replies.len() {
        assert(grown(t, more).replies[t.pos as int] == t.replies[t.pos as int]);
        assert(grown(t, more).next() == grown(t.next(), more));
    }
}

/// What came of a change stays so.
pub broadcast proof fn sent_holds(request: RequestView, t: Tape, more: Seq<Reply>)
    ensures
        stays(sent(request, t), #[trigger] sent(request, grown(t, more)), more),
{
    broadcast use fetched_holds;

}

/// Sending a request for a document is stable.
pub proof fn fetched_is_stable<T: Document>(request: RequestView)
    ensures
        stable(|t: Tape| fetched::<T>(request, t)),
{
    broadcast use fetched_holds;

}

/// Sending a change is stable.
pub proof fn sent_is_stable(request: RequestView)
    ensures
        stable(|t: Tape| sent(request, t)),
{
    broadcast use sent_holds;

}

/// A plain result is stable.
pub proof fn settled_is_stable<V>(r: Result<V, ErrorView>)
    ensures
        stable(|t: Tape| settled(r, t)),
{
}

/// An operation whose value is changed is stable where the operation is.
pub proof fn map_is_stable<V, W>(op: spec_fn(Tape) -> Flow<V>, f: spec_fn(V) -> W)
    requires
        stable(op),
    ensures
        stable(|t: Tape| op(t).map(f)),
{
    let mapped = |t: Tape| op(t).map(f);
    assert forall|t: Tape, more: Seq<Reply>| stays(
        mapped(t),
        #[trigger] mapped(grown(t, more)),
        more,
    ) by {
        assert(stays(op(t), op(grown(t, more)), more));
    }
}

/// An operation that goes on with the value of another is stable where both are.
pub proof fn and_then_is_stable<V, W>(
    first: spec_fn(Tape) -> Flow<V>,
    second: spec_fn(V, Tape) -> Flow<W>,
)
    requires
        stable(first),
        stable_on(second),
    ensures
        stable(|t: Tape| first(t).and_then(second)),
{
    let op = |t: Tape| first(t).and_then(second);
    assert forall|t: Tape, more: Seq<Reply>| stays(op(t), #[trigger] op(grown(t, more)), more) by {
        assert(stays(first(t), first(grown(t, more)), more));
        if let Flow::Ready(v, u) = first(t) {
            assert(stays(second(v, u), second(v, grown(u, more)), more));
        }
    }
}

/// A request is asked for only where every reply has been used.
pub proof fn fetched_asks_at_the_end<T: Document>(request: RequestView, t: Tape)
    ensures
        fetched::<T>(request, t) is Wait <==> t.pos >= t.replies.len(),
        fetched::<T>(request, t) matches Flow::Wait(q, k) ==> q == request && k == T::kind_of(),
{
}

} // verus!
