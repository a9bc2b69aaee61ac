//! Events delivered to the front end for one streaming fetch, and the grammar
//! every per-request event trace obeys: at most one `Started`, and only first;
//! `Chunk` and `Ended` only after `Started`; a terminal event (`Ended`,
//! `Failed` or `Cancelled`) only last.

use vstd::prelude::*;

verus! {

/// Mathematical model of one event: what a `StreamEvent` carries, over
/// sequences instead of heap-allocated values.
pub enum EventModel {
    Started { status: u16, headers: Seq<(Seq<char>, Seq<char>)> },
    Chunk { data: Seq<u8> },
    Ended,
    Failed { message: Seq<char> },
    Cancelled,
}

/// One event delivered to the front end for a streaming fetch.
#[derive(Debug, Clone, PartialEq, Eq)]
pub enum StreamEvent {
    /// The response arrived: its status code and headers, in order.
    Started { status: u16, headers: Vec<(String, String)> },
    /// One fragment of the response body, in arrival order.
    Chunk { data: Vec<u8> },
    /// The body is complete; the request is finished.
    Ended,
    /// The request is finished with an error.
    Failed { message: String },
    /// The request is finished because the caller cancelled it.
    Cancelled,
}

/// The headers of a response, as a sequence of (name, value) character pairs.
pub open spec fn headers_view(h: Seq<(String, String)>) -> Seq<(Seq<char>, Seq<char>)> {
    h.map_values(|p: (String, String)| (p.0@, p.1@))
}

impl View for StreamEvent {
    type V = EventModel;

    open spec fn view(&self) -> EventModel {
        match self {
            StreamEvent::Started { status, headers } => EventModel::Started {
                status: *status,
                headers: headers_view(headers@),
            },
            StreamEvent::Chunk { data } => EventModel::Chunk { data: data@ },
            StreamEvent::Ended => EventModel::Ended,
            StreamEvent::Failed { message } => EventModel::Failed { message: message@ },
            StreamEvent::Cancelled => EventModel::Cancelled,
        }
    }
}

/// A terminal event ends a request's lifecycle; nothing follows it.
pub open spec fn is_terminal(e: EventModel) -> bool {
    e is Ended || e is Failed || e is Cancelled
}

/// The grammar of a per-request event trace: a terminal event stands only
/// last, `Started` stands only first, and `Chunk` or `Ended` stand only after
/// a leading `Started`.
pub open spec fn wf_history(h: Seq<EventModel>) -> bool {
    &&& forall|i: int| 0 <= i < h.len() && is_terminal(#[trigger] h[i]) ==> i == h.len() - 1
    &&& forall|i: int| 0 <= i < h.len() && #[trigger] h[i] is Started ==> i == 0
    &&& forall|i: int|
        0 <= i < h.len() && (#[trigger] h[i] is Chunk || h[i] is Ended) ==> 1 <= i
            && h[0] is Started
}

/// A trace that may still grow: well formed and not yet ended by a terminal
/// event.
pub open spec fn live_history(h: Seq<EventModel>) -> bool {
    wf_history(h) && (h.len() == 0 || !is_terminal(h.last()))
}

/// The bytes an event contributes to the reassembled body: a chunk's payload,
/// nothing for any other event.
pub open spec fn chunk_payload(e: EventModel) -> Seq<u8> {
    match e {
        EventModel::Chunk { data } => data,
        _ => Seq::empty(),
    }
}

/// The concatenation, in order, of all chunk payloads of a trace.
pub open spec fn chunks_of(h: Seq<EventModel>) -> Seq<u8>
    decreases h.len(),
{
    if h.len() == 0 {
        Seq::empty()
    } else {
        chunks_of(h.drop_last()) + chunk_payload(h.last())
    }
}

/// Appending an event extends the reassembled body by exactly that event's
/// payload.
pub proof fn lemma_chunks_push(h: Seq<EventModel>, e: EventModel)
    ensures
        chunks_of(h.push(e)) == chunks_of(h) + chunk_payload(e),
{
    assert(h.push(e).drop_last() =~= h);
    assert(h.push(e).last() == e);
}

/// A live trace stays well formed under the bridge's transitions: `Started`
/// may be appended only to an empty trace, `Chunk` and `Ended` only after a
/// leading `Started`, and a terminal event anywhere.
pub proof fn lemma_wf_push(h: Seq<EventModel>, e: EventModel)
    requires
        live_history(h),
        e is Started ==> h.len() == 0,
        e is Chunk || e is Ended ==> h.len() >= 1 && h[0] is Started,
    ensures
        wf_history(h.push(e)),
        !is_terminal(e) ==> live_history(h.push(e)),
        is_terminal(e) ==> is_terminal(h.push(e).last()),
{
    let g = h.push(e);
    assert(g.last() == e);
    assert forall|i: int| 0 <= i < g.len() && is_terminal(#[trigger] g[i]) implies i == g.len()
        - 1 by {
        if i < h.len() {
            assert(g[i] == h[i]);
            assert(!is_terminal(h[i]));
        }
    }
    assert forall|i: int| 0 <= i < g.len() && #[trigger] g[i] is Started implies i == 0 by {
        if i < h.len() {
            assert(g[i] == h[i]);
        }
    }
    assert forall|i: int|
        0 <= i < g.len() && (#[trigger] g[i] is Chunk || g[i] is Ended) implies 1 <= i
        && g[0] is Started by {
        if i < h.len() {
            assert(g[i] == h[i]);
            assert(h[0] is Started);
            assert(g[0] == h[0]);
        } else {
            assert(g[i] == e);
            assert(g[0] == h[0]);
        }
    }
}

/// The shape every well-formed trace takes: it is a prefix of
/// [`Started`, `Chunk`*, terminal] — or, when no `Started` was ever emitted,
/// a single terminal event. In particular nothing follows a terminal event,
/// and everything strictly between the first and last event is a `Chunk`.
pub proof fn lemma_trace_shape(h: Seq<EventModel>)
    requires
        wf_history(h),
    ensures
        forall|i: int| 0 <= i < h.len() - 1 ==> !is_terminal(#[trigger] h[i]),
        forall|i: int| 1 <= i < h.len() - 1 ==> #[trigger] h[i] is Chunk,
        h.len() > 1 ==> h[0] is Started,
        forall|i: int| 1 <= i < h.len() ==> !(#[trigger] h[i] is Started),
        h.len() == 1 && !(h[0] is Started) ==> is_terminal(h[0]),
{
    assert forall|i: int| 1 <= i < h.len() - 1 implies #[trigger] h[i] is Chunk by {
        assert(!is_terminal(h[i]));
        assert(!(h[i] is Started));
    }
    if h.len() > 1 {
        assert(!is_terminal(h[0]));
        assert(!(h[0] is Chunk) || h[0] is Started);
        if !(h[0] is Started) {
            assert(!(h[0] is Chunk) && !(h[0] is Ended) && !(h[0] is Failed) && !(h[0]
                is Cancelled));
            assert(false);
        }
    }
    if h.len() == 1 && !(h[0] is Started) {
        if !is_terminal(h[0]) {
            assert(!(h[0] is Chunk));
            assert(false);
        }
    }
}

} // verus!
