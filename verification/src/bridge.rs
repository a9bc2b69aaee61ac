//! The streaming fetch bridge: it validates a request, keys it in an
//! in-flight registry, turns transport notifications into front-end events,
//! and removes the request when a terminal event is emitted or the caller
//! cancels. Every per-request event trace obeys the grammar of
//! [`crate::events::wf_history`], and the chunk payloads of a trace
//! concatenate, byte for byte, to exactly the bytes the transport delivered.

use vstd::prelude::*;
use vstd::hash_map::StringHashMap;
use crate::events::{
    EventModel, StreamEvent, chunk_payload, chunks_of, headers_view, is_terminal, lemma_chunks_push,
    lemma_wf_push, live_history, wf_history,
};
use crate::request::{FetchRequest, valid_method, valid_request, valid_url, is_valid_method,
    is_valid_url};

verus! {

/// What the transport layer reports to the bridge about one in-flight
/// request: the connection opened with a status and headers, a fragment of
/// body bytes arrived, the body ended, or the transport failed.
#[derive(Debug, Clone)]
pub enum TransportEvent {
    Opened { status: u16, headers: Vec<(String, String)> },
    Data { bytes: Vec<u8> },
    Eof,
    TransportError { message: String },
}

/// Mathematical model of a transport notification.
pub enum TransportModel {
    Opened { status: u16, headers: Seq<(Seq<char>, Seq<char>)> },
    Data { bytes: Seq<u8> },
    Eof,
    TransportError { message: Seq<char> },
}

impl View for TransportEvent {
    type V = TransportModel;

    open spec fn view(&self) -> TransportModel {
        match self {
            TransportEvent::Opened { status, headers } => TransportModel::Opened {
                status: *status,
                headers: headers_view(headers@),
            },
            TransportEvent::Data { bytes } => TransportModel::Data { bytes: bytes@ },
            TransportEvent::Eof => TransportModel::Eof,
            TransportEvent::TransportError { message } => TransportModel::TransportError {
                message: message@,
            },
        }
    }
}

/// Where an in-flight request stands: waiting for the connection, or
/// relaying body bytes.
#[derive(Clone, Copy, Debug, PartialEq, Eq, Structural)]
pub enum Phase {
    Connecting,
    Streaming,
}

/// The message of the `Failed` event emitted when the transport reports
/// something the request's phase cannot accept.
pub open spec fn protocol_violation_msg() -> Seq<char> {
    "transport event out of order"@
}

/// The event the bridge emits when transport notification `t` arrives for a
/// request in phase `ph`.
pub open spec fn step_emits(ph: Phase, t: TransportModel) -> EventModel {
    match t {
        TransportModel::Opened { status, headers } => if ph is Connecting {
            EventModel::Started { status, headers }
        } else {
            EventModel::Failed { message: protocol_violation_msg() }
        },
        TransportModel::Data { bytes } => if ph is Streaming {
            EventModel::Chunk { data: bytes }
        } else {
            EventModel::Failed { message: protocol_violation_msg() }
        },
        TransportModel::Eof => if ph is Streaming {
            EventModel::Ended
        } else {
            EventModel::Failed { message: protocol_violation_msg() }
        },
        TransportModel::TransportError { message } => EventModel::Failed { message },
    }
}

/// The phase the request moves to; `None` when the emitted event is terminal
/// and the request leaves the registry.
pub open spec fn step_next(ph: Phase, t: TransportModel) -> Option<Phase> {
    if ph is Connecting && t is Opened {
        Some(Phase::Streaming)
    } else if ph is Streaming && t is Data {
        Some(Phase::Streaming)
    } else {
        None
    }
}

/// The streaming fetch bridge: the in-flight registry, and (as ghost state)
/// the full event trace and the bytes received so far of every request it has
/// ever seen.
pub struct Bridge {
    registry: StringHashMap<Phase>,
    traces: Ghost<Map<Seq<char>, Seq<EventModel>>>,
    received: Ghost<Map<Seq<char>, Seq<u8>>>,
}

impl Bridge {
    /// Whether the bridge has ever handled a request with this id.
    pub closed spec fn known(self, id: Seq<char>) -> bool {
        self.traces@.contains_key(id)
    }

    /// The events emitted so far for this id, in emission order.
    pub closed spec fn trace_of(self, id: Seq<char>) -> Seq<EventModel> {
        self.traces@[id]
    }

    /// Whether a request with this id is in flight.
    pub closed spec fn active(self, id: Seq<char>) -> bool {
        self.registry@.contains_key(id)
    }

    /// The phase of an in-flight request.
    pub closed spec fn phase_of(self, id: Seq<char>) -> Phase {
        self.registry@[id]
    }

    /// The body bytes the transport has delivered so far for this id.
    pub closed spec fn body_of(self, id: Seq<char>) -> Seq<u8> {
        self.received@[id]
    }

    /// The bridge's invariant: in-flight requests are known; every known
    /// trace is well formed and reassembles exactly the bytes received; a
    /// connecting request has an empty trace, a streaming one a live trace
    /// opened by `Started`; and a known request that is no longer in flight
    /// ended with a terminal event.
    pub closed spec fn wf(self) -> bool {
        &&& forall|id: Seq<char>| #[trigger]
            self.registry@.contains_key(id) ==> self.traces@.contains_key(id)
        &&& forall|id: Seq<char>| #[trigger]
            self.traces@.contains_key(id) ==> self.received@.contains_key(id)
        &&& forall|id: Seq<char>| #[trigger]
            self.traces@.contains_key(id) ==> wf_history(self.traces@[id])
        &&& forall|id: Seq<char>| #[trigger]
            self.traces@.contains_key(id) ==> chunks_of(self.traces@[id]) == self.received@[id]
        &&& forall|id: Seq<char>| #[trigger]
            self.registry@.contains_key(id) ==> match self.registry@[id] {
                Phase::Connecting => self.traces@[id].len() == 0,
                Phase::Streaming => self.traces@[id].len() >= 1 && self.traces@[id][0] is Started
                    && !is_terminal(self.traces@[id].last()),
            }
        &&& forall|id: Seq<char>|
            self.traces@.contains_key(id) && !(#[trigger] self.registry@.contains_key(id))
                ==> self.traces@[id].len() >= 1 && is_terminal(self.traces@[id].last())
    }

    /// A fresh bridge: nothing known, nothing in flight.
    pub fn new() -> (b: Bridge)
        ensures
            b.wf(),
            forall|id: Seq<char>| !b.known(id),
            forall|id: Seq<char>| !b.active(id),
    {
        Bridge {
            registry: StringHashMap::new(),
            traces: Ghost(Map::empty()),
            received: Ghost(Map::empty()),
        }
    }

    /// Whether a request with this id is in flight.
    pub fn is_active(&self, id: &str) -> (r: bool)
        ensures
            r == self.active(id@),
    {
        self.registry.contains_key(id)
    }
}

/// Both bridges look the same to every observer.
pub open spec fn same_state(a: Bridge, b: Bridge) -> bool {
    &&& forall|id: Seq<char>| #[trigger] a.known(id) == b.known(id)
    &&& forall|id: Seq<char>| #[trigger] a.active(id) == b.active(id)
    &&& forall|id: Seq<char>|
        a.known(id) ==> #[trigger] a.trace_of(id) == b.trace_of(id) && a.body_of(id) == b.body_of(
            id,
        )
    &&& forall|id: Seq<char>| a.active(id) ==> #[trigger] a.phase_of(id) == b.phase_of(id)
}

/// Both bridges look the same for every request but `x`: an operation on one
/// request never touches another request's trace or registry entry.
pub open spec fn frame_except(a: Bridge, b: Bridge, x: Seq<char>) -> bool {
    &&& forall|id: Seq<char>| id != x ==> #[trigger] a.known(id) == b.known(id)
    &&& forall|id: Seq<char>| id != x ==> #[trigger] a.active(id) == b.active(id)
    &&& forall|id: Seq<char>|
        id != x && a.known(id) ==> #[trigger] a.trace_of(id) == b.trace_of(id) && a.body_of(id)
            == b.body_of(id)
    &&& forall|id: Seq<char>|
        id != x && a.active(id) ==> #[trigger] a.phase_of(id) == b.phase_of(id)
}

impl Bridge {
    /// Emits terminal event `e` for in-flight request `id` and releases the
    /// request's registry entry.
    fn finish(&mut self, id: &str, e: StreamEvent) -> (r: StreamEvent)
        requires
            old(self).wf(),
            old(self).active(id@),
            is_terminal(e@),
            e@ is Ended ==> old(self).phase_of(id@) is Streaming,
        ensures
            final(self).wf(),
            frame_except(*old(self), *final(self), id@),
            r == e,
            final(self).known(id@),
            !final(self).active(id@),
            final(self).trace_of(id@) == old(self).trace_of(id@).push(e@),
            final(self).body_of(id@) == old(self).body_of(id@),
    {
        proof {
            assert(old(self).traces@.contains_key(id@));
            let h = old(self).traces@[id@];
            assert(live_history(h)) by {
                match old(self).registry@[id@] {
                    Phase::Connecting => assert(h.len() == 0),
                    Phase::Streaming => assert(!is_terminal(h.last())),
                }
            }
            lemma_wf_push(old(self).traces@[id@], e@);
            lemma_chunks_push(old(self).traces@[id@], e@);
            assert(chunks_of(old(self).traces@[id@]).add(chunk_payload(e@)) =~= chunks_of(
                old(self).traces@[id@],
            ));
        }
        self.traces = Ghost(self.traces@.insert(id@, self.traces@[id@].push(e@)));
        self.registry.remove(id);
        e
    }

    /// Accepts a new request, or rejects it with a sole `Failed` event.
    ///
    /// A malformed request — unrecognized verb, or a URL that is not
    /// absolute — is answered by `Some(Failed)` with a message naming the
    /// fault, and that `Failed` is the first and only event of its trace. A
    /// valid request is keyed into the registry in phase `Connecting`, with
    /// no event emitted yet.
    pub fn begin(&mut self, req: &FetchRequest) -> (out: Option<StreamEvent>)
        requires
            old(self).wf(),
            !old(self).active(req.id@),
        ensures
            final(self).wf(),
            frame_except(*old(self), *final(self), req.id@),
            final(self).known(req.id@),
            final(self).body_of(req.id@) =~= Seq::<u8>::empty(),
            !valid_request(*req) ==> (out matches Some(e) && e@ is Failed && !final(self).active(
                req.id@,
            ) && final(self).trace_of(req.id@) =~= seq![e@]),
            !valid_method(req.method@) ==> (out matches Some(e) && e@->message
                == "unsupported method"@),
            valid_method(req.method@) && !valid_url(req.url@) ==> (out matches Some(e)
                && e@->message == "malformed url"@),
            valid_request(*req) ==> (out is None && final(self).active(req.id@) && final(self).phase_of(req.id@) is Connecting && final(self).trace_of(req.id@)
                =~= Seq::<EventModel>::empty()),
    {
        let ok_method = is_valid_method(&req.method);
        let ok_url = is_valid_url(req.url.as_str());
        if ok_method && ok_url {
            self.registry.insert(req.id.clone(), Phase::Connecting);
            self.traces = Ghost(self.traces@.insert(req.id@, Seq::empty()));
            self.received = Ghost(self.received@.insert(req.id@, Seq::empty()));
            None
        } else {
            let message = if !ok_method {
                "unsupported method".to_owned()
            } else {
                "malformed url".to_owned()
            };
            let e = StreamEvent::Failed { message };
            proof {
                let t = seq![e@];
                assert(t =~= Seq::<EventModel>::empty().push(e@));
                lemma_chunks_push(Seq::empty(), e@);
                assert(chunks_of(Seq::<EventModel>::empty()) =~= Seq::<u8>::empty());
                assert(chunks_of(t) =~= Seq::<u8>::empty());
                assert(wf_history(t));
            }
            self.traces = Ghost(self.traces@.insert(req.id@, seq![e@]));
            self.received = Ghost(self.received@.insert(req.id@, Seq::empty()));
            Some(e)
        }
    }

    /// Relays one transport notification for request `id`.
    ///
    /// For an id that is not in flight — unknown, finished, or cancelled —
    /// nothing is emitted and nothing changes. For an in-flight request the
    /// emitted event is exactly `step_emits` of its phase and the
    /// notification, the trace grows by that event, the received bytes grow
    /// by its payload, and the request stays in flight exactly when
    /// `step_next` continues it.
    pub fn on_transport(&mut self, id: &str, t: TransportEvent) -> (out: Option<StreamEvent>)
        requires
            old(self).wf(),
        ensures
            final(self).wf(),
            frame_except(*old(self), *final(self), id@),
            !old(self).active(id@) ==> out is None && same_state(*old(self), *final(self)),
            old(self).active(id@) ==> {
                let em = step_emits(old(self).phase_of(id@), t@);
                &&& out matches Some(e) && e@ == em
                &&& final(self).known(id@)
                &&& final(self).trace_of(id@) == old(self).trace_of(id@).push(em)
                &&& final(self).body_of(id@) == old(self).body_of(id@) + chunk_payload(em)
                &&& match step_next(old(self).phase_of(id@), t@) {
                    Some(p) => final(self).active(id@) && final(self).phase_of(id@) == p,
                    None => !final(self).active(id@),
                }
            },
    {
        let ph = match self.registry.get(id) {
            None => {
                return None;
            },
            Some(p) => *p,
        };
        proof {
            if !(step_emits(ph, t@) is Chunk) {
                assert(chunk_payload(step_emits(ph, t@)) =~= Seq::<u8>::empty());
                assert(old(self).body_of(id@) + chunk_payload(step_emits(ph, t@)) =~= old(
                    self,
                ).body_of(id@));
            }
        }
        match t {
            TransportEvent::Opened { status, headers } => {
                if ph == Phase::Connecting {
                    let e = StreamEvent::Started { status, headers };
                    proof {
                        lemma_wf_push(self.traces@[id@], e@);
                        lemma_chunks_push(self.traces@[id@], e@);
                        assert(chunks_of(self.traces@[id@]).add(chunk_payload(e@))
                            =~= chunks_of(self.traces@[id@]));
                    }
                    self.traces = Ghost(self.traces@.insert(id@, self.traces@[id@].push(e@)));
                    self.registry.insert(id.to_owned(), Phase::Streaming);
                    Some(e)
                } else {
                    let e = StreamEvent::Failed {
                        message: "transport event out of order".to_owned(),
                    };
                    Some(self.finish(id, e))
                }
            },
            TransportEvent::Data { bytes } => {
                if ph == Phase::Streaming {
                    proof {
                        lemma_wf_push(self.traces@[id@], EventModel::Chunk { data: bytes@ });
                        lemma_chunks_push(self.traces@[id@], EventModel::Chunk { data: bytes@ });
                    }
                    self.traces = Ghost(
                        self.traces@.insert(
                            id@,
                            self.traces@[id@].push(EventModel::Chunk { data: bytes@ }),
                        ),
                    );
                    self.received = Ghost(
                        self.received@.insert(id@, self.received@[id@] + bytes@),
                    );
                    let e = StreamEvent::Chunk { data: bytes };
                    Some(e)
                } else {
                    let e = StreamEvent::Failed {
                        message: "transport event out of order".to_owned(),
                    };
                    Some(self.finish(id, e))
                }
            },
            TransportEvent::Eof => {
                if ph == Phase::Streaming {
                    Some(self.finish(id, StreamEvent::Ended))
                } else {
                    let e = StreamEvent::Failed {
                        message: "transport event out of order".to_owned(),
                    };
                    Some(self.finish(id, e))
                }
            },
            TransportEvent::TransportError { message } => {
                Some(self.finish(id, StreamEvent::Failed { message }))
            },
        }
    }

    /// Cancels request `id` at the caller's demand.
    ///
    /// An in-flight request gets `Cancelled` as its terminal event and its
    /// registry entry is released, so nothing further is ever emitted for it;
    /// for any other id nothing happens.
    pub fn cancel(&mut self, id: &str) -> (out: Option<StreamEvent>)
        requires
            old(self).wf(),
        ensures
            final(self).wf(),
            frame_except(*old(self), *final(self), id@),
            !final(self).active(id@),
            !old(self).active(id@) ==> out is None && same_state(*old(self), *final(self)),
            old(self).active(id@) ==> (out matches Some(e) && e@ is Cancelled && final(self).trace_of(id@) == old(self).trace_of(id@).push(EventModel::Cancelled) && final(self).body_of(id@) == old(self).body_of(id@)),
    {
        if self.registry.contains_key(id) {
            Some(self.finish(id, StreamEvent::Cancelled))
        } else {
            None
        }
    }
}

/// Every request the bridge has seen — in flight or finished — has a
/// well-formed event trace: `Started` at most once and only first, `Chunk`
/// and `Ended` only after it, and a terminal event only last, whatever other
/// requests were interleaved with it.
pub proof fn lemma_per_request_order(b: &Bridge, id: Seq<char>)
    requires
        b.wf(),
        b.known(id),
    ensures
        wf_history(b.trace_of(id)),
{
}

/// The chunk payloads of a request's trace concatenate, byte for byte, to
/// exactly the bytes the transport has delivered for it.
pub proof fn lemma_chunks_reassemble_body(b: &Bridge, id: Seq<char>)
    requires
        b.wf(),
        b.known(id),
    ensures
        chunks_of(b.trace_of(id)) == b.body_of(id),
{
}

/// A known request is out of the registry exactly when its trace has ended
/// with a terminal event.
pub proof fn lemma_inactive_iff_terminated(b: &Bridge, id: Seq<char>)
    requires
        b.wf(),
        b.known(id),
    ensures
        !b.active(id) <==> (b.trace_of(id).len() >= 1 && is_terminal(b.trace_of(id).last())),
{
}

} // verus!
