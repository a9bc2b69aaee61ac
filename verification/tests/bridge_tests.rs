use fetch_bridge::bridge::{Bridge, TransportEvent};
use fetch_bridge::events::StreamEvent;
use fetch_bridge::request::FetchRequest;

fn request(method: &str, url: &str, id: &str) -> FetchRequest {
    FetchRequest {
        method: method.to_string(),
        url: url.to_string(),
        headers: Vec::new(),
        body: None,
        id: id.to_string(),
    }
}

#[test]
fn successful_stream_in_two_segments() {
    let mut b = Bridge::new();
    let ev = b.begin(&request("GET", "https://example.test/data", "r1"));
    assert!(ev.is_none());

    let headers = vec![("content-type".to_string(), "text/plain".to_string())];
    let ev = b.on_transport(
        "r1",
        TransportEvent::Opened { status: 200, headers: headers.clone() },
    );
    assert_eq!(ev, Some(StreamEvent::Started { status: 200, headers }));

    let ev = b.on_transport("r1", TransportEvent::Data { bytes: b"hello ".to_vec() });
    assert_eq!(ev, Some(StreamEvent::Chunk { data: b"hello ".to_vec() }));

    let ev = b.on_transport("r1", TransportEvent::Data { bytes: b"world".to_vec() });
    assert_eq!(ev, Some(StreamEvent::Chunk { data: b"world".to_vec() }));

    let ev = b.on_transport("r1", TransportEvent::Eof);
    assert_eq!(ev, Some(StreamEvent::Ended));
    assert!(!b.is_active("r1"));
}

#[test]
fn chunks_concatenate_to_the_delivered_body() {
    let mut b = Bridge::new();
    assert!(b.begin(&request("GET", "https://example.test/big", "r1")).is_none());
    b.on_transport("r1", TransportEvent::Opened { status: 200, headers: Vec::new() });

    let body: Vec<u8> = (0u8..=255).collect();
    let mut reassembled: Vec<u8> = Vec::new();
    for segment in body.chunks(37) {
        let ev = b.on_transport("r1", TransportEvent::Data { bytes: segment.to_vec() });
        match ev {
            Some(StreamEvent::Chunk { data }) => reassembled.extend_from_slice(&data),
            other => panic!("expected a chunk, got {:?}", other),
        }
    }
    assert_eq!(b.on_transport("r1", TransportEvent::Eof), Some(StreamEvent::Ended));
    assert_eq!(reassembled, body);
}

#[test]
fn malformed_url_fails_with_a_sole_event() {
    let mut b = Bridge::new();
    let ev = b.begin(&request("GET", "no-scheme-here/path", "r1"));
    match ev {
        Some(StreamEvent::Failed { message }) => assert_eq!(message, "malformed url"),
        other => panic!("expected Failed, got {:?}", other),
    }
    // the request never entered the registry, so nothing further is emitted
    assert!(!b.is_active("r1"));
    assert!(b.on_transport("r1", TransportEvent::Eof).is_none());
}

#[test]
fn unsupported_method_fails() {
    let mut b = Bridge::new();
    let ev = b.begin(&request("FETCH", "https://example.test/", "r1"));
    match ev {
        Some(StreamEvent::Failed { message }) => assert_eq!(message, "unsupported method"),
        other => panic!("expected Failed, got {:?}", other),
    }
    // verbs are recognized in their upper-case form only
    let ev = b.begin(&request("get", "https://example.test/", "r2"));
    match ev {
        Some(StreamEvent::Failed { message }) => assert_eq!(message, "unsupported method"),
        other => panic!("expected Failed, got {:?}", other),
    }
}

#[test]
fn transport_error_mid_stream_fails() {
    let mut b = Bridge::new();
    assert!(b.begin(&request("GET", "https://example.test/", "r1")).is_none());
    b.on_transport("r1", TransportEvent::Opened { status: 200, headers: Vec::new() });
    b.on_transport("r1", TransportEvent::Data { bytes: b"partial".to_vec() });
    let ev = b.on_transport(
        "r1",
        TransportEvent::TransportError { message: "connection reset".to_string() },
    );
    assert_eq!(ev, Some(StreamEvent::Failed { message: "connection reset".to_string() }));
    assert!(!b.is_active("r1"));
    // nothing follows the terminal event
    assert!(b.on_transport("r1", TransportEvent::Eof).is_none());
}

#[test]
fn transport_error_while_connecting_fails() {
    let mut b = Bridge::new();
    assert!(b.begin(&request("GET", "https://example.test/", "r1")).is_none());
    let ev = b.on_transport(
        "r1",
        TransportEvent::TransportError { message: "timed out".to_string() },
    );
    assert_eq!(ev, Some(StreamEvent::Failed { message: "timed out".to_string() }));
    assert!(!b.is_active("r1"));
}

#[test]
fn cancel_removes_the_entry_and_silences_the_request() {
    let mut b = Bridge::new();
    assert!(b.begin(&request("GET", "https://example.test/", "r1")).is_none());
    b.on_transport("r1", TransportEvent::Opened { status: 200, headers: Vec::new() });
    assert!(b.is_active("r1"));

    let ev = b.cancel("r1");
    assert_eq!(ev, Some(StreamEvent::Cancelled));
    assert!(!b.is_active("r1"));

    // no further events are delivered for that id
    assert!(b.on_transport("r1", TransportEvent::Data { bytes: b"late".to_vec() }).is_none());
    assert!(b.on_transport("r1", TransportEvent::Eof).is_none());
    assert!(b.cancel("r1").is_none());
}

#[test]
fn cancel_of_an_unknown_id_does_nothing() {
    let mut b = Bridge::new();
    assert!(b.cancel("ghost").is_none());
}

#[test]
fn concurrent_requests_interleave_without_mixing() {
    let mut b = Bridge::new();
    assert!(b.begin(&request("GET", "https://example.test/a", "a")).is_none());
    assert!(b.begin(&request("POST", "https://example.test/b", "b")).is_none());

    // interleaved transport notifications
    let e1 = b.on_transport("a", TransportEvent::Opened { status: 200, headers: Vec::new() });
    let e2 = b.on_transport("b", TransportEvent::Opened { status: 201, headers: Vec::new() });
    let e3 = b.on_transport("b", TransportEvent::Data { bytes: b"B1".to_vec() });
    let e4 = b.on_transport("a", TransportEvent::Data { bytes: b"A1".to_vec() });
    let e5 = b.on_transport("b", TransportEvent::Eof);
    let e6 = b.on_transport("a", TransportEvent::Data { bytes: b"A2".to_vec() });
    let e7 = b.on_transport("a", TransportEvent::Eof);

    assert_eq!(e1, Some(StreamEvent::Started { status: 200, headers: Vec::new() }));
    assert_eq!(e2, Some(StreamEvent::Started { status: 201, headers: Vec::new() }));
    assert_eq!(e3, Some(StreamEvent::Chunk { data: b"B1".to_vec() }));
    assert_eq!(e4, Some(StreamEvent::Chunk { data: b"A1".to_vec() }));
    assert_eq!(e5, Some(StreamEvent::Ended));
    assert_eq!(e6, Some(StreamEvent::Chunk { data: b"A2".to_vec() }));
    assert_eq!(e7, Some(StreamEvent::Ended));
    assert!(!b.is_active("a"));
    assert!(!b.is_active("b"));
}

#[test]
fn out_of_order_transport_events_terminate_the_request() {
    // data before the connection opened
    let mut b = Bridge::new();
    assert!(b.begin(&request("GET", "https://example.test/", "r1")).is_none());
    let ev = b.on_transport("r1", TransportEvent::Data { bytes: b"x".to_vec() });
    assert_eq!(
        ev,
        Some(StreamEvent::Failed { message: "transport event out of order".to_string() })
    );
    assert!(!b.is_active("r1"));

    // a second Opened while already streaming
    let mut b = Bridge::new();
    assert!(b.begin(&request("GET", "https://example.test/", "r2")).is_none());
    b.on_transport("r2", TransportEvent::Opened { status: 200, headers: Vec::new() });
    let ev = b.on_transport("r2", TransportEvent::Opened { status: 200, headers: Vec::new() });
    assert_eq!(
        ev,
        Some(StreamEvent::Failed { message: "transport event out of order".to_string() })
    );
    assert!(!b.is_active("r2"));
}

#[test]
fn transport_events_for_an_unknown_id_are_ignored() {
    let mut b = Bridge::new();
    assert!(b.begin(&request("GET", "https://example.test/", "r1")).is_none());
    assert!(b.on_transport("other", TransportEvent::Eof).is_none());
    assert!(b.is_active("r1"));
}
