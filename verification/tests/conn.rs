use deno_http::conn::{
    op_http_request_next, start_http, DriverEvent, EnginePoll, NextRequest, NextRequestResponse,
    ServiceInner,
};
use deno_http::error::{Cause, EngineError, HttpError, IoErrorKind};
use deno_http::headers::Header;
use deno_http::request::RequestHead;
use deno_http::slot::ServiceSlot;
use deno_http::table::{RequestState, Resource, ResourceTable, Scheme};

fn header(name: &str, value: &str) -> Header {
    Header { name: name.as_bytes().to_vec(), value: value.as_bytes().to_vec() }
}

fn get(path: &str, headers: Vec<Header>) -> RequestHead {
    RequestHead {
        method: String::from("GET"),
        host: None,
        path_and_query: Some(String::from(path)),
        headers,
        body_size: Some(0),
    }
}

fn serve() -> (ResourceTable, u32, ServiceSlot<ServiceInner<u8>>) {
    let mut table = ResourceTable::new();
    let conn = start_http(&mut table, String::from("127.0.0.1:4500"), Scheme::Http).unwrap();
    (table, conn, ServiceSlot::new())
}

fn hangup() -> EngineError {
    EngineError { sources: vec![Cause::Io(IoErrorKind::NotConnected)] }
}

fn reset() -> EngineError {
    EngineError { sources: vec![Cause::Io(IoErrorKind::ConnectionReset)] }
}

fn expect_ready(answer: NextRequest<u8>) -> (NextRequestResponse, u8) {
    match answer {
        NextRequest::Ready(response, tx) => (response, tx),
        NextRequest::Pending => panic!("pending"),
        NextRequest::Closed => panic!("closed"),
        NextRequest::Failed(e) => panic!("failed: {}", e.message()),
    }
}

#[test]
fn start_http_registers_a_connection() {
    let mut table = ResourceTable::new();
    let rid = start_http(&mut table, String::from("10.0.0.1:443"), Scheme::Https);
    assert_eq!(rid, Ok(0));
    assert_eq!(
        table.get(0),
        Some(&Resource::Connection { scheme: Scheme::Https, addr: String::from("10.0.0.1:443") })
    );
    assert_eq!(start_http(&mut table, String::from("10.0.0.1:443"), Scheme::Https), Ok(1));
}

#[test]
fn simple_get_is_delivered_without_a_request_handle() {
    let (mut table, conn, mut slot) = serve();
    slot.call(ServiceInner { request: get("/hello", vec![header("host", "x")]), response_tx: 9 });
    let answer = op_http_request_next(&mut table, conn, &mut slot, DriverEvent::Polled(EnginePoll::Pending));
    let (response, tx) = expect_ready(answer);
    assert_eq!(tx, 9);
    assert_eq!(
        response,
        NextRequestResponse {
            request_rid: None,
            response_sender_rid: 1,
            method: String::from("GET"),
            headers: vec![header("host", "x")],
            url: String::from("http://x/hello"),
        }
    );
    assert_eq!(table.get(1), Some(&Resource::ResponseSender { conn_rid: conn }));
    assert!(table.has(conn));
    assert!(slot.poll_ready());
}

#[test]
fn request_with_a_body_gets_a_handle() {
    let (mut table, conn, mut slot) = serve();
    let mut request = get("/upload", vec![header("host", "x"), header("content-length", "5")]);
    request.method = String::from("POST");
    request.body_size = Some(5);
    slot.call(ServiceInner { request, response_tx: 0 });
    let (response, _) = expect_ready(op_http_request_next(
        &mut table,
        conn,
        &mut slot,
        DriverEvent::Polled(EnginePoll::Pending),
    ));
    assert_eq!(response.request_rid, Some(1));
    assert_eq!(response.response_sender_rid, 2);
    assert_eq!(response.method, "POST");
    assert_eq!(
        table.get(1),
        Some(&Resource::Request { conn_rid: conn, state: RequestState::Fresh, busy: false })
    );
    assert_eq!(table.get(2), Some(&Resource::ResponseSender { conn_rid: conn }));
}

#[test]
fn request_of_unknown_size_gets_a_handle() {
    let (mut table, conn, mut slot) = serve();
    let mut request = get("/", vec![header("transfer-encoding", "chunked")]);
    request.body_size = None;
    slot.call(ServiceInner { request, response_tx: 0 });
    let (response, _) = expect_ready(op_http_request_next(
        &mut table,
        conn,
        &mut slot,
        DriverEvent::Polled(EnginePoll::Pending),
    ));
    assert_eq!(response.request_rid, Some(1));
    assert_eq!(response.url, "http://127.0.0.1:4500/");
}

#[test]
fn upgrade_request_gets_a_handle_without_a_body() {
    let (mut table, conn, mut slot) = serve();
    let request = get(
        "/chat",
        vec![
            header("host", "x"),
            header("connection", "Upgrade"),
            header("upgrade", "websocket"),
            header("sec-websocket-key", "dGhlIHNhbXBsZSBub25jZQ=="),
        ],
    );
    slot.call(ServiceInner { request, response_tx: 0 });
    let (response, _) = expect_ready(op_http_request_next(
        &mut table,
        conn,
        &mut slot,
        DriverEvent::Polled(EnginePoll::Pending),
    ));
    assert_eq!(response.request_rid, Some(1));
    assert_eq!(response.response_sender_rid, 2);
    assert_eq!(response.headers.len(), 4);
}

#[test]
fn cookies_are_coalesced_for_the_host() {
    let (mut table, conn, mut slot) = serve();
    let request = get("/", vec![header("cookie", "a=1"), header("host", "x"), header("cookie", "b=2")]);
    slot.call(ServiceInner { request, response_tx: 0 });
    let (response, _) = expect_ready(op_http_request_next(
        &mut table,
        conn,
        &mut slot,
        DriverEvent::Polled(EnginePoll::Pending),
    ));
    assert_eq!(response.headers, vec![header("host", "x"), header("cookie", "a=1; b=2")]);
    let cookies = response.headers.iter().filter(|h| h.name.eq_ignore_ascii_case(b"cookie")).count();
    assert_eq!(cookies, 1);
}

#[test]
fn empty_slot_on_a_live_connection_is_pending() {
    let (mut table, conn, mut slot) = serve();
    let answer = op_http_request_next(&mut table, conn, &mut slot, DriverEvent::Polled(EnginePoll::Pending));
    assert!(matches!(answer, NextRequest::Pending));
    assert!(table.has(conn));
}

#[test]
fn finished_engine_closes_the_stream_of_requests() {
    let (mut table, conn, mut slot) = serve();
    let answer = op_http_request_next(&mut table, conn, &mut slot, DriverEvent::Polled(EnginePoll::Finished));
    assert!(matches!(answer, NextRequest::Closed));
    assert!(!table.has(conn));
}

#[test]
fn peer_hangup_is_the_end_and_no_error() {
    let (mut table, conn, mut slot) = serve();
    let answer =
        op_http_request_next(&mut table, conn, &mut slot, DriverEvent::Polled(EnginePoll::Failed(hangup())));
    assert!(matches!(answer, NextRequest::Closed));
    assert!(!table.has(conn));
    let again = op_http_request_next(&mut table, conn, &mut slot, DriverEvent::Polled(EnginePoll::Pending));
    assert!(matches!(again, NextRequest::Failed(HttpError::BadResource)));
}

#[test]
fn hangup_deeper_in_the_chain_is_benign_too() {
    let (mut table, conn, mut slot) = serve();
    let error = EngineError { sources: vec![Cause::Other, Cause::Io(IoErrorKind::NotConnected)] };
    let answer =
        op_http_request_next(&mut table, conn, &mut slot, DriverEvent::Polled(EnginePoll::Failed(error)));
    assert!(matches!(answer, NextRequest::Closed));
}

#[test]
fn fatal_engine_error_surfaces_and_leaves_the_slot() {
    let (mut table, conn, mut slot) = serve();
    slot.call(ServiceInner { request: get("/", vec![]), response_tx: 0 });
    let answer =
        op_http_request_next(&mut table, conn, &mut slot, DriverEvent::Polled(EnginePoll::Failed(reset())));
    assert!(matches!(answer, NextRequest::Failed(HttpError::Transport)));
    assert!(!table.has(conn));
    assert!(!slot.poll_ready());
    assert!(!table.has(1));
}

#[test]
fn engine_error_without_a_source_is_fatal() {
    let (mut table, conn, mut slot) = serve();
    let error = EngineError { sources: vec![] };
    let answer =
        op_http_request_next(&mut table, conn, &mut slot, DriverEvent::Polled(EnginePoll::Failed(error)));
    assert!(matches!(answer, NextRequest::Failed(HttpError::Transport)));
}

#[test]
fn request_left_by_a_finished_engine_is_still_delivered() {
    let (mut table, conn, mut slot) = serve();
    slot.call(ServiceInner { request: get("/last", vec![header("host", "x")]), response_tx: 3 });
    let (response, tx) = expect_ready(op_http_request_next(
        &mut table,
        conn,
        &mut slot,
        DriverEvent::Polled(EnginePoll::Finished),
    ));
    assert_eq!(tx, 3);
    assert_eq!(response.url, "http://x/last");
    assert!(!table.has(conn));
    assert!(table.has(response.response_sender_rid));
    let answer = op_http_request_next(&mut table, conn, &mut slot, DriverEvent::Polled(EnginePoll::Pending));
    assert!(matches!(answer, NextRequest::Failed(HttpError::BadResource)));
}

#[test]
fn cancellation_changes_nothing() {
    let (mut table, conn, mut slot) = serve();
    slot.call(ServiceInner { request: get("/", vec![]), response_tx: 0 });
    let answer = op_http_request_next(&mut table, conn, &mut slot, DriverEvent::Cancelled);
    assert!(matches!(answer, NextRequest::Failed(HttpError::Cancelled)));
    assert!(table.has(conn));
    assert!(!table.has(1));
    assert!(!slot.poll_ready());
}

#[test]
fn next_request_needs_a_connection() {
    let (mut table, conn, mut slot) = serve();
    let sender = table.add(Resource::ResponseSender { conn_rid: conn });
    let answer = op_http_request_next(&mut table, sender, &mut slot, DriverEvent::Polled(EnginePoll::Finished));
    assert!(matches!(answer, NextRequest::Failed(HttpError::BadResource)));
    assert!(table.has(sender));
    let answer = op_http_request_next(&mut table, 99, &mut slot, DriverEvent::Polled(EnginePoll::Pending));
    assert!(matches!(answer, NextRequest::Failed(HttpError::BadResource)));
}

#[test]
fn host_header_that_is_no_text_fails_the_request() {
    let (mut table, conn, mut slot) = serve();
    let request = get("/", vec![Header { name: b"host".to_vec(), value: vec![0xff] }]);
    slot.call(ServiceInner { request, response_tx: 0 });
    let answer = op_http_request_next(&mut table, conn, &mut slot, DriverEvent::Polled(EnginePoll::Pending));
    assert!(matches!(answer, NextRequest::Failed(HttpError::HostNotText)));
    assert!(slot.poll_ready());
    assert!(!table.has(1));
}

#[test]
fn https_connection_gives_https_urls() {
    let mut table = ResourceTable::new();
    let conn = start_http(&mut table, String::from("[::1]:8443"), Scheme::Https).unwrap();
    let mut slot: ServiceSlot<ServiceInner<u8>> = ServiceSlot::new();
    let mut request = get("/", vec![]);
    request.path_and_query = None;
    slot.call(ServiceInner { request, response_tx: 0 });
    let (response, _) = expect_ready(op_http_request_next(
        &mut table,
        conn,
        &mut slot,
        DriverEvent::Polled(EnginePoll::Pending),
    ));
    assert_eq!(response.url, "https://[::1]:8443/");
}

#[test]
fn pipelined_requests_are_delivered_in_wire_order() {
    let (mut table, conn, mut slot) = serve();
    let mut urls = Vec::new();
    for path in ["/1", "/2", "/3"] {
        assert!(slot.poll_ready());
        slot.call(ServiceInner { request: get(path, vec![header("host", "x")]), response_tx: 0 });
        let (response, _) = expect_ready(op_http_request_next(
            &mut table,
            conn,
            &mut slot,
            DriverEvent::Polled(EnginePoll::Pending),
        ));
        urls.push(response.url);
    }
    assert_eq!(urls, vec!["http://x/1", "http://x/2", "http://x/3"]);
}

#[test]
fn poll_reads_the_engine() {
    assert_eq!(EnginePoll::poll(None), EnginePoll::Pending);
    assert_eq!(EnginePoll::poll(Some(Ok(()))), EnginePoll::Finished);
    assert_eq!(EnginePoll::poll(Some(Err(reset()))), EnginePoll::Failed(reset()));
}
