use deno_http::body::{op_http_request_read, op_http_request_read_poll, BodyEvent, BodyReader};
use deno_http::conn::{
    op_http_request_next, start_http, DriverEvent, EnginePoll, NextRequest, NextRequestResponse,
    ServiceInner,
};
use deno_http::error::{Cause, EngineError, HttpError, IoErrorKind};
use deno_http::headers::Header;
use deno_http::outcome::Step;
use deno_http::request::RequestHead;
use deno_http::response::{
    op_http_response, op_http_response_close, op_http_response_close_flush, op_http_response_sent,
    op_http_response_write, op_http_response_write_poll, SendOutcome, SinkPoll,
};
use deno_http::slot::ServiceSlot;
use deno_http::table::{ResourceTable, Scheme};
use deno_http::upgrade::op_http_upgrade_websocket;

fn header(name: &str, value: &str) -> Header {
    Header { name: name.as_bytes().to_vec(), value: value.as_bytes().to_vec() }
}

fn request(method: &str, path: &str, headers: Vec<Header>, body_size: Option<u64>) -> RequestHead {
    RequestHead {
        method: String::from(method),
        host: None,
        path_and_query: Some(String::from(path)),
        headers,
        body_size,
    }
}

fn next(
    table: &mut ResourceTable,
    conn: u32,
    slot: &mut ServiceSlot<ServiceInner<&'static str>>,
    poll: EnginePoll,
) -> Option<NextRequestResponse> {
    match op_http_request_next(table, conn, slot, DriverEvent::Polled(poll)) {
        NextRequest::Ready(response, _) => Some(response),
        NextRequest::Closed => None,
        NextRequest::Pending => panic!("pending"),
        NextRequest::Failed(e) => panic!("failed: {}", e.message()),
    }
}

#[test]
fn simple_get_with_inline_response() {
    let mut table = ResourceTable::new();
    let conn = start_http(&mut table, String::from("127.0.0.1:80"), Scheme::Http).unwrap();
    let mut slot = ServiceSlot::new();

    // GET /hello HTTP/1.1, Host: x
    assert!(slot.poll_ready());
    slot.call(ServiceInner {
        request: request("GET", "/hello", vec![header("host", "x")], Some(0)),
        response_tx: "tx",
    });
    assert!(!slot.poll_ready());

    let got = next(&mut table, conn, &mut slot, EnginePoll::Pending).unwrap();
    assert_eq!(got.request_rid, None);
    assert_eq!(got.method, "GET");
    assert_eq!(got.headers, vec![header("host", "x")]);
    assert_eq!(got.url, "http://x/hello");
    let sender = got.response_sender_rid;

    let plan = op_http_response(
        &mut table,
        sender,
        200,
        vec![header("content-type", "text/plain")],
        Some(b"hi".to_vec()),
    )
    .unwrap();
    assert_eq!(plan.body_rid, None);
    assert_eq!(plan.response.status, 200);
    assert_eq!(plan.response.body, Some(b"hi".to_vec()));

    let done = op_http_response_sent(&mut table, plan.conn_rid, plan.body_rid, SendOutcome::Sent(EnginePoll::Pending));
    assert_eq!(done.value, Ok(None));
    assert!(done.wake);
    assert!(!done.closed);

    // The connection stays open for the next request.
    assert!(table.has(conn));
    assert!(slot.poll_ready());
    slot.call(ServiceInner {
        request: request("GET", "/again", vec![header("host", "x")], Some(0)),
        response_tx: "tx",
    });
    let got = next(&mut table, conn, &mut slot, EnginePoll::Pending).unwrap();
    assert_eq!(got.url, "http://x/again");
}

#[test]
fn post_with_streamed_body() {
    let mut table = ResourceTable::new();
    let conn = start_http(&mut table, String::from("127.0.0.1:80"), Scheme::Http).unwrap();
    let mut slot = ServiceSlot::new();
    slot.call(ServiceInner {
        request: request(
            "POST",
            "/echo",
            vec![header("host", "x"), header("content-length", "5")],
            Some(5),
        ),
        response_tx: "tx",
    });
    let got = next(&mut table, conn, &mut slot, EnginePoll::Pending).unwrap();
    let request_rid = got.request_rid.unwrap();
    let sender = got.response_sender_rid;
    assert_eq!(got.method, "POST");

    // read-request with a buffer of 8 bytes: 5, then 0.
    let mut reader = BodyReader::new();
    let mut buf = vec![0u8; 8];
    assert_eq!(op_http_request_read(&mut table, request_rid, true), Ok(conn));
    let read = op_http_request_read_poll(
        &mut table,
        request_rid,
        conn,
        &mut reader,
        &mut buf,
        EnginePoll::Pending,
        BodyEvent::Chunk(b"hello".to_vec()),
    );
    assert_eq!(read.value, Step::Done(Ok(5)));
    assert_eq!(&buf[..5], b"hello");
    assert_eq!(op_http_request_read(&mut table, request_rid, true), Ok(conn));
    let read = op_http_request_read_poll(
        &mut table,
        request_rid,
        conn,
        &mut reader,
        &mut buf,
        EnginePoll::Pending,
        BodyEvent::End,
    );
    assert_eq!(read.value, Step::Done(Ok(0)));

    // Streamed response: write "ok", then close.
    let plan = op_http_response(&mut table, sender, 200, vec![], None).unwrap();
    let body = plan.body_rid.unwrap();
    let sent = op_http_response_sent(&mut table, conn, plan.body_rid, SendOutcome::Sent(EnginePoll::Pending));
    assert_eq!(sent.value, Ok(Some(body)));
    assert!(!sent.wake);

    let write = op_http_response_write(&mut table, body, Some(b"ok".to_vec())).unwrap();
    assert_eq!(write.chunk, b"ok".to_vec());
    let written = op_http_response_write_poll(&mut table, body, write.conn_rid, SinkPoll::Sent, EnginePoll::Pending);
    assert_eq!(written.value, Step::Done(Ok(())));

    assert_eq!(op_http_response_close(&mut table, body), Ok(conn));
    let flushed = op_http_response_close_flush(&mut table, conn, EnginePoll::Pending);
    assert_eq!(flushed.value, Ok(()));
    assert!(flushed.wake);
    assert!(!table.has(body));
    assert!(table.has(conn));
}

#[test]
fn two_cookie_headers_reach_the_host_as_one() {
    let mut table = ResourceTable::new();
    let conn = start_http(&mut table, String::from("127.0.0.1:80"), Scheme::Http).unwrap();
    let mut slot = ServiceSlot::new();
    slot.call(ServiceInner {
        request: request("GET", "/", vec![header("Cookie", "a=1"), header("Cookie", "b=2")], Some(0)),
        response_tx: "tx",
    });
    let got = next(&mut table, conn, &mut slot, EnginePoll::Pending).unwrap();
    let cookies: Vec<&Header> =
        got.headers.iter().filter(|h| h.name.eq_ignore_ascii_case(b"cookie")).collect();
    assert_eq!(cookies, vec![&header("cookie", "a=1; b=2")]);
}

#[test]
fn peer_hangup_between_requests() {
    let mut table = ResourceTable::new();
    let conn = start_http(&mut table, String::from("127.0.0.1:80"), Scheme::Http).unwrap();
    let mut slot = ServiceSlot::new();
    slot.call(ServiceInner { request: request("GET", "/", vec![], Some(0)), response_tx: "tx" });
    let got = next(&mut table, conn, &mut slot, EnginePoll::Pending).unwrap();
    let plan = op_http_response(&mut table, got.response_sender_rid, 200, vec![], Some(Vec::new())).unwrap();
    let sent = op_http_response_sent(&mut table, conn, plan.body_rid, SendOutcome::Sent(EnginePoll::Pending));
    assert_eq!(sent.value, Ok(None));

    // The peer closes the connection.
    let hangup = EngineError { sources: vec![Cause::Io(IoErrorKind::NotConnected)] };
    assert_eq!(next(&mut table, conn, &mut slot, EnginePoll::Failed(hangup)), None);
    assert!(!table.has(conn));

    // A clean end of the engine is the end of the stream too.
    let conn = start_http(&mut table, String::from("127.0.0.1:80"), Scheme::Http).unwrap();
    assert_eq!(next(&mut table, conn, &mut slot, EnginePoll::Finished), None);
    assert!(!table.has(conn));
}

#[test]
fn fatal_transport_error_during_a_write() {
    let mut table = ResourceTable::new();
    let conn = start_http(&mut table, String::from("127.0.0.1:80"), Scheme::Http).unwrap();
    let mut slot = ServiceSlot::new();
    slot.call(ServiceInner { request: request("POST", "/", vec![], None), response_tx: "tx" });
    let got = next(&mut table, conn, &mut slot, EnginePoll::Pending).unwrap();
    let request_rid = got.request_rid.unwrap();
    let plan = op_http_response(&mut table, got.response_sender_rid, 200, vec![], None).unwrap();
    let body = plan.body_rid.unwrap();
    op_http_response_sent(&mut table, conn, plan.body_rid, SendOutcome::Sent(EnginePoll::Pending));

    // The peer resets while a chunk is written.
    let write = op_http_response_write(&mut table, body, Some(b"partial".to_vec())).unwrap();
    let reset = EngineError { sources: vec![Cause::Io(IoErrorKind::ConnectionReset)] };
    let written =
        op_http_response_write_poll(&mut table, body, write.conn_rid, SinkPoll::Pending, EnginePoll::Failed(reset));
    assert_eq!(written.value, Step::Done(Err(HttpError::Transport)));
    assert!(written.closed);
    assert!(!table.has(conn));

    // Every handle of the connection now fails with a bad resource.
    assert_eq!(op_http_response_write(&mut table, body, Some(vec![1])), Err(HttpError::BadResource));
    assert_eq!(op_http_request_read(&mut table, request_rid, true), Err(HttpError::BadResource));
    assert_eq!(op_http_response_close(&mut table, body), Err(HttpError::BadResource));
    let answer = op_http_request_next(&mut table, conn, &mut slot, DriverEvent::Polled(EnginePoll::Pending));
    assert!(matches!(answer, NextRequest::Failed(HttpError::BadResource)));
    assert_eq!(op_http_response(&mut table, conn, 200, vec![], None), Err(HttpError::BadResource));

    // The host closes what is left.
    assert!(!table.has(body));
    assert_eq!(table.close(request_rid), Some(true));
    assert_eq!(op_http_upgrade_websocket(&mut table, request_rid), Err(HttpError::BadResource));
}
