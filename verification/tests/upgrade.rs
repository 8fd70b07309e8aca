use deno_http::accept::op_http_websocket_accept_header;
use deno_http::body::op_http_request_read;
use deno_http::conn::{op_http_request_next, start_http, DriverEvent, EnginePoll, NextRequest, ServiceInner};
use deno_http::error::HttpError;
use deno_http::headers::Header;
use deno_http::request::RequestHead;
use deno_http::response::{op_http_response, op_http_response_sent, SendOutcome};
use deno_http::slot::ServiceSlot;
use deno_http::table::{RequestState, Resource, ResourceTable, Scheme};
use deno_http::upgrade::{op_http_upgrade_websocket, op_http_upgrade_websocket_done};

fn header(name: &str, value: &str) -> Header {
    Header { name: name.as_bytes().to_vec(), value: value.as_bytes().to_vec() }
}

#[test]
fn upgrade_takes_a_fresh_request() {
    let mut table = ResourceTable::new();
    let conn = start_http(&mut table, String::from("a"), Scheme::Http).unwrap();
    let request = table.add(Resource::Request { conn_rid: conn, state: RequestState::Fresh, busy: false });
    assert_eq!(op_http_upgrade_websocket(&mut table, request), Ok(()));
    assert!(!table.has(request));
    assert_eq!(op_http_upgrade_websocket_done(&mut table, true), Ok(2));
    assert_eq!(table.get(2), Some(&Resource::WebSocket));
}

#[test]
fn upgrade_after_a_read_is_a_bad_resource() {
    let mut table = ResourceTable::new();
    let conn = start_http(&mut table, String::from("a"), Scheme::Http).unwrap();
    let request = table.add(Resource::Request { conn_rid: conn, state: RequestState::Fresh, busy: false });
    op_http_request_read(&mut table, request, true).unwrap();
    assert_eq!(op_http_upgrade_websocket(&mut table, request), Err(HttpError::BadResource));
    assert!(!table.has(request));
}

#[test]
fn upgrade_needs_a_request() {
    let mut table = ResourceTable::new();
    let conn = start_http(&mut table, String::from("a"), Scheme::Http).unwrap();
    assert_eq!(op_http_upgrade_websocket(&mut table, conn), Err(HttpError::BadResource));
    assert!(table.has(conn));
    assert_eq!(op_http_upgrade_websocket(&mut table, 5), Err(HttpError::BadResource));
}

#[test]
fn upgrade_happens_once() {
    let mut table = ResourceTable::new();
    let conn = start_http(&mut table, String::from("a"), Scheme::Http).unwrap();
    let request = table.add(Resource::Request { conn_rid: conn, state: RequestState::Fresh, busy: false });
    assert_eq!(op_http_upgrade_websocket(&mut table, request), Ok(()));
    assert_eq!(op_http_upgrade_websocket(&mut table, request), Err(HttpError::BadResource));
}

#[test]
fn failed_upgrade_registers_nothing() {
    let mut table = ResourceTable::new();
    assert_eq!(op_http_upgrade_websocket_done(&mut table, false), Err(HttpError::Transport));
    assert!(!table.has(0));
    assert_eq!(op_http_upgrade_websocket_done(&mut table, true), Ok(0));
}

#[test]
fn websocket_upgrade_from_request_to_session() {
    let mut table = ResourceTable::new();
    let conn = start_http(&mut table, String::from("127.0.0.1:80"), Scheme::Http).unwrap();
    let mut slot: ServiceSlot<ServiceInner<()>> = ServiceSlot::new();
    slot.call(ServiceInner {
        request: RequestHead {
            method: String::from("GET"),
            host: None,
            path_and_query: Some(String::from("/chat")),
            headers: vec![
                header("host", "x"),
                header("connection", "Upgrade"),
                header("upgrade", "websocket"),
                header("sec-websocket-key", "dGhlIHNhbXBsZSBub25jZQ=="),
            ],
            body_size: Some(0),
        },
        response_tx: (),
    });
    let response = match op_http_request_next(
        &mut table,
        conn,
        &mut slot,
        DriverEvent::Polled(EnginePoll::Pending),
    ) {
        NextRequest::Ready(response, ()) => response,
        _ => panic!("no request"),
    };
    let request = response.request_rid.unwrap();
    let key = response
        .headers
        .iter()
        .find(|h| h.name == b"sec-websocket-key")
        .map(|h| String::from_utf8(h.value.clone()).unwrap())
        .unwrap();
    let accept = op_http_websocket_accept_header(&key);
    assert_eq!(accept, "s3pPLMBiTxaQ9kYGzzhZRbK+xOo=");

    let headers = vec![
        header("upgrade", "websocket"),
        header("connection", "Upgrade"),
        header("sec-websocket-accept", &accept),
    ];
    let plan =
        op_http_response(&mut table, response.response_sender_rid, 101, headers, Some(Vec::new())).unwrap();
    assert_eq!(plan.body_rid, None);
    let sent = op_http_response_sent(&mut table, conn, plan.body_rid, SendOutcome::Sent(EnginePoll::Pending));
    assert_eq!(sent.value, Ok(None));

    assert_eq!(op_http_upgrade_websocket(&mut table, request), Ok(()));
    let ws = op_http_upgrade_websocket_done(&mut table, true).unwrap();
    assert_eq!(table.get(ws), Some(&Resource::WebSocket));
    assert!(!table.has(request));
}
