//! The connection driver: registering a served connection, and the step of
//! `next-request` that turns one poll of the engine into an answer for the
//! host.

use crate::error::{is_benign, should_ignore_error, EngineError, HttpError};
use crate::headers::{
    coalesce_cookies, coalesced, headers_view, is_upgrade_request, is_websocket_request, Header,
    HeaderView,
};
use crate::request::{may_have_body, request_url, url_of, RequestHead, RequestHeadView};
use crate::slot::ServiceSlot;
use crate::table::{Resource, ResourceId, ResourceTable, ResourceView, RequestState, Scheme, TableView};
use vstd::prelude::*;

verus! {

/// What one poll of a connection's engine gave.
#[derive(Clone, Debug, PartialEq, Eq)]
pub enum EnginePoll {
    /// The engine has more to do.
    Pending,
    /// The engine served the connection to its end.
    Finished,
    /// The engine gave up on the connection.
    Failed(EngineError),
}

impl EnginePoll {
    /// Whether the engine is done with the connection, one way or the other.
    pub open spec fn is_over(self) -> bool {
        !(self is Pending)
    }

    /// Whether the engine failed with an error that is no benign hangup.
    pub open spec fn is_fatal(self) -> bool {
        self matches EnginePoll::Failed(e) && !is_benign(e.sources@)
    }

    /// Reads what a poll of the engine gave: nothing yet, or its result.
    pub fn poll(ready: Option<Result<(), EngineError>>) -> (outcome: EnginePoll)
        ensures
            outcome == match ready {
                None => EnginePoll::Pending,
                Some(Ok(())) => EnginePoll::Finished,
                Some(Err(e)) => EnginePoll::Failed(e),
            },
    {
        match ready {
            None => EnginePoll::Pending,
            Some(Ok(())) => EnginePoll::Finished,
            Some(Err(e)) => EnginePoll::Failed(e),
        }
    }
}

/// What wakes a pending `next-request`.
#[derive(Clone, Debug, PartialEq, Eq)]
pub enum DriverEvent {
    /// The connection's cancel token fired.
    Cancelled,
    /// The engine was polled once.
    Polled(EnginePoll),
}

/// What the engine leaves in the service slot: the parsed request, and the
/// caller's means to answer it and to read its body.
pub struct ServiceInner<T> {
    pub request: RequestHead,
    pub response_tx: T,
}

/// What the host is told of the next request.
#[derive(Clone, Debug, PartialEq, Eq)]
pub struct NextRequestResponse {
    /// The handle of the request, where a body may follow or the request asks
    /// for a WebSocket upgrade.
    pub request_rid: Option<ResourceId>,
    /// The handle of the response sender.
    pub response_sender_rid: ResourceId,
    /// The method.
    pub method: String,
    /// The headers, cookies coalesced.
    pub headers: Vec<Header>,
    /// The absolute URL.
    pub url: String,
}

/// The answer of one step of `next-request`.
pub enum NextRequest<T> {
    /// Nothing yet: the engine will wake the caller.
    Pending,
    /// The connection is over and no request is left.
    Closed,
    /// A request, with what the engine left for it in the slot.
    Ready(NextRequestResponse, T),
    /// The step failed.
    Failed(HttpError),
}

/// The mathematical value of an answer of `next-request`.
pub enum NextAnswer {
    Pending,
    Closed,
    Ready {
        request_rid: Option<ResourceId>,
        response_sender_rid: ResourceId,
        method: Seq<char>,
        headers: Seq<HeaderView>,
        url: Seq<char>,
    },
    Failed(HttpError),
}

impl<T> View for NextRequest<T> {
    type V = NextAnswer;

    open spec fn view(&self) -> NextAnswer {
        match self {
            NextRequest::Pending => NextAnswer::Pending,
            NextRequest::Closed => NextAnswer::Closed,
            NextRequest::Ready(response, _) => NextAnswer::Ready {
                request_rid: response.request_rid,
                response_sender_rid: response.response_sender_rid,
                method: response.method@,
                headers: headers_view(response.headers@),
                url: response.url@,
            },
            NextRequest::Failed(e) => NextAnswer::Failed(*e),
        }
    }
}

/// Whether a request gets a handle of its own: a body may follow, or it asks
/// for a WebSocket upgrade.
pub open spec fn gets_request_handle(head: RequestHeadView) -> bool {
    is_upgrade_request(head.headers) || may_have_body(head)
}

/// Whether a step of `next-request` looks into the slot: the connection is
/// live, no cancellation came, and the engine did not fail fatally.
pub open spec fn next_reaches_slot(t: TableView, conn_rid: ResourceId, event: DriverEvent) -> bool {
    t.is_connection(conn_rid) && (event matches DriverEvent::Polled(poll) && !poll.is_fatal())
}

/// The table after the engine was polled: a connection whose engine is done
/// leaves it.
pub open spec fn after_poll(t: TableView, conn_rid: ResourceId, poll: EnginePoll) -> TableView {
    if poll.is_over() {
        t.remove(conn_rid)
    } else {
        t
    }
}

/// The table after one step of `next-request` on a connection whose slot
/// holds `pending`.
pub open spec fn next_request_table(
    t: TableView,
    conn_rid: ResourceId,
    pending: Option<RequestHeadView>,
    event: DriverEvent,
) -> TableView {
    if !t.is_connection(conn_rid) {
        t
    } else {
        match event {
            DriverEvent::Cancelled => t,
            DriverEvent::Polled(poll) => {
                let polled = after_poll(t, conn_rid, poll);
                let conn = t.resources[conn_rid];
                if poll.is_fatal() {
                    polled
                } else {
                    match pending {
                        Some(head) => if url_of(conn->scheme, head, conn->addr) is None {
                            polled
                        } else if gets_request_handle(head) {
                            polled.add(
                                ResourceView::Request {
                                    conn_rid,
                                    state: RequestState::Fresh,
                                    busy: false,
                                },
                            ).add(ResourceView::ResponseSender { conn_rid })
                        } else {
                            polled.add(ResourceView::ResponseSender { conn_rid })
                        },
                        None => polled,
                    }
                }
            },
        }
    }
}

/// The answer of one step of `next-request` on a connection whose slot holds
/// `pending`.
pub open spec fn next_request_answer(
    t: TableView,
    conn_rid: ResourceId,
    pending: Option<RequestHeadView>,
    event: DriverEvent,
) -> NextAnswer {
    if !t.is_connection(conn_rid) {
        NextAnswer::Failed(HttpError::BadResource)
    } else {
        match event {
            DriverEvent::Cancelled => NextAnswer::Failed(HttpError::Cancelled),
            DriverEvent::Polled(poll) => {
                let conn = t.resources[conn_rid];
                if poll.is_fatal() {
                    NextAnswer::Failed(HttpError::Transport)
                } else {
                    match pending {
                        Some(head) => match url_of(conn->scheme, head, conn->addr) {
                            None => NextAnswer::Failed(HttpError::HostNotText),
                            Some(url) => NextAnswer::Ready {
                                request_rid: if gets_request_handle(head) {
                                    Some(t.next_rid as ResourceId)
                                } else {
                                    None
                                },
                                response_sender_rid: if gets_request_handle(head) {
                                    (t.next_rid + 1) as ResourceId
                                } else {
                                    t.next_rid as ResourceId
                                },
                                method: head.method,
                                headers: coalesced(head.headers),
                                url,
                            },
                        },
                        None => if poll.is_over() {
                            NextAnswer::Closed
                        } else {
                            NextAnswer::Pending
                        },
                    }
                }
            },
        }
    }
}

/// The head of the request that a slot holds.
pub open spec fn pending_head<T>(slot: Option<ServiceInner<T>>) -> Option<RequestHeadView> {
    match slot {
        Some(inner) => Some(inner.request@),
        None => None,
    }
}

/// Registers a connection that serves `scheme` at `addr`, and returns its
/// handle.
pub fn start_http(table: &mut ResourceTable, addr: String, scheme: Scheme) -> (rid: Result<
    ResourceId,
    HttpError,
>)
    requires
        old(table)@.has_room(1),
    ensures
        rid == Ok::<ResourceId, HttpError>(old(table)@.next_rid as ResourceId),
        final(table)@ == old(table)@.add(ResourceView::Connection { scheme, addr: addr@ }),
        final(table)@.wf(),
{
    Ok(table.add(Resource::Connection { scheme, addr }))
}

/// One step of `next-request` on the connection `conn_rid`, after `event`.
///
/// A cancellation fails the step and changes nothing. Otherwise the engine
/// was polled: a connection whose engine is done leaves the table, and a
/// fatal error of the engine fails the step. Then a request that waits in
/// the slot is taken out and described to the host, with a new response
/// sender and, where a body may follow or an upgrade is asked for, a new
/// request handle. With an empty slot the answer is `Closed` where the
/// connection is over, and `Pending` else.
pub fn op_http_request_next<T>(
    table: &mut ResourceTable,
    conn_rid: ResourceId,
    slot: &mut ServiceSlot<ServiceInner<T>>,
    event: DriverEvent,
) -> (answer: NextRequest<T>)
    requires
        old(table)@.has_room(2),
    ensures
        old(table)@.wf(),
        final(table)@.wf(),
        final(table)@ == next_request_table(
            old(table)@,
            conn_rid,
            pending_head(old(slot)@),
            event,
        ),
        answer@ == next_request_answer(old(table)@, conn_rid, pending_head(old(slot)@), event),
        final(slot)@ == if next_reaches_slot(old(table)@, conn_rid, event) {
            None
        } else {
            old(slot)@
        },
        answer matches NextRequest::Ready(_, tx) ==> (old(slot)@ matches Some(inner)
            && inner.response_tx == tx),
{
    proof {
        use_type_invariant(&*table);
    }
    let (scheme, addr) = match table.get(conn_rid) {
        Some(Resource::Connection { scheme, addr }) => (*scheme, addr.clone()),
        _ => {
            return NextRequest::Failed(HttpError::BadResource);
        },
    };
    let poll = match event {
        DriverEvent::Cancelled => {
            return NextRequest::Failed(HttpError::Cancelled);
        },
        DriverEvent::Polled(poll) => poll,
    };
    let connection_closed = match &poll {
        EnginePoll::Pending => false,
        EnginePoll::Finished => {
            table.take(conn_rid);
            true
        },
        EnginePoll::Failed(e) => {
            table.take(conn_rid);
            if should_ignore_error(e) {
                true
            } else {
                return NextRequest::Failed(HttpError::Transport);
            }
        },
    };
    match slot.take() {
        Some(inner) => {
            let ServiceInner { request, response_tx } = inner;
            let url = match request_url(scheme, &request, addr.as_str()) {
                Ok(url) => url,
                Err(e) => {
                    return NextRequest::Failed(e);
                },
            };
            let headers = coalesce_cookies(&request.headers);
            let request_rid = if is_websocket_request(&request.headers) || request.has_body() {
                Some(
                    table.add(
                        Resource::Request { conn_rid, state: RequestState::Fresh, busy: false },
                    ),
                )
            } else {
                None
            };
            let response_sender_rid = table.add(Resource::ResponseSender { conn_rid });
            NextRequest::Ready(
                NextRequestResponse {
                    request_rid,
                    response_sender_rid,
                    method: request.method,
                    headers,
                    url,
                },
                response_tx,
            )
        },
        None => if connection_closed {
            NextRequest::Closed
        } else {
            NextRequest::Pending
        },
    }
}

} // verus!
