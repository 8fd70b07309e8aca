//! What holds of the handles over their life: a response sender serves once,
//! a streamed body is closed once, and the children of a connection that is
//! gone fail with a bad resource.

use crate::body::read_result;
use crate::conn::{next_request_answer, next_request_table, DriverEvent, EnginePoll};
use crate::error::HttpError;
use crate::request::RequestHeadView;
use crate::response::{
    close_result, close_table, flushed_outcome, parent_of, respond_result, respond_table,
    sent_outcome, write_result, SendOutcome,
};
use crate::table::{ResourceId, TableView};
use crate::upgrade::is_fresh_request;
use vstd::prelude::*;

verus! {

/// A request that `next-request` delivers comes with one response sender of
/// its own: a handle that was not live before and now names a sender on the
/// request's connection. Where the request gets a handle too, that handle
/// is another new one, and names a request of which nothing was read.
pub proof fn lemma_request_gets_one_sender(
    t: TableView,
    conn_rid: ResourceId,
    pending: Option<RequestHeadView>,
    event: DriverEvent,
)
    requires
        t.wf(),
        t.has_room(2),
        next_request_answer(t, conn_rid, pending, event) is Ready,
    ensures
        ({
            let after = next_request_table(t, conn_rid, pending, event);
            let answer = next_request_answer(t, conn_rid, pending, event);
            let sender = answer->response_sender_rid;
            &&& !t.has(sender)
            &&& after.is_sender(sender)
            &&& parent_of(after, sender) == conn_rid
            &&& answer->request_rid matches Some(request) ==> {
                &&& request != sender
                &&& !t.has(request)
                &&& is_fresh_request(after, request)
                &&& parent_of(after, request) == conn_rid
            }
        }),
{
}

/// A response sender serves once: whatever the first `respond` on a handle
/// gave, a second one on the same handle fails with a bad resource.
pub proof fn lemma_sender_used_once(
    t: TableView,
    rid: ResourceId,
    accepted: bool,
    streamed: bool,
    accepted_again: bool,
    streamed_again: bool,
)
    requires
        t.wf(),
        t.has_room(1),
    ensures
        respond_result(
            respond_table(t, rid, accepted, streamed),
            rid,
            accepted_again,
            streamed_again,
        ) == Err::<Option<ResourceId>, HttpError>(HttpError::BadResource),
        !respond_table(t, rid, accepted, streamed).is_sender(rid),
{
}

/// A streamed response is completed by one `close-body`: `respond` gives the
/// handle of a live sink and does not wake the engine; the first close of
/// that handle takes the sink out of the table and wakes the engine; a second
/// close of it fails with a bad resource.
pub proof fn lemma_streamed_body_closed_once(
    t: TableView,
    rid: ResourceId,
    accepted: bool,
    sent: EnginePoll,
    flushed: EnginePoll,
)
    requires
        t.wf(),
        t.has_room(1),
        respond_result(t, rid, accepted, true) is Ok,
    ensures
        ({
            let started = respond_table(t, rid, accepted, true);
            let conn_rid = parent_of(t, rid);
            let body_rid = respond_result(t, rid, accepted, true)->Ok_0;
            let closed = close_table(started, body_rid->0);
            &&& body_rid is Some
            &&& !t.has(body_rid->0)
            &&& started.is_body(body_rid->0)
            &&& !sent_outcome(started, conn_rid, body_rid, SendOutcome::Sent(sent)).wake
            &&& close_result(started, body_rid->0) == Ok::<ResourceId, HttpError>(conn_rid)
            &&& !closed.has(body_rid->0)
            &&& flushed_outcome(closed, conn_rid, flushed).wake
            &&& close_result(closed, body_rid->0) == Err::<ResourceId, HttpError>(
                HttpError::BadResource,
            )
        }),
{
}

/// Whether `rid` names a child of the connection `conn_rid`.
pub open spec fn is_child_of(t: TableView, rid: ResourceId, conn_rid: ResourceId) -> bool {
    t.has(rid) && t.resources[rid].parent() == Some(conn_rid)
}

/// Once a connection has left the table, every operation on one of its
/// children fails with a bad resource: on its requests, its response senders
/// and its response bodies. The children stay in the table until the host
/// closes them.
pub proof fn lemma_children_of_dead_connection_fail(
    t: TableView,
    conn_rid: ResourceId,
    rid: ResourceId,
    accepted: bool,
    streamed: bool,
)
    requires
        t.wf(),
        is_child_of(t, rid, conn_rid),
    ensures
        ({
            let after = t.remove(conn_rid);
            &&& rid != conn_rid ==> is_child_of(after, rid, conn_rid)
            &&& respond_result(after, rid, accepted, streamed) == Err::<
                Option<ResourceId>,
                HttpError,
            >(HttpError::BadResource)
            &&& read_result(after, rid, true) == Err::<ResourceId, HttpError>(
                HttpError::BadResource,
            )
            &&& write_result(after, rid, true) == Err::<ResourceId, HttpError>(
                HttpError::BadResource,
            )
            &&& close_result(after, rid) == Err::<ResourceId, HttpError>(HttpError::BadResource)
        }),
{
}

} // verus!
