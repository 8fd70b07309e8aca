//! The response side: sending a response head, streaming a body through a
//! chunk sink, and closing the sink.

use crate::conn::EnginePoll;
use crate::error::HttpError;
use crate::headers::{headers_view, Header, HeaderView};
use crate::outcome::{Outcome, Step};
use crate::table::{Resource, ResourceId, ResourceTable, ResourceView, TableView};
use vstd::prelude::*;

verus! {

/// Whether `HeaderName::from_bytes` of the `http` crate takes a byte string
/// as a header name.
pub uninterp spec fn valid_header_name(name: Seq<u8>) -> bool;

/// Whether a byte may stand in a header value: anything but a control
/// character; a tab may.
pub open spec fn is_value_byte(b: u8) -> bool {
    (b >= 32 && b != 127) || b == 9
}

/// Whether a byte string is fit to be a header value.
pub open spec fn valid_header_value(value: Seq<u8>) -> bool {
    forall|i: int| 0 <= i < value.len() ==> is_value_byte(#[trigger] value[i])
}

/// Whether a status code is fit for a response: it has three digits.
pub open spec fn valid_status(status: u16) -> bool {
    100 <= status < 1000
}

/// Whether a header is fit for a response.
pub open spec fn valid_header(header: HeaderView) -> bool {
    valid_header_name(header.name) && valid_header_value(header.value)
}

/// Whether a response head is fit for the wire: its status and each of its
/// headers is.
pub open spec fn head_accepted(status: u16, headers: Seq<HeaderView>) -> bool {
    valid_status(status) && forall|i: int|
        0 <= i < headers.len() ==> valid_header(#[trigger] headers[i])
}

/// Asks `StatusCode::from_u16` of the `http` crate whether it takes a status
/// code. Trusted: it takes the codes from 100 to 999.
#[verifier::external_body]
fn status_accepted(status: u16) -> (ok: bool)
    ensures
        ok == valid_status(status),
{
    hyper::StatusCode::from_u16(status).is_ok()
}

/// Asks `HeaderName::from_bytes` of the `http` crate whether it takes a
/// header name. Trusted: the answer depends on the bytes alone.
#[verifier::external_body]
fn header_name_accepted(name: &[u8]) -> (ok: bool)
    ensures
        ok == valid_header_name(name@),
{
    hyper::header::HeaderName::from_bytes(name).is_ok()
}

/// Asks `HeaderValue::from_bytes` of the `http` crate whether it takes a
/// header value. Trusted: it takes the values without control characters
/// other than the tab.
#[verifier::external_body]
fn header_value_accepted(value: &[u8]) -> (ok: bool)
    ensures
        ok == valid_header_value(value@),
{
    hyper::header::HeaderValue::from_bytes(value).is_ok()
}

/// Whether a response head is fit for the wire.
pub fn check_head(status: u16, headers: &Vec<Header>) -> (ok: bool)
    ensures
        ok == head_accepted(status, headers_view(headers@)),
{
    if !status_accepted(status) {
        return false;
    }
    let ghost all = headers_view(headers@);
    let mut i: usize = 0;
    while i < headers.len()
        invariant
            all == headers_view(headers@),
            0 <= i <= headers@.len(),
            forall|j: int| 0 <= j < i ==> valid_header(#[trigger] all[j]),
        decreases headers@.len() - i,
    {
        let header = &headers[i];
        assert(all[i as int] == header@);
        if !header_name_accepted(header.name.as_slice()) || !header_value_accepted(
            header.value.as_slice(),
        ) {
            return false;
        }
        i += 1;
    }
    true
}

/// A response as it is handed to the engine.
#[derive(Clone, Debug, PartialEq, Eq)]
pub struct Response {
    /// The status code.
    pub status: u16,
    /// The headers, in the order given; a name may occur more than once.
    pub headers: Vec<Header>,
    /// The complete body, or nothing where the body is streamed.
    pub body: Option<Vec<u8>>,
}

/// What `respond` hands back for the engine.
#[derive(Clone, Debug, PartialEq, Eq)]
pub struct Respond {
    /// The connection on which the response goes out.
    pub conn_rid: ResourceId,
    /// The handle of the chunk sink, where the body is streamed.
    pub body_rid: Option<ResourceId>,
    /// The response.
    pub response: Response,
}

/// The bytes of an optional buffer.
pub open spec fn bytes_view(data: Option<Vec<u8>>) -> Option<Seq<u8>> {
    match data {
        Some(bytes) => Some(bytes@),
        None => None,
    }
}

/// The connection of a child resource; for any other resource, its own
/// handle.
pub open spec fn parent_of(t: TableView, rid: ResourceId) -> ResourceId {
    match t.resources[rid].parent() {
        Some(conn_rid) => conn_rid,
        None => rid,
    }
}

/// The table after the first step of `respond`: the sender is consumed
/// whatever follows, and a streamed response gets a chunk sink.
pub open spec fn respond_table(t: TableView, rid: ResourceId, accepted: bool, streamed: bool) -> TableView {
    if !t.is_sender(rid) {
        t
    } else if t.is_connection(parent_of(t, rid)) && accepted && streamed {
        t.remove(rid).add(ResourceView::ResponseBody { conn_rid: parent_of(t, rid), busy: false })
    } else {
        t.remove(rid)
    }
}

/// The result of the first step of `respond`: the handle of the chunk sink,
/// where the body is streamed.
pub open spec fn respond_result(t: TableView, rid: ResourceId, accepted: bool, streamed: bool) -> Result<
    Option<ResourceId>,
    HttpError,
> {
    if !t.is_sender(rid) || !t.is_connection(parent_of(t, rid)) {
        Err(HttpError::BadResource)
    } else if !accepted {
        Err(HttpError::InvalidHead)
    } else if streamed {
        Ok(Some(t.next_rid as ResourceId))
    } else {
        Ok(None)
    }
}

/// The first step of `respond`, for a response head that was checked
/// before: `accepted` says whether it is fit for the wire.
///
/// The sender under `rid` is consumed. The step then fails where the
/// sender's connection is gone or the head is not fit. Else the response is
/// handed back for the engine: with `data` as its complete body, or, without
/// `data`, with a new chunk sink for its body.
pub fn respond(
    table: &mut ResourceTable,
    rid: ResourceId,
    accepted: bool,
    status: u16,
    headers: Vec<Header>,
    data: Option<Vec<u8>>,
) -> (plan: Result<Respond, HttpError>)
    requires
        old(table)@.has_room(1),
    ensures
        old(table)@.wf(),
        final(table)@.wf(),
        final(table)@ == respond_table(old(table)@, rid, accepted, data is None),
        match respond_result(old(table)@, rid, accepted, data is None) {
            Ok(body_rid) => plan matches Ok(p) && p.conn_rid == parent_of(old(table)@, rid)
                && p.body_rid == body_rid && p.response.status == status
                && p.response.headers@ == headers@ && p.response.body == data,
            Err(e) => plan == Err::<Respond, HttpError>(e),
        },
{
    proof {
        use_type_invariant(&*table);
    }
    let conn_rid = match table.get(rid) {
        Some(Resource::ResponseSender { conn_rid }) => *conn_rid,
        _ => {
            return Err(HttpError::BadResource);
        },
    };
    table.take(rid);
    match table.get(conn_rid) {
        Some(Resource::Connection { .. }) => {},
        _ => {
            return Err(HttpError::BadResource);
        },
    }
    if !accepted {
        return Err(HttpError::InvalidHead);
    }
    let body_rid = if data.is_none() {
        Some(table.add(Resource::ResponseBody { conn_rid, busy: false }))
    } else {
        None
    };
    Ok(Respond { conn_rid, body_rid, response: Response { status, headers, body: data } })
}

/// The first step of `respond`: checks the response head, and goes on as
/// [`respond`] does.
pub fn op_http_response(
    table: &mut ResourceTable,
    rid: ResourceId,
    status: u16,
    headers: Vec<Header>,
    data: Option<Vec<u8>>,
) -> (plan: Result<Respond, HttpError>)
    requires
        old(table)@.has_room(1),
    ensures
        old(table)@.wf(),
        final(table)@.wf(),
        final(table)@ == respond_table(
            old(table)@,
            rid,
            head_accepted(status, headers_view(headers@)),
            data is None,
        ),
        match respond_result(
            old(table)@,
            rid,
            head_accepted(status, headers_view(headers@)),
            data is None,
        ) {
            Ok(body_rid) => plan matches Ok(p) && p.conn_rid == parent_of(old(table)@, rid)
                && p.body_rid == body_rid && p.response.status == status
                && p.response.headers@ == headers@ && p.response.body == data,
            Err(e) => plan == Err::<Respond, HttpError>(e),
        },
{
    proof {
        use_type_invariant(&*table);
    }
    let accepted = check_head(status, &headers);
    respond(table, rid, accepted, status, headers, data)
}

/// What became of a response that was handed to the engine.
#[derive(Clone, Debug, PartialEq, Eq)]
pub enum SendOutcome {
    /// The engine no longer waits for it: its end of the channel is gone.
    ReceiverGone,
    /// The engine took it, and was then polled once to flush the head.
    Sent(EnginePoll),
}

/// The table after the second step of `respond`: a connection whose engine
/// is done is closed.
pub open spec fn sent_table(t: TableView, conn_rid: ResourceId, outcome: SendOutcome) -> TableView {
    match outcome {
        SendOutcome::Sent(poll) => if poll.is_over() {
            t.remove(conn_rid)
        } else {
            t
        },
        SendOutcome::ReceiverGone => t,
    }
}

/// The answer of the second step of `respond`.
pub open spec fn sent_outcome(
    t: TableView,
    conn_rid: ResourceId,
    body_rid: Option<ResourceId>,
    outcome: SendOutcome,
) -> Outcome<Result<Option<ResourceId>, HttpError>> {
    match outcome {
        SendOutcome::ReceiverGone => Outcome {
            value: Err(HttpError::Communication),
            wake: false,
            closed: false,
        },
        SendOutcome::Sent(poll) => Outcome {
            value: if poll is Failed {
                Err(HttpError::Transport)
            } else {
                Ok(body_rid)
            },
            wake: !(poll is Failed) && body_rid is None,
            closed: poll.is_over() && closes(t, conn_rid),
        },
    }
}

/// Whether closing `rid` fires a cancel token.
pub open spec fn closes(t: TableView, rid: ResourceId) -> bool {
    t.has(rid) && t.resources[rid].owns_cancel_token()
}

/// Closes the connection where the engine is done with it. Says whether a
/// cancel token fired.
fn close_if_over(table: &mut ResourceTable, conn_rid: ResourceId, poll: &EnginePoll) -> (closed: bool)
    ensures
        old(table)@.wf(),
        final(table)@.wf(),
        final(table)@ == if poll.is_over() {
            old(table)@.remove(conn_rid)
        } else {
            old(table)@
        },
        closed == (poll.is_over() && closes(old(table)@, conn_rid)),
{
    proof {
        use_type_invariant(&*table);
    }
    match poll {
        EnginePoll::Pending => false,
        _ => match table.close(conn_rid) {
            Some(fired) => fired,
            None => false,
        },
    }
}

/// The second step of `respond`, after the response was handed to the
/// engine and the engine polled once.
///
/// Where the engine no longer waited for the response, the step fails with
/// a communication error. A connection whose engine is done is closed, and
/// an error of the engine fails the step. Else the answer is the handle of
/// the chunk sink, if the body is streamed; a response without one is
/// complete, and the engine is woken for the next request.
pub fn op_http_response_sent(
    table: &mut ResourceTable,
    conn_rid: ResourceId,
    body_rid: Option<ResourceId>,
    outcome: SendOutcome,
) -> (answer: Outcome<Result<Option<ResourceId>, HttpError>>)
    ensures
        old(table)@.wf(),
        final(table)@.wf(),
        final(table)@ == sent_table(old(table)@, conn_rid, outcome),
        answer == sent_outcome(old(table)@, conn_rid, body_rid, outcome),
{
    proof {
        use_type_invariant(&*table);
    }
    match outcome {
        SendOutcome::ReceiverGone => Outcome {
            value: Err(HttpError::Communication),
            wake: false,
            closed: false,
        },
        SendOutcome::Sent(poll) => {
            let closed = close_if_over(table, conn_rid, &poll);
            match poll {
                EnginePoll::Failed(_) => Outcome {
                    value: Err(HttpError::Transport),
                    wake: false,
                    closed,
                },
                _ => Outcome { value: Ok(body_rid), wake: body_rid.is_none(), closed },
            }
        },
    }
}

/// What `write-body` hands back for the chunk sink.
#[derive(Clone, Debug, PartialEq, Eq)]
pub struct Write {
    /// The connection on which the chunk goes out.
    pub conn_rid: ResourceId,
    /// The chunk to submit to the sink.
    pub chunk: Vec<u8>,
}

/// The sink under `rid`, held or released.
pub open spec fn held_body(t: TableView, rid: ResourceId, busy: bool) -> ResourceView {
    ResourceView::ResponseBody { conn_rid: parent_of(t, rid), busy }
}

/// Whether the first step of `write-body` takes hold of the sink: there is a
/// buffer, the sink is live and free, and so is its connection.
pub open spec fn write_starts(t: TableView, rid: ResourceId, buffer: bool) -> bool {
    write_result(t, rid, buffer) is Ok
}

/// The result of the first step of `write-body`: the connection of the
/// sink.
pub open spec fn write_result(t: TableView, rid: ResourceId, buffer: bool) -> Result<
    ResourceId,
    HttpError,
> {
    if !buffer {
        Err(HttpError::NullBuffer)
    } else if !t.is_body(rid) || !t.is_connection(parent_of(t, rid)) {
        Err(HttpError::BadResource)
    } else if t.resources[rid]->ResponseBody_busy {
        Err(HttpError::Busy)
    } else {
        Ok(parent_of(t, rid))
    }
}

/// The first step of `write-body`: takes hold of the sink under `rid` for
/// one chunk, and hands the chunk back for the sink. Fails, and changes
/// nothing, without a buffer, without a live sink on a live connection, or
/// while another write holds the sink.
pub fn op_http_response_write(table: &mut ResourceTable, rid: ResourceId, data: Option<Vec<u8>>) -> (plan:
    Result<Write, HttpError>)
    ensures
        old(table)@.wf(),
        final(table)@.wf(),
        final(table)@ == if write_starts(old(table)@, rid, data is Some) {
            old(table)@.put(rid, held_body(old(table)@, rid, true))
        } else {
            old(table)@
        },
        match write_result(old(table)@, rid, data is Some) {
            Ok(conn_rid) => plan matches Ok(w) && w.conn_rid == conn_rid && Some(w.chunk) == data,
            Err(e) => plan == Err::<Write, HttpError>(e),
        },
{
    proof {
        use_type_invariant(&*table);
    }
    let chunk = match data {
        Some(chunk) => chunk,
        None => {
            return Err(HttpError::NullBuffer);
        },
    };
    let conn_rid = match table.get(rid) {
        Some(Resource::ResponseBody { conn_rid, busy }) => {
            let (conn_rid, busy) = (*conn_rid, *busy);
            match table.get(conn_rid) {
                Some(Resource::Connection { .. }) => {},
                _ => {
                    return Err(HttpError::BadResource);
                },
            }
            if busy {
                return Err(HttpError::Busy);
            }
            conn_rid
        },
        _ => {
            return Err(HttpError::BadResource);
        },
    };
    table.replace(rid, Resource::ResponseBody { conn_rid, busy: true });
    Ok(Write { conn_rid, chunk })
}

/// What the chunk sink said of a submitted chunk.
#[derive(Clone, Copy, Debug, PartialEq, Eq)]
pub enum SinkPoll {
    /// The sink has no room yet.
    Pending,
    /// The sink took the chunk.
    Sent,
    /// The sink is closed: the engine dropped the body.
    Failed,
}

/// The table without the hold of a write on the sink under `rid`, if the
/// sink is still live.
pub open spec fn released_body(t: TableView, rid: ResourceId) -> TableView {
    if t.is_body(rid) {
        t.put(rid, held_body(t, rid, false))
    } else {
        t
    }
}

/// Whether a step of `write-body` ends the write.
pub open spec fn write_ends(sink: SinkPoll, engine: EnginePoll) -> bool {
    engine is Failed || !(sink is Pending)
}

/// The table after a step of `write-body`: an engine that failed has its
/// connection closed, and a write that is over lets go of the sink.
pub open spec fn written_table(
    t: TableView,
    rid: ResourceId,
    conn_rid: ResourceId,
    sink: SinkPoll,
    engine: EnginePoll,
) -> TableView {
    let polled = if engine is Failed {
        t.remove(conn_rid)
    } else {
        t
    };
    if write_ends(sink, engine) {
        released_body(polled, rid)
    } else {
        polled
    }
}

/// The answer of a step of `write-body`.
pub open spec fn written_outcome(
    t: TableView,
    conn_rid: ResourceId,
    sink: SinkPoll,
    engine: EnginePoll,
) -> Outcome<Step<Result<(), HttpError>>> {
    Outcome {
        value: if engine is Failed {
            Step::Done(Err(HttpError::Transport))
        } else {
            match sink {
                SinkPoll::Pending => Step::Pending,
                SinkPoll::Sent => Step::Done(Ok(())),
                SinkPoll::Failed => Step::Done(Err(HttpError::Transport)),
            }
        },
        wake: false,
        closed: engine is Failed && closes(t, conn_rid),
    }
}

/// Lets go of the sink under `rid`, if it is still live.
fn release_body(table: &mut ResourceTable, rid: ResourceId)
    ensures
        old(table)@.wf(),
        final(table)@.wf(),
        final(table)@ == released_body(old(table)@, rid),
{
    proof {
        use_type_invariant(&*table);
    }
    let conn_rid = match table.get(rid) {
        Some(Resource::ResponseBody { conn_rid, .. }) => *conn_rid,
        _ => {
            return ;
        },
    };
    table.replace(rid, Resource::ResponseBody { conn_rid, busy: false });
}

/// One step of `write-body`, after the sink was asked to take the chunk and
/// the engine was polled so that the bytes are flushed.
///
/// An error of the engine fails the write and closes the connection. Else
/// the write goes as the sink says: it is over where the sink took the chunk
/// or is closed, and pending else. A write that is over lets go of the sink.
pub fn op_http_response_write_poll(
    table: &mut ResourceTable,
    rid: ResourceId,
    conn_rid: ResourceId,
    sink: SinkPoll,
    engine: EnginePoll,
) -> (answer: Outcome<Step<Result<(), HttpError>>>)
    ensures
        old(table)@.wf(),
        final(table)@.wf(),
        final(table)@ == written_table(old(table)@, rid, conn_rid, sink, engine),
        answer == written_outcome(old(table)@, conn_rid, sink, engine),
{
    proof {
        use_type_invariant(&*table);
    }
    if let EnginePoll::Failed(_) = engine {
        let closed = match table.close(conn_rid) {
            Some(fired) => fired,
            None => false,
        };
        release_body(table, rid);
        return Outcome { value: Step::Done(Err(HttpError::Transport)), wake: false, closed };
    }
    let value = match sink {
        SinkPoll::Pending => Step::Pending,
        SinkPoll::Sent => Step::Done(Ok(())),
        SinkPoll::Failed => Step::Done(Err(HttpError::Transport)),
    };
    if let Step::Done(_) = value {
        release_body(table, rid);
    }
    Outcome { value, wake: false, closed: false }
}

/// The table after the first step of `close-body`: the sink leaves the
/// table, whether its connection is live or not.
pub open spec fn close_table(t: TableView, rid: ResourceId) -> TableView {
    if t.is_body(rid) {
        t.remove(rid)
    } else {
        t
    }
}

/// The result of the first step of `close-body`: the connection of the
/// sink.
pub open spec fn close_result(t: TableView, rid: ResourceId) -> Result<ResourceId, HttpError> {
    if !t.is_body(rid) || !t.is_connection(parent_of(t, rid)) {
        Err(HttpError::BadResource)
    } else {
        Ok(parent_of(t, rid))
    }
}

/// The first step of `close-body`: takes the sink under `rid` out of the
/// table, and gives its connection, on which the caller drops the sink and
/// polls the engine once. Fails where `rid` names no sink, or where the
/// sink's connection is gone.
pub fn op_http_response_close(table: &mut ResourceTable, rid: ResourceId) -> (conn_rid: Result<
    ResourceId,
    HttpError,
>)
    ensures
        old(table)@.wf(),
        final(table)@.wf(),
        final(table)@ == close_table(old(table)@, rid),
        conn_rid == close_result(old(table)@, rid),
{
    proof {
        use_type_invariant(&*table);
    }
    let conn_rid = match table.get(rid) {
        Some(Resource::ResponseBody { conn_rid, .. }) => *conn_rid,
        _ => {
            return Err(HttpError::BadResource);
        },
    };
    table.take(rid);
    match table.get(conn_rid) {
        Some(Resource::Connection { .. }) => Ok(conn_rid),
        _ => Err(HttpError::BadResource),
    }
}

/// The answer of the second step of `close-body`: the response is complete,
/// so the engine is woken whatever the poll gave.
pub open spec fn flushed_outcome(t: TableView, conn_rid: ResourceId, engine: EnginePoll) -> Outcome<
    Result<(), HttpError>,
> {
    Outcome {
        value: if engine is Failed {
            Err(HttpError::Transport)
        } else {
            Ok(())
        },
        wake: true,
        closed: engine is Failed && closes(t, conn_rid),
    }
}

/// The second step of `close-body`, after the sink was dropped and the
/// engine polled once, so that the end of the body goes out.
///
/// An error of the engine fails the step and closes the connection. In
/// every case the engine is woken: the response is complete, and the next
/// request may come.
pub fn op_http_response_close_flush(table: &mut ResourceTable, conn_rid: ResourceId, engine: EnginePoll) -> (answer:
    Outcome<Result<(), HttpError>>)
    ensures
        old(table)@.wf(),
        final(table)@.wf(),
        final(table)@ == if engine is Failed {
            old(table)@.remove(conn_rid)
        } else {
            old(table)@
        },
        answer == flushed_outcome(old(table)@, conn_rid, engine),
{
    proof {
        use_type_invariant(&*table);
    }
    match engine {
        EnginePoll::Failed(_) => {
            let closed = match table.close(conn_rid) {
                Some(fired) => fired,
                None => false,
            };
            Outcome { value: Err(HttpError::Transport), wake: true, closed }
        },
        _ => Outcome { value: Ok(()), wake: true, closed: false },
    }
}

} // verus!
