//! The request side: the pull reader over a request's body, and the steps of
//! `read-request`.

use crate::conn::EnginePoll;
use crate::error::HttpError;
use crate::outcome::{Outcome, Step};
use crate::response::{closes, parent_of};
use crate::table::{Resource, ResourceId, ResourceTable, ResourceView, RequestState, TableView};
use std::collections::VecDeque;
use vstd::prelude::*;

verus! {

/// A pull reader over the body of one request: the engine's chunks go in as
/// they arrive, and reads of any length take the bytes out in the same order.
pub struct BodyReader {
    data: VecDeque<u8>,
    ended: bool,
}

/// The mathematical value of a reader.
pub struct ReaderView {
    /// The bytes that arrived and were not read yet.
    pub buffered: Seq<u8>,
    /// Whether the body's end arrived.
    pub ended: bool,
}

impl View for BodyReader {
    type V = ReaderView;

    closed spec fn view(&self) -> ReaderView {
        ReaderView { buffered: self.data@, ended: self.ended }
    }
}

/// The number of bytes that one read takes: as many as are buffered, and no
/// more than the buffer holds.
pub open spec fn read_count(buffered: Seq<u8>, room: int) -> int {
    if buffered.len() <= room {
        buffered.len() as int
    } else {
        room
    }
}

/// A buffer after a read put `count` bytes at its start.
pub open spec fn filled(buf: Seq<u8>, buffered: Seq<u8>, count: int) -> Seq<u8> {
    buffered.subrange(0, count) + buf.subrange(count, buf.len() as int)
}

impl BodyReader {
    /// A reader that holds nothing, on a body that has not ended.
    pub fn new() -> (reader: BodyReader)
        ensures
            reader@.buffered == Seq::<u8>::empty(),
            !reader@.ended,
    {
        BodyReader { data: VecDeque::new(), ended: false }
    }

    /// The number of bytes that wait to be read.
    pub fn buffered_len(&self) -> (len: usize)
        ensures
            len == self@.buffered.len(),
    {
        self.data.len()
    }

    /// Whether the body's end arrived.
    pub fn is_ended(&self) -> (ended: bool)
        ensures
            ended == self@.ended,
    {
        self.ended
    }

    /// Takes in a chunk of the body, behind what is buffered.
    pub fn feed(&mut self, chunk: &[u8])
        ensures
            final(self)@.buffered == old(self)@.buffered + chunk@,
            final(self)@.ended == old(self)@.ended,
    {
        let mut i: usize = 0;
        while i < chunk.len()
            invariant
                0 <= i <= chunk@.len(),
                self.data@ == old(self).data@ + chunk@.subrange(0, i as int),
                self.ended == old(self).ended,
            decreases chunk@.len() - i,
        {
            self.data.push_back(chunk[i]);
            assert(self.data@ =~= old(self).data@ + chunk@.subrange(0, i + 1));
            i += 1;
        }
        assert(chunk@.subrange(0, i as int) =~= chunk@);
    }

    /// Notes that the body has ended.
    pub fn finish(&mut self)
        ensures
            final(self)@.buffered == old(self)@.buffered,
            final(self)@.ended,
    {
        self.ended = true;
    }

    /// Moves buffered bytes to the start of `buf`: as many as are buffered
    /// and fit. The rest of `buf` stays as it is, and so does the rest of what
    /// is buffered.
    pub fn read(&mut self, buf: &mut Vec<u8>) -> (count: usize)
        ensures
            count == read_count(old(self)@.buffered, old(buf)@.len() as int),
            final(buf)@ == filled(old(buf)@, old(self)@.buffered, count as int),
            final(self)@.buffered == old(self)@.buffered.subrange(
                count as int,
                old(self)@.buffered.len() as int,
            ),
            final(self)@.ended == old(self)@.ended,
    {
        let ghost buffered = self.data@;
        let mut count: usize = 0;
        while count < buf.len() && self.data.len() > 0
            invariant
                buf@.len() == old(buf)@.len(),
                0 <= count <= buf@.len(),
                count <= buffered.len(),
                buffered == old(self).data@,
                self.data@ == buffered.subrange(count as int, buffered.len() as int),
                buf@ == filled(old(buf)@, buffered, count as int),
                self.ended == old(self).ended,
            decreases buf@.len() - count,
        {
            match self.data.pop_front() {
                Some(byte) => {
                    buf[count] = byte;
                    assert(byte == buffered[count as int]);
                    assert(self.data@ =~= buffered.subrange(count + 1, buffered.len() as int));
                    assert(buf@ =~= filled(old(buf)@, buffered, count + 1));
                    count += 1;
                },
                None => {},
            }
        }
        count
    }
}

/// The request under `rid`, held by a read or released.
pub open spec fn held_request(t: TableView, rid: ResourceId, busy: bool) -> ResourceView {
    ResourceView::Request { conn_rid: parent_of(t, rid), state: RequestState::Reading, busy }
}

/// The result of the first step of `read-request`: the connection of the
/// request.
pub open spec fn read_result(t: TableView, rid: ResourceId, buffer: bool) -> Result<
    ResourceId,
    HttpError,
> {
    if !buffer {
        Err(HttpError::NullBuffer)
    } else if !t.is_request(rid) || !t.is_connection(parent_of(t, rid)) {
        Err(HttpError::BadResource)
    } else if t.resources[rid]->Request_busy {
        Err(HttpError::Busy)
    } else {
        Ok(parent_of(t, rid))
    }
}

/// The first step of `read-request`: takes hold of the body of the request
/// under `rid`, which from then on is being read and cannot be upgraded.
/// Fails, and changes nothing, without a buffer, without a live request on a
/// live connection, or while another read holds the body.
pub fn op_http_request_read(table: &mut ResourceTable, rid: ResourceId, buffer: bool) -> (conn_rid:
    Result<ResourceId, HttpError>)
    ensures
        old(table)@.wf(),
        final(table)@.wf(),
        final(table)@ == if read_result(old(table)@, rid, buffer) is Ok {
            old(table)@.put(rid, held_request(old(table)@, rid, true))
        } else {
            old(table)@
        },
        conn_rid == read_result(old(table)@, rid, buffer),
{
    proof {
        use_type_invariant(&*table);
    }
    if !buffer {
        return Err(HttpError::NullBuffer);
    }
    let conn_rid = match table.get(rid) {
        Some(Resource::Request { conn_rid, busy, .. }) => {
            let (conn_rid, busy) = (*conn_rid, *busy);
            match table.get(conn_rid) {
                Some(Resource::Connection { .. }) => {},
                _ => {
                    return Err(HttpError::BadResource);
                },
            }
            if busy {
                return Err(HttpError::Busy);
            }
            conn_rid
        },
        _ => {
            return Err(HttpError::BadResource);
        },
    };
    table.replace(rid, Resource::Request { conn_rid, state: RequestState::Reading, busy: true });
    Ok(conn_rid)
}

/// What the body of a request gave when a read asked it for more.
#[derive(Clone, Debug, PartialEq, Eq)]
pub enum BodyEvent {
    /// The request's cancel token fired.
    Cancelled,
    /// Nothing new: no chunk has arrived, or the body was not asked because
    /// bytes are buffered.
    Pending,
    /// The next chunk.
    Chunk(Vec<u8>),
    /// The end of the body.
    End,
    /// The body's stream broke.
    Failed,
}

/// What a reader holds once it took in what the body gave.
pub open spec fn fed(reader: ReaderView, body: BodyEvent) -> ReaderView {
    match body {
        BodyEvent::Chunk(chunk) => ReaderView {
            buffered: reader.buffered + chunk@,
            ended: reader.ended,
        },
        BodyEvent::End => ReaderView { buffered: reader.buffered, ended: true },
        _ => reader,
    }
}

/// Whether a step of `read-request` fails without reading: the engine
/// failed, the read was cancelled, or the body's stream broke.
pub open spec fn read_aborts(engine: EnginePoll, body: BodyEvent) -> bool {
    engine is Failed || body is Cancelled || body is Failed
}

/// Whether a step of `read-request` that does not abort has to wait: the
/// buffer has room, nothing is buffered, and the body has not ended.
pub open spec fn read_waits(reader: ReaderView, room: int) -> bool {
    room > 0 && reader.buffered.len() == 0 && !reader.ended
}

/// The table without the hold of a read on the request under `rid`, if the
/// request is still live.
pub open spec fn released_request(t: TableView, rid: ResourceId) -> TableView {
    if t.is_request(rid) {
        t.put(rid, held_request(t, rid, false))
    } else {
        t
    }
}

/// Whether a step of `read-request` ends the read.
pub open spec fn read_ends(reader: ReaderView, room: int, engine: EnginePoll, body: BodyEvent) -> bool {
    read_aborts(engine, body) || !read_waits(fed(reader, body), room)
}

/// The table after a step of `read-request`: an engine that failed has its
/// connection closed, and a read that is over lets go of the request.
pub open spec fn read_table(
    t: TableView,
    rid: ResourceId,
    conn_rid: ResourceId,
    ends: bool,
    engine: EnginePoll,
) -> TableView {
    let polled = if engine is Failed {
        t.remove(conn_rid)
    } else {
        t
    };
    if ends {
        released_request(polled, rid)
    } else {
        polled
    }
}

/// The answer of a step of `read-request`: the number of bytes read, 0 at
/// the end of the body.
pub open spec fn read_answer(reader: ReaderView, room: int, engine: EnginePoll, body: BodyEvent) -> Step<
    Result<usize, HttpError>,
> {
    if engine is Failed {
        Step::Done(Err(HttpError::Transport))
    } else if body is Cancelled {
        Step::Done(Err(HttpError::Cancelled))
    } else if body is Failed {
        Step::Done(Err(HttpError::Transport))
    } else if read_waits(fed(reader, body), room) {
        Step::Pending
    } else {
        Step::Done(Ok(read_count(fed(reader, body).buffered, room) as usize))
    }
}

/// Lets go of the request under `rid`, if it is still live.
fn release_request(table: &mut ResourceTable, rid: ResourceId)
    ensures
        old(table)@.wf(),
        final(table)@.wf(),
        final(table)@ == released_request(old(table)@, rid),
{
    proof {
        use_type_invariant(&*table);
    }
    let conn_rid = match table.get(rid) {
        Some(Resource::Request { conn_rid, .. }) => *conn_rid,
        _ => {
            return ;
        },
    };
    table.replace(rid, Resource::Request { conn_rid, state: RequestState::Reading, busy: false });
}

/// One step of `read-request`, after the engine was polled so that body
/// frames keep arriving, and the body, unless the engine failed, was asked
/// for more.
///
/// An error of the engine fails the read and closes the connection; a
/// cancellation or a broken body fails the read too. None of these touches
/// the buffer or what the reader holds. Else the reader takes in what the
/// body gave, and the read moves up to `buf.len()` buffered bytes to the
/// start of `buf` and answers their number: 0 where the buffer has no room
/// or the body has ended. With room, nothing buffered and no end in sight
/// the read is pending. A read that is over lets go of the request.
pub fn op_http_request_read_poll(
    table: &mut ResourceTable,
    rid: ResourceId,
    conn_rid: ResourceId,
    reader: &mut BodyReader,
    buf: &mut Vec<u8>,
    engine: EnginePoll,
    body: BodyEvent,
) -> (answer: Outcome<Step<Result<usize, HttpError>>>)
    ensures
        old(table)@.wf(),
        final(table)@.wf(),
        final(table)@ == read_table(
            old(table)@,
            rid,
            conn_rid,
            read_ends(old(reader)@, old(buf)@.len() as int, engine, body),
            engine,
        ),
        answer.value == read_answer(old(reader)@, old(buf)@.len() as int, engine, body),
        !answer.wake,
        answer.closed == (engine is Failed && closes(old(table)@, conn_rid)),
        final(buf)@.len() == old(buf)@.len(),
        if read_aborts(engine, body) {
            final(reader)@ == old(reader)@ && final(buf)@ == old(buf)@
        } else {
            let taken = fed(old(reader)@, body);
            let count = read_count(taken.buffered, old(buf)@.len() as int);
            &&& final(buf)@ == filled(old(buf)@, taken.buffered, count)
            &&& final(reader)@.buffered == taken.buffered.subrange(
                count,
                taken.buffered.len() as int,
            )
            &&& final(reader)@.ended == taken.ended
        },
{
    proof {
        use_type_invariant(&*table);
    }
    if let EnginePoll::Failed(_) = engine {
        let closed = match table.close(conn_rid) {
            Some(fired) => fired,
            None => false,
        };
        release_request(table, rid);
        return Outcome { value: Step::Done(Err(HttpError::Transport)), wake: false, closed };
    }
    match body {
        BodyEvent::Cancelled => {
            release_request(table, rid);
            return Outcome { value: Step::Done(Err(HttpError::Cancelled)), wake: false, closed: false };
        },
        BodyEvent::Failed => {
            release_request(table, rid);
            return Outcome { value: Step::Done(Err(HttpError::Transport)), wake: false, closed: false };
        },
        BodyEvent::Chunk(chunk) => {
            reader.feed(chunk.as_slice());
        },
        BodyEvent::End => {
            reader.finish();
        },
        BodyEvent::Pending => {},
    }
    if buf.len() > 0 && reader.buffered_len() == 0 && !reader.is_ended() {
        return Outcome { value: Step::Pending, wake: false, closed: false };
    }
    let count = reader.read(buf);
    release_request(table, rid);
    assert(final(buf)@ =~= filled(old(buf)@, fed(old(reader)@, body).buffered, count as int));
    Outcome { value: Step::Done(Ok(count)), wake: false, closed: false }
}

} // verus!
