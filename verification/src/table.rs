//! The resource table: opaque integer handles for connections, requests,
//! response senders, response bodies and WebSocket sessions.

use std::collections::BTreeMap;
use vstd::prelude::*;

verus! {

broadcast use {vstd::std_specs::btree::group_btree_axioms, vstd::laws_cmp::group_laws_cmp};

/// An opaque handle into the resource table.
pub type ResourceId = u32;

/// The scheme that a connection serves.
#[derive(Clone, Copy, Debug, PartialEq, Eq, Structural)]
pub enum Scheme {
    Http,
    Https,
}

/// The two shapes of a request's body.
#[derive(Clone, Copy, Debug, PartialEq, Eq, Structural)]
pub enum RequestState {
    /// The request still holds its body stream: nothing was read.
    Fresh,
    /// The body was turned into a pull reader by the first read.
    Reading,
}

/// What the table keeps for one handle.
#[derive(Clone, Debug, PartialEq, Eq)]
pub enum Resource {
    /// A served connection.
    Connection { scheme: Scheme, addr: String },
    /// A request whose body may follow, or that may be upgraded. `busy` says
    /// that a read holds its body.
    Request { conn_rid: ResourceId, state: RequestState, busy: bool },
    /// The one-shot sender of a request's response.
    ResponseSender { conn_rid: ResourceId },
    /// The chunk sink of a streamed response. `busy` says that a write holds
    /// the sink.
    ResponseBody { conn_rid: ResourceId, busy: bool },
    /// A WebSocket session that took over a connection's byte stream.
    WebSocket,
}

/// The mathematical value of a resource.
pub enum ResourceView {
    Connection { scheme: Scheme, addr: Seq<char> },
    Request { conn_rid: ResourceId, state: RequestState, busy: bool },
    ResponseSender { conn_rid: ResourceId },
    ResponseBody { conn_rid: ResourceId, busy: bool },
    WebSocket,
}

impl View for Resource {
    type V = ResourceView;

    open spec fn view(&self) -> ResourceView {
        match self {
            Resource::Connection { scheme, addr } => ResourceView::Connection {
                scheme: *scheme,
                addr: addr@,
            },
            Resource::Request { conn_rid, state, busy } => ResourceView::Request {
                conn_rid: *conn_rid,
                state: *state,
                busy: *busy,
            },
            Resource::ResponseSender { conn_rid } => ResourceView::ResponseSender {
                conn_rid: *conn_rid,
            },
            Resource::ResponseBody { conn_rid, busy } => ResourceView::ResponseBody {
                conn_rid: *conn_rid,
                busy: *busy,
            },
            Resource::WebSocket => ResourceView::WebSocket,
        }
    }
}

impl ResourceView {
    /// Whether closing the resource fires a cancel token: connections and
    /// requests own one.
    pub open spec fn owns_cancel_token(self) -> bool {
        self is Connection || self is Request
    }

    /// The name under which the host lists the resource.
    pub open spec fn name(self) -> Seq<char> {
        match self {
            ResourceView::Connection { .. } => "httpConnection"@,
            ResourceView::Request { .. } => "request"@,
            ResourceView::ResponseSender { .. } => "responseSender"@,
            ResourceView::ResponseBody { .. } => "responseBody"@,
            ResourceView::WebSocket => "webSocketStream"@,
        }
    }

    /// The connection that the resource belongs to, if it is the child of
    /// one.
    pub open spec fn parent(self) -> Option<ResourceId> {
        match self {
            ResourceView::Request { conn_rid, .. } => Some(conn_rid),
            ResourceView::ResponseSender { conn_rid } => Some(conn_rid),
            ResourceView::ResponseBody { conn_rid, .. } => Some(conn_rid),
            _ => None,
        }
    }
}

impl Resource {
    /// The name under which the host lists the resource.
    pub fn name(&self) -> (name: &'static str)
        ensures
            name@ == self@.name(),
    {
        match self {
            Resource::Connection { .. } => "httpConnection",
            Resource::Request { .. } => "request",
            Resource::ResponseSender { .. } => "responseSender",
            Resource::ResponseBody { .. } => "responseBody",
            Resource::WebSocket => "webSocketStream",
        }
    }

    /// Closes the resource. Says whether its cancel token fired, so that
    /// whoever awaits on the resource is woken with a cancellation.
    pub fn close(self) -> (fired: bool)
        ensures
            fired == self@.owns_cancel_token(),
    {
        match self {
            Resource::Connection { .. } => true,
            Resource::Request { .. } => true,
            _ => false,
        }
    }
}

/// The mathematical value of the table: the live resources by handle, and
/// the handle that the next resource gets.
pub struct TableView {
    pub resources: Map<ResourceId, ResourceView>,
    pub next_rid: int,
}

impl TableView {
    /// Handles are given out in rising order and never twice: each live
    /// handle is below the next one.
    pub open spec fn wf(self) -> bool {
        &&& 0 <= self.next_rid <= u32::MAX
        &&& forall|rid: ResourceId| #[trigger]
            self.resources.contains_key(rid) ==> rid < self.next_rid
    }

    /// Whether the table has a handle left to give out.
    pub open spec fn has_room(self, count: int) -> bool {
        self.next_rid + count <= u32::MAX
    }

    /// Whether `rid` names a resource.
    pub open spec fn has(self, rid: ResourceId) -> bool {
        self.resources.contains_key(rid)
    }

    /// Whether `rid` names a live connection.
    pub open spec fn is_connection(self, rid: ResourceId) -> bool {
        self.has(rid) && self.resources[rid] is Connection
    }

    /// Whether `rid` names a request.
    pub open spec fn is_request(self, rid: ResourceId) -> bool {
        self.has(rid) && self.resources[rid] is Request
    }

    /// Whether `rid` names a response sender.
    pub open spec fn is_sender(self, rid: ResourceId) -> bool {
        self.has(rid) && self.resources[rid] is ResponseSender
    }

    /// Whether `rid` names a response body.
    pub open spec fn is_body(self, rid: ResourceId) -> bool {
        self.has(rid) && self.resources[rid] is ResponseBody
    }

    /// The table with one more resource, under the next handle.
    pub open spec fn add(self, resource: ResourceView) -> TableView {
        TableView {
            resources: self.resources.insert(self.next_rid as ResourceId, resource),
            next_rid: self.next_rid + 1,
        }
    }

    /// The table without the resource under `rid`.
    pub open spec fn remove(self, rid: ResourceId) -> TableView {
        TableView { resources: self.resources.remove(rid), next_rid: self.next_rid }
    }

    /// The table with the resource under `rid` replaced.
    pub open spec fn put(self, rid: ResourceId, resource: ResourceView) -> TableView {
        TableView { resources: self.resources.insert(rid, resource), next_rid: self.next_rid }
    }
}

/// The resource table of one host session.
pub struct ResourceTable {
    index: BTreeMap<ResourceId, Resource>,
    next_rid: ResourceId,
}

impl View for ResourceTable {
    type V = TableView;

    closed spec fn view(&self) -> TableView {
        TableView {
            resources: Map::new(
                |rid: ResourceId| self.index@.contains_key(rid),
                |rid: ResourceId| self.index@[rid]@,
            ),
            next_rid: self.next_rid as int,
        }
    }
}

impl ResourceTable {
    /// Each live handle is below the next one.
    #[verifier::type_invariant]
    pub open spec fn inv(&self) -> bool {
        self@.wf()
    }

    /// An empty table, whose first handle is 0.
    pub fn new() -> (table: ResourceTable)
        ensures
            table@.resources == Map::<ResourceId, ResourceView>::empty(),
            table@.next_rid == 0,
            table@.wf(),
    {
        let table = ResourceTable { index: BTreeMap::new(), next_rid: 0 };
        assert(table@.resources =~= Map::<ResourceId, ResourceView>::empty());
        table
    }

    /// Whether the table can still take `count` resources.
    pub fn has_room(&self, count: u32) -> (room: bool)
        ensures
            room == self@.has_room(count as int),
            self@.wf(),
    {
        proof {
            use_type_invariant(self);
        }
        self.next_rid <= u32::MAX - count
    }

    /// Puts a resource into the table and returns its handle, which no
    /// resource had before.
    pub fn add(&mut self, resource: Resource) -> (rid: ResourceId)
        requires
            old(self)@.has_room(1),
        ensures
            rid == old(self)@.next_rid,
            !old(self)@.has(rid),
            final(self)@ == old(self)@.add(resource@),
            old(self)@.wf(),
            final(self)@.wf(),
    {
        proof {
            use_type_invariant(&*self);
        }
        let rid = self.next_rid;
        let mut index: BTreeMap<ResourceId, Resource> = BTreeMap::new();
        core::mem::swap(&mut self.index, &mut index);
        index.insert(rid, resource);
        self.next_rid = rid + 1;
        assert(index@ == old(self).index@.insert(rid, resource));
        assert forall|k: ResourceId| index@.contains_key(k) implies k <= rid by {
            if k != rid {
                assert(old(self)@.resources.contains_key(k));
            }
        }
        core::mem::swap(&mut self.index, &mut index);
        assert(final(self)@.resources =~= old(self)@.resources.insert(rid, resource@));
        rid
    }

    /// Whether `rid` names a resource.
    pub fn has(&self, rid: ResourceId) -> (found: bool)
        ensures
            found == self@.has(rid),
            self@.wf(),
    {
        proof {
            use_type_invariant(self);
        }
        self.index.contains_key(&rid)
    }

    /// The resource under `rid`, if there is one.
    pub fn get(&self, rid: ResourceId) -> (found: Option<&Resource>)
        ensures
            match found {
                Some(resource) => self@.has(rid) && resource@ == self@.resources[rid],
                None => !self@.has(rid),
            },
            self@.wf(),
    {
        proof {
            use_type_invariant(self);
        }
        self.index.get(&rid)
    }

    /// Takes the resource under `rid` out of the table.
    pub fn take(&mut self, rid: ResourceId) -> (taken: Option<Resource>)
        ensures
            match taken {
                Some(resource) => old(self)@.has(rid) && resource@ == old(self)@.resources[rid],
                None => !old(self)@.has(rid),
            },
            final(self)@ == old(self)@.remove(rid),
            old(self)@.wf(),
            final(self)@.wf(),
    {
        proof {
            use_type_invariant(&*self);
        }
        let mut index: BTreeMap<ResourceId, Resource> = BTreeMap::new();
        core::mem::swap(&mut self.index, &mut index);
        let taken = index.remove(&rid);
        assert(index@ == old(self).index@.remove(rid));
        assert forall|k: ResourceId| index@.contains_key(k) implies old(self)@.has(k) by {
            assert(old(self).index@.contains_key(k));
        }
        core::mem::swap(&mut self.index, &mut index);
        assert(final(self)@.resources =~= old(self)@.resources.remove(rid));
        taken
    }

    /// Closes the resource under `rid`: it leaves the table, and the answer
    /// says whether its cancel token fired.
    pub fn close(&mut self, rid: ResourceId) -> (closed: Option<bool>)
        ensures
            closed == if old(self)@.has(rid) {
                Some(old(self)@.resources[rid].owns_cancel_token())
            } else {
                None
            },
            final(self)@ == old(self)@.remove(rid),
            old(self)@.wf(),
            final(self)@.wf(),
    {
        match self.take(rid) {
            Some(resource) => Some(resource.close()),
            None => None,
        }
    }

    /// Replaces the resource under `rid`, which must be live.
    pub fn replace(&mut self, rid: ResourceId, resource: Resource)
        requires
            old(self)@.has(rid),
        ensures
            final(self)@ == old(self)@.put(rid, resource@),
            old(self)@.wf(),
            final(self)@.wf(),
    {
        proof {
            use_type_invariant(&*self);
        }
        let mut index: BTreeMap<ResourceId, Resource> = BTreeMap::new();
        core::mem::swap(&mut self.index, &mut index);
        index.insert(rid, resource);
        assert(index@ == old(self).index@.insert(rid, resource));
        assert forall|k: ResourceId| index@.contains_key(k) implies old(self)@.has(k) by {
            assert(old(self).index@.contains_key(k));
        }
        core::mem::swap(&mut self.index, &mut index);
        assert(final(self)@.resources =~= old(self)@.resources.insert(rid, resource@));
    }
}

} // verus!
