//! The operations that the adapter offers to the host, by name.

use vstd::prelude::*;

verus! {

/// One operation as the host registers it.
#[derive(Clone, Copy, Debug, PartialEq, Eq)]
pub struct OpDecl {
    /// The name under which the host calls the operation.
    pub name: &'static str,
    /// Whether the operation may suspend.
    pub is_async: bool,
}

/// The names of the operations, in the order of their registration.
pub open spec fn op_names() -> Seq<Seq<char>> {
    seq![
        "op_http_request_next"@,
        "op_http_request_read"@,
        "op_http_response"@,
        "op_http_response_write"@,
        "op_http_response_close"@,
        "op_http_websocket_accept_header"@,
        "op_http_upgrade_websocket"@,
    ]
}

/// The index of the one operation that never suspends: the accept header is
/// a plain computation.
pub open spec fn sync_op() -> int {
    5
}

/// The operations of the adapter: the seven that the host can call, each
/// with its name, all of them asynchronous but the computation of the
/// WebSocket accept header.
pub fn init() -> (ops: Vec<OpDecl>)
    ensures
        ops@.len() == op_names().len(),
        forall|i: int| 0 <= i < ops@.len() ==> (#[trigger] ops@[i]).name@ == op_names()[i],
        forall|i: int| 0 <= i < ops@.len() ==> (#[trigger] ops@[i]).is_async == (i != sync_op()),
{
    let mut ops: Vec<OpDecl> = Vec::new();
    ops.push(OpDecl { name: "op_http_request_next", is_async: true });
    ops.push(OpDecl { name: "op_http_request_read", is_async: true });
    ops.push(OpDecl { name: "op_http_response", is_async: true });
    ops.push(OpDecl { name: "op_http_response_write", is_async: true });
    ops.push(OpDecl { name: "op_http_response_close", is_async: true });
    ops.push(OpDecl { name: "op_http_websocket_accept_header", is_async: false });
    ops.push(OpDecl { name: "op_http_upgrade_websocket", is_async: true });
    ops
}

} // verus!
