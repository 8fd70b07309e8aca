//! The WebSocket upgrade: the request gives up its handle, and the session
//! that takes over the connection's byte stream gets one.

use crate::error::HttpError;
use crate::table::{Resource, ResourceId, ResourceTable, ResourceView, RequestState, TableView};
use vstd::prelude::*;

verus! {

/// Whether `rid` names a request of which nothing was read.
pub open spec fn is_fresh_request(t: TableView, rid: ResourceId) -> bool {
    t.is_request(rid) && t.resources[rid]->Request_state == RequestState::Fresh
}

/// The first step of `upgrade-ws`: takes the request under `rid` out of the
/// table. It succeeds where nothing was read of the request; the caller then
/// awaits the upgraded byte stream from the engine. Where `rid` names no
/// request the table stays as it is.
pub fn op_http_upgrade_websocket(table: &mut ResourceTable, rid: ResourceId) -> (taken: Result<
    (),
    HttpError,
>)
    ensures
        old(table)@.wf(),
        final(table)@.wf(),
        final(table)@ == if old(table)@.is_request(rid) {
            old(table)@.remove(rid)
        } else {
            old(table)@
        },
        taken == if is_fresh_request(old(table)@, rid) {
            Ok::<(), HttpError>(())
        } else {
            Err::<(), HttpError>(HttpError::BadResource)
        },
{
    proof {
        use_type_invariant(&*table);
    }
    let state = match table.get(rid) {
        Some(Resource::Request { state, .. }) => *state,
        _ => {
            return Err(HttpError::BadResource);
        },
    };
    table.take(rid);
    match state {
        RequestState::Fresh => Ok(()),
        RequestState::Reading => Err(HttpError::BadResource),
    }
}

/// The second step of `upgrade-ws`, once the engine has answered for the
/// upgraded byte stream: `upgraded` says whether it handed the stream over.
/// The WebSocket session over the stream gets a new handle; without the
/// stream the step fails and the table stays as it is.
pub fn op_http_upgrade_websocket_done(table: &mut ResourceTable, upgraded: bool) -> (ws_rid: Result<
    ResourceId,
    HttpError,
>)
    requires
        old(table)@.has_room(1),
    ensures
        old(table)@.wf(),
        final(table)@.wf(),
        final(table)@ == if upgraded {
            old(table)@.add(ResourceView::WebSocket)
        } else {
            old(table)@
        },
        ws_rid == if upgraded {
            Ok::<ResourceId, HttpError>(old(table)@.next_rid as ResourceId)
        } else {
            Err::<ResourceId, HttpError>(HttpError::Transport)
        },
{
    proof {
        use_type_invariant(&*table);
    }
    if upgraded {
        Ok(table.add(Resource::WebSocket))
    } else {
        Err(HttpError::Transport)
    }
}

} // verus!
