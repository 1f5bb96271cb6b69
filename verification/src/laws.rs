//! The guarantees the session core makes across several operations, proved
//! over the abstract client model that every operation's contract speaks of.

use vstd::prelude::*;

use crate::client::ClientModel;
use crate::client::accept_action;
use crate::client::create_failure_note;
use crate::client::delivered_prefix;
use crate::client::reject_action;
use crate::client::remaining_suffix;
use crate::client::resolved;
use crate::client::route_call_ok;
use crate::client::routed;
use crate::events::HandlerCall;
use crate::events::TransportEvent;

verus! {

/// Law: accepting or rejecting an identity with no recorded pending session
/// is a no-op — the client state is unchanged and no transport effect is
/// demanded.
pub proof fn lemma_resolve_without_pending_is_noop<H>(m: ClientModel<H>, identity: u64)
    requires
        !m.pending.contains_key(identity),
    ensures
        resolved(m, identity) == m,
        accept_action(m, identity) is None,
        reject_action(m, identity) is None,
{
    assert(m.pending.remove(identity) =~= m.pending);
    assert(resolved(m, identity) =~= m);
}

/// Law: a recorded connection attempt is consumed exactly once. After the
/// router records the attempt, the first accept demands the recorded
/// capability's accept effect and removes the entry; a second accept of the
/// same identity is a no-op.
pub proof fn lemma_accept_consumes_entry<H>(m: ClientModel<H>, identity: u64, capability: u64)
    requires
        m.ready,
    ensures
        ({
            let after_record = routed(
                m,
                TransportEvent::ConnectionRequested { identity, capability },
            );
            let after_accept = resolved(after_record, identity);
            &&& accept_action(after_record, identity) == Some(
                crate::events::Action::AcceptSession { capability },
            )
            &&& !after_accept.pending.contains_key(identity)
            &&& accept_action(after_accept, identity) is None
            &&& resolved(after_accept, identity) == after_accept
        }),
{
    let after_record = routed(m, TransportEvent::ConnectionRequested { identity, capability });
    let after_accept = resolved(after_record, identity);
    lemma_resolve_without_pending_is_noop(after_accept, identity);
}

/// Law: dispatch reaches only the latest registered handler. After `first`
/// and then `second` are registered for connection requests, routing a
/// request invokes `second`, and never `first` unless the two are the same
/// handler.
pub proof fn lemma_latest_handler_wins<H>(
    m: ClientModel<H>,
    first: H,
    second: H,
    identity: u64,
    capability: u64,
)
    requires
        m.ready,
    ensures
        ({
            let once = ClientModel { on_connection_requested: Some(first), ..m };
            let twice = ClientModel { on_connection_requested: Some(second), ..once };
            let request = TransportEvent::ConnectionRequested { identity, capability };
            let to_second = Some(HandlerCall::ConnectionRequested { handler: second, identity });
            &&& route_call_ok(twice, request, to_second)
            &&& forall|r: Option<HandlerCall<H>>|
                route_call_ok(twice, request, r) ==> r == to_second
            &&& first != second ==> !route_call_ok(
                twice,
                request,
                Some(HandlerCall::ConnectionRequested { handler: first, identity }),
            )
        }),
{
}

/// Law: one receive delivers at most `max` messages, the oldest first and in
/// arrival order, and loses nothing — what it delivers followed by what it
/// leaves queued is exactly the prior queue.
pub proof fn lemma_receive_bounded_and_ordered(q: Seq<(u64, Seq<u8>)>, max: usize)
    ensures
        delivered_prefix(q, max).len() <= max,
        delivered_prefix(q, max).len() + remaining_suffix(q, max).len() == q.len(),
        delivered_prefix(q, max) + remaining_suffix(q, max) == q,
        forall|i: int|
            0 <= i < delivered_prefix(q, max).len() ==> #[trigger] delivered_prefix(q, max)[i]
                == q[i],
{
    assert(delivered_prefix(q, max) + remaining_suffix(q, max) =~= q);
}

/// Law: a completed lobby creation reaches the registered result handler with
/// either a nonzero lobby id and no error, or no id and a nonempty error
/// message.
pub proof fn lemma_lobby_create_outcome_reported<H>(
    m: ClientModel<H>,
    h: H,
    outcome: Result<u64, String>,
    r: Option<HandlerCall<H>>,
)
    requires
        m.ready,
        m.on_lobby_created == Some(h),
        route_call_ok(m, TransportEvent::LobbyCreateCompleted { outcome }, r),
    ensures
        r matches Some(HandlerCall::LobbyCreated { handler, lobby, error }) && handler == h && (
        match outcome {
            Ok(id) => if id != 0 {
                lobby == Some(id) && error is None
            } else {
                &&& lobby is None
                &&& error matches Some(em) && em@.len() > 0
            },
            Err(_) => {
                &&& lobby is None
                &&& error matches Some(em) && em@.len() > 0
            },
        }),
{
    reveal_strlit("lobby creation failed");
    assert(create_failure_note().len() > 0);
}

} // verus!
