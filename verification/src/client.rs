//! The session client: lifecycle, handler registration, event routing, and
//! the decisions behind every host-visible operation.
//!
//! The client is a state machine. The transport shell owns the wire: it
//! performs each [`Action`](crate::events::Action) this core hands back, and
//! feeds every occurrence it observes during a poll step to [`Client::route_event`].
//! All decisions — which handler an event reaches, which pending connection
//! attempt a capability belongs to, what a host call asks of the transport —
//! are made here, over plain values, and stated against the abstract
//! [`ClientModel`].

use vstd::prelude::*;
use vstd::string::StrSliceExecFns;
use vstd::string::StringExecFns;

use crate::events::Action;
use crate::events::HandlerCall;
use crate::events::TransportEvent;
use crate::events::kind_for_code;
use crate::events::reliability_for_flag;
use crate::messages::ChannelQueues;
use crate::messages::msgs_view;
use crate::messages::no_queued_messages;
use crate::pending::PendingTable;
use crate::slot::CallbackSlot;

verus! {

/// A synchronous query's failure: the client is not initialized, or the
/// queried lobby has no members to report (the transport does not distinguish
/// an unknown lobby from an empty one).
#[derive(Clone, Copy, PartialEq, Eq, Structural, Debug)]
pub enum ClientError {
    NotReady,
    NoSuchLobbyOrEmpty,
}

impl ClientError {
    /// The host-facing description of this error.
    pub fn message(&self) -> (r: String)
        ensures
            *self == ClientError::NotReady ==> r@ == "Client not initialized"@,
            *self == ClientError::NoSuchLobbyOrEmpty ==> r@ == "Lobby not found or no members"@,
    {
        match self {
            ClientError::NotReady => String::from_str("Client not initialized"),
            ClientError::NoSuchLobbyOrEmpty => String::from_str("Lobby not found or no members"),
        }
    }
}

/// The abstract state of a session client: whether the transport is up and as
/// whom, the pending connection attempts, the registered handler of each
/// event kind, what is queued on each inbound channel, and how many sends the
/// transport has rejected.
#[verifier::ext_equal]
pub struct ClientModel<H> {
    pub ready: bool,
    pub own_identity: u64,
    pub pending: Map<u64, u64>,
    pub on_connection_requested: Option<H>,
    pub on_connection_failed: Option<H>,
    pub on_lobby_changed: Option<H>,
    pub on_message: Option<H>,
    pub on_lobby_created: Option<H>,
    pub on_lobby_joined: Option<H>,
    pub inbound: Map<u32, Seq<(u64, Seq<u8>)>>,
    pub failed_sends: u64,
}

/// The state of a client never initialized: not ready, the null identity,
/// nothing pending, nothing registered, nothing queued, nothing failed.
pub open spec fn initial_model<H>() -> ClientModel<H> {
    ClientModel {
        ready: false,
        own_identity: 0,
        pending: Map::<u64, u64>::empty(),
        on_connection_requested: None,
        on_connection_failed: None,
        on_lobby_changed: None,
        on_message: None,
        on_lobby_created: None,
        on_lobby_joined: None,
        inbound: no_queued_messages(),
        failed_sends: 0,
    }
}

/// The state after an accept or reject consumed (or failed to find) the
/// pending attempt of `identity`: only that table entry can go away.
pub open spec fn resolved<H>(m: ClientModel<H>, identity: u64) -> ClientModel<H> {
    ClientModel { pending: m.pending.remove(identity), ..m }
}

/// The transport effect an accept of `identity` demands: fire the recorded
/// capability's accept side, or nothing when no attempt is pending.
pub open spec fn accept_action<H>(m: ClientModel<H>, identity: u64) -> Option<Action> {
    if m.pending.contains_key(identity) {
        Some(Action::AcceptSession { capability: m.pending[identity] })
    } else {
        None
    }
}

/// The transport effect a reject of `identity` demands, on the same terms as
/// [`accept_action`].
pub open spec fn reject_action<H>(m: ClientModel<H>, identity: u64) -> Option<Action> {
    if m.pending.contains_key(identity) {
        Some(Action::RejectSession { capability: m.pending[identity] })
    } else {
        None
    }
}

/// The state after the router handled `e`. A client that is not ready ignores
/// events. A connection request records (or supersedes) the pending attempt
/// for its identity; a completed lobby operation consumes its one-shot result
/// handler; everything else only dispatches.
pub open spec fn routed<H>(m: ClientModel<H>, e: TransportEvent) -> ClientModel<H> {
    if !m.ready {
        m
    } else {
        match e {
            TransportEvent::ConnectionRequested { identity, capability } => ClientModel {
                pending: m.pending.insert(identity, capability),
                ..m
            },
            TransportEvent::ConnectionFailed { .. } => m,
            TransportEvent::LobbyMembershipChanged { .. } => m,
            TransportEvent::LobbyCreateCompleted { .. } => ClientModel {
                on_lobby_created: None,
                ..m
            },
            TransportEvent::LobbyJoinCompleted { .. } => ClientModel { on_lobby_joined: None, ..m },
        }
    }
}

/// The error message reported for a lobby creation the transport failed
/// without a word.
pub open spec fn create_failure_note() -> Seq<char> {
    "lobby creation failed"@
}

/// The error message reported for a lobby join the transport failed without a
/// word.
pub open spec fn join_failure_note() -> Seq<char> {
    "lobby join failed"@
}

/// How a lobby operation's transport outcome is reported to the host: a
/// nonzero lobby id means success and carries no error; a zero id or a
/// failure carries no id and an error message — the transport's own words
/// when it gave any, `fallback` otherwise.
pub open spec fn lobby_outcome_ok(
    outcome: Result<u64, String>,
    fallback: Seq<char>,
    lobby: Option<u64>,
    error: Option<String>,
) -> bool {
    match outcome {
        Ok(id) => if id != 0 {
            lobby == Some(id) && error is None
        } else {
            &&& lobby is None
            &&& error matches Some(em) && em@ == fallback
        },
        Err(msg) => {
            &&& lobby is None
            &&& error matches Some(em) && em@ == (if msg@.len() == 0 {
                fallback
            } else {
                msg@
            })
        },
    }
}

/// Which handler invocation routing `e` through `m` yields: none while the
/// client is not ready or the event's slot is empty; otherwise the registered
/// handler with the event's host-visible arguments, lobby outcomes normalized
/// per [`lobby_outcome_ok`].
pub open spec fn route_call_ok<H>(
    m: ClientModel<H>,
    e: TransportEvent,
    r: Option<HandlerCall<H>>,
) -> bool {
    if !m.ready {
        r is None
    } else {
        match e {
            TransportEvent::ConnectionRequested { identity, .. } => r == (match m
                .on_connection_requested {
                Some(h) => Some(HandlerCall::ConnectionRequested { handler: h, identity }),
                None => None::<HandlerCall<H>>,
            }),
            TransportEvent::ConnectionFailed { identity } => r == (match m.on_connection_failed {
                Some(h) => Some(HandlerCall::ConnectionFailed { handler: h, identity }),
                None => None::<HandlerCall<H>>,
            }),
            TransportEvent::LobbyMembershipChanged {
                lobby,
                user_changed,
                making_change,
                change_flags,
            } => r == (match m.on_lobby_changed {
                Some(h) => Some(
                    HandlerCall::LobbyMembershipChanged {
                        handler: h,
                        lobby,
                        user_changed,
                        making_change,
                        change_flags,
                    },
                ),
                None => None::<HandlerCall<H>>,
            }),
            TransportEvent::LobbyCreateCompleted { outcome } => match m.on_lobby_created {
                None => r is None,
                Some(h) => r matches Some(HandlerCall::LobbyCreated { handler, lobby, error })
                    && handler == h && lobby_outcome_ok(outcome, create_failure_note(), lobby, error),
            },
            TransportEvent::LobbyJoinCompleted { outcome } => match m.on_lobby_joined {
                None => r is None,
                Some(h) => r matches Some(HandlerCall::LobbyJoined { handler, lobby, error })
                    && handler == h && lobby_outcome_ok(outcome, join_failure_note(), lobby, error),
            },
        }
    }
}

/// How many of the `q` queued messages one receive bounded by `max` delivers.
pub open spec fn batch_len(q: Seq<(u64, Seq<u8>)>, max: usize) -> int {
    vstd::math::min(max as int, q.len() as int)
}

/// The messages one receive bounded by `max` delivers: the oldest, in arrival
/// order.
pub open spec fn delivered_prefix(q: Seq<(u64, Seq<u8>)>, max: usize) -> Seq<(u64, Seq<u8>)> {
    q.take(batch_len(q, max))
}

/// The messages that stay queued after one receive bounded by `max`, still in
/// arrival order.
pub open spec fn remaining_suffix(q: Seq<(u64, Seq<u8>)>, max: usize) -> Seq<(u64, Seq<u8>)> {
    q.skip(batch_len(q, max))
}

/// Whether `call` invokes `h` with the sender and payload of `msg`.
pub open spec fn is_message_call_for<H>(call: HandlerCall<H>, h: H, msg: (u64, Seq<u8>)) -> bool {
    call matches HandlerCall::MessageReceived { handler, sender, payload } && handler == h
        && sender == msg.0 && payload@ == msg.1
}

/// Which handler invocations delivering `taken` yields: none without a
/// registered message handler (the batch is still consumed), else one call to
/// that handler per message, in order, with the sender and payload of each.
pub open spec fn message_calls_ok<H>(
    handler: Option<H>,
    taken: Seq<(u64, Seq<u8>)>,
    calls: Seq<HandlerCall<H>>,
) -> bool {
    match handler {
        None => calls.len() == 0,
        Some(h) => calls.len() == taken.len() && forall|i: int|
            0 <= i < taken.len() ==> #[trigger] is_message_call_for(calls[i], h, taken[i]),
    }
}

/// The session client. `H` is the opaque handle under which the host
/// registers its event handlers; the core only stores and returns it.
pub struct Client<H> {
    ready: bool,
    own_id: u64,
    pending: PendingTable,
    conn_requested: CallbackSlot<H>,
    conn_failed: CallbackSlot<H>,
    lobby_changed: CallbackSlot<H>,
    message_recv: CallbackSlot<H>,
    lobby_created: CallbackSlot<H>,
    lobby_joined: CallbackSlot<H>,
    inbound: ChannelQueues,
    failed_sends: u64,
}

impl<H> View for Client<H> {
    type V = ClientModel<H>;

    closed spec fn view(&self) -> ClientModel<H> {
        ClientModel {
            ready: self.ready,
            own_identity: if self.ready {
                self.own_id
            } else {
                0
            },
            pending: self.pending@,
            on_connection_requested: self.conn_requested@,
            on_connection_failed: self.conn_failed@,
            on_lobby_changed: self.lobby_changed@,
            on_message: self.message_recv@,
            on_lobby_created: self.lobby_created@,
            on_lobby_joined: self.lobby_joined@,
            inbound: self.inbound@,
            failed_sends: self.failed_sends,
        }
    }
}

impl<H> Client<H> {
    /// A client that has never been initialized.
    pub fn new() -> (c: Self)
        ensures
            c@ == initial_model::<H>(),
    {
        Client {
            ready: false,
            own_id: 0,
            pending: PendingTable::new(),
            conn_requested: CallbackSlot::empty(),
            conn_failed: CallbackSlot::empty(),
            lobby_changed: CallbackSlot::empty(),
            message_recv: CallbackSlot::empty(),
            lobby_created: CallbackSlot::empty(),
            lobby_joined: CallbackSlot::empty(),
            inbound: ChannelQueues::new(),
            failed_sends: 0,
        }
    }

    /// Applies the transport's answer to an initialization attempt. On
    /// success the client becomes ready as the identity the transport
    /// assigned; on failure nothing changes and the transport's error is
    /// passed back to the host.
    pub fn init(&mut self, outcome: Result<u64, String>) -> (r: Result<(), String>)
        ensures
            outcome matches Ok(id) ==> final(self)@ == (ClientModel {
                ready: true,
                own_identity: id,
                ..old(self)@
            }) && r is Ok,
            outcome matches Err(m) ==> final(self)@ == old(self)@ && r == Err::<(), String>(m),
    {
        match outcome {
            Ok(id) => {
                self.ready = true;
                self.own_id = id;
                Ok(())
            },
            Err(msg) => Err(msg),
        }
    }

    /// Drops the transport session. Pending connection attempts and buffered
    /// messages belong to that session and become unreachable; the one-shot
    /// lobby result handlers are dropped with the operations they awaited.
    /// The persistent event handlers stay registered.
    pub fn deinit(&mut self)
        ensures
            final(self)@ == (ClientModel {
                ready: false,
                own_identity: 0,
                pending: Map::<u64, u64>::empty(),
                on_lobby_created: None::<H>,
                on_lobby_joined: None::<H>,
                inbound: no_queued_messages(),
                ..old(self)@
            }),
    {
        self.ready = false;
        self.own_id = 0;
        self.pending.clear();
        self.lobby_created.clear();
        self.lobby_joined.clear();
        self.inbound.clear();
    }

    /// Whether initialization has succeeded and the client has not been
    /// deinitialized since.
    pub fn is_ready(&self) -> (r: bool)
        ensures
            r == self@.ready,
    {
        self.ready
    }

    /// The identity the transport assigned to this client, or 0 while not
    /// ready.
    pub fn own_identity(&self) -> (r: u64)
        ensures
            r == self@.own_identity,
    {
        if self.ready {
            self.own_id
        } else {
            0
        }
    }

    /// Registers the handler invoked when a peer asks to connect, replacing
    /// any earlier one.
    pub fn set_connection_request_callback(&mut self, cb: H)
        ensures
            final(self)@ == (ClientModel { on_connection_requested: Some(cb), ..old(self)@ }),
    {
        self.conn_requested.set(cb);
    }

    /// Registers the handler invoked when a connection attempt fails,
    /// replacing any earlier one.
    pub fn set_connection_failed_callback(&mut self, cb: H)
        ensures
            final(self)@ == (ClientModel { on_connection_failed: Some(cb), ..old(self)@ }),
    {
        self.conn_failed.set(cb);
    }

    /// Registers the handler invoked when a lobby's membership changes,
    /// replacing any earlier one.
    pub fn set_lobby_changed_callback(&mut self, cb: H)
        ensures
            final(self)@ == (ClientModel { on_lobby_changed: Some(cb), ..old(self)@ }),
    {
        self.lobby_changed.set(cb);
    }

    /// Registers the handler invoked for each delivered inbound message,
    /// replacing any earlier one.
    pub fn set_message_recv_callback(&mut self, cb: H)
        ensures
            final(self)@ == (ClientModel { on_message: Some(cb), ..old(self)@ }),
    {
        self.message_recv.set(cb);
    }

    /// Consumes the pending attempt of `steam_id` and demands its accept
    /// effect; silently a no-op when nothing is pending for that identity
    /// (the peer may have given up first — that race is benign).
    pub fn accept_connection(&mut self, steam_id: u64) -> (a: Option<Action>)
        ensures
            final(self)@ == resolved(old(self)@, steam_id),
            a == accept_action(old(self)@, steam_id),
    {
        match self.pending.resolve(steam_id) {
            Some(capability) => Some(Action::AcceptSession { capability }),
            None => None,
        }
    }

    /// Consumes the pending attempt of `steam_id` and demands its reject
    /// effect; silently a no-op when nothing is pending, as with
    /// [`Client::accept_connection`].
    pub fn reject_connection(&mut self, steam_id: u64) -> (a: Option<Action>)
        ensures
            final(self)@ == resolved(old(self)@, steam_id),
            a == reject_action(old(self)@, steam_id),
    {
        match self.pending.resolve(steam_id) {
            Some(capability) => Some(Action::RejectSession { capability }),
            None => None,
        }
    }

    /// Queues one message the shell drained from the wire, behind everything
    /// already queued on its channel. Ignored while not ready: nothing can
    /// arrive from a transport that is down.
    pub fn push_message(&mut self, channel: u32, sender: u64, payload: Vec<u8>)
        ensures
            old(self)@.ready ==> final(self)@ == (ClientModel {
                inbound: old(self)@.inbound.insert(
                    channel,
                    old(self)@.inbound[channel].push((sender, payload@)),
                ),
                ..old(self)@
            }),
            !old(self)@.ready ==> final(self)@ == old(self)@,
    {
        if self.ready {
            self.inbound.push(channel, sender, payload);
        }
    }

    /// Asks the transport to create a lobby of the kind `lobby_type` encodes,
    /// and registers `on_created` to receive the one-shot result when it
    /// completes during a later poll step. A no-op while not ready.
    pub fn create_lobby(&mut self, lobby_type: u32, max_members: u32, on_created: H) -> (a: Option<
        Action,
    >)
        ensures
            old(self)@.ready ==> final(self)@ == (ClientModel {
                on_lobby_created: Some(on_created),
                ..old(self)@
            }) && a == Some(
                Action::CreateLobby { kind: kind_for_code(lobby_type), max_members },
            ),
            !old(self)@.ready ==> final(self)@ == old(self)@ && a is None,
    {
        if !self.ready {
            return None;
        }
        self.lobby_created.set(on_created);
        Some(Action::CreateLobby { kind: crate::events::lobby_kind_of(lobby_type), max_members })
    }

    /// Asks the transport to join `lobby_id`, and registers `on_joined` to
    /// receive the one-shot result. A no-op while not ready.
    pub fn join_lobby(&mut self, lobby_id: u64, on_joined: H) -> (a: Option<Action>)
        ensures
            old(self)@.ready ==> final(self)@ == (ClientModel {
                on_lobby_joined: Some(on_joined),
                ..old(self)@
            }) && a == Some(Action::JoinLobby { lobby: lobby_id }),
            !old(self)@.ready ==> final(self)@ == old(self)@ && a is None,
    {
        if !self.ready {
            return None;
        }
        self.lobby_joined.set(on_joined);
        Some(Action::JoinLobby { lobby: lobby_id })
    }

    /// Asks the transport to leave `lobby_id`, fire-and-forget. A no-op while
    /// not ready.
    pub fn leave_lobby(&self, lobby_id: u64) -> (a: Option<Action>)
        ensures
            self@.ready ==> a == Some(Action::LeaveLobby { lobby: lobby_id }),
            !self@.ready ==> a is None,
    {
        if self.ready {
            Some(Action::LeaveLobby { lobby: lobby_id })
        } else {
            None
        }
    }

    /// The members of a lobby, as the transport reported them. An empty
    /// report is an error: the transport does not tell an unknown lobby from
    /// one with no members, and this query passes that conflation on
    /// deliberately.
    pub fn get_lobby_members(&self, members: Vec<u64>) -> (r: Result<Vec<u64>, ClientError>)
        ensures
            !self@.ready ==> r == Err::<Vec<u64>, ClientError>(ClientError::NotReady),
            self@.ready && members@.len() == 0 ==> r == Err::<Vec<u64>, ClientError>(
                ClientError::NoSuchLobbyOrEmpty,
            ),
            self@.ready && members@.len() > 0 ==> r == Ok::<Vec<u64>, ClientError>(members),
    {
        if !self.ready {
            Err(ClientError::NotReady)
        } else if members.len() == 0 {
            Err(ClientError::NoSuchLobbyOrEmpty)
        } else {
            Ok(members)
        }
    }

    /// The transport send this host call demands: the addressee, the delivery
    /// mode its flag encodes, the channel and the payload. A no-op while not
    /// ready.
    pub fn send_message_to(
        &self,
        steam_id: u64,
        message_type: i32,
        channel: u32,
        message: Vec<u8>,
    ) -> (a: Option<Action>)
        ensures
            self@.ready ==> a == Some(
                Action::SendMessage {
                    identity: steam_id,
                    reliability: reliability_for_flag(message_type),
                    channel,
                    payload: message,
                },
            ),
            !self@.ready ==> a is None,
    {
        if self.ready {
            Some(
                Action::SendMessage {
                    identity: steam_id,
                    reliability: crate::events::reliability_of(message_type),
                    channel,
                    payload: message,
                },
            )
        } else {
            None
        }
    }

    /// Records that the transport rejected a send. Sends are fire-and-forget
    /// toward the host, but their failures stay observable here for
    /// diagnostics; the count saturates rather than wraps.
    pub fn note_send_failure(&mut self)
        ensures
            final(self)@ == (ClientModel {
                failed_sends: if old(self)@.failed_sends == u64::MAX {
                    u64::MAX
                } else {
                    (old(self)@.failed_sends + 1) as u64
                },
                ..old(self)@
            }),
    {
        if self.failed_sends != u64::MAX {
            self.failed_sends = self.failed_sends + 1;
        }
    }

    /// How many sends the transport has rejected since the client was built.
    pub fn failed_sends(&self) -> (r: u64)
        ensures
            r == self@.failed_sends,
    {
        self.failed_sends
    }
}

impl<H: Copy> Client<H> {
    /// Routes one occurrence the shell observed during a poll step: updates
    /// the state as [`routed`] says and decides the handler invocation as
    /// [`route_call_ok`] says. Ignores everything while not ready.
    pub fn route_event(&mut self, event: TransportEvent) -> (r: Option<HandlerCall<H>>)
        ensures
            final(self)@ == routed(old(self)@, event),
            route_call_ok(old(self)@, event, r),
    {
        if !self.ready {
            return None;
        }
        match event {
            TransportEvent::ConnectionRequested { identity, capability } => {
                self.pending.record(identity, capability);
                match self.conn_requested.target() {
                    Some(h) => Some(HandlerCall::ConnectionRequested { handler: h, identity }),
                    None => None,
                }
            },
            TransportEvent::ConnectionFailed { identity } => match self.conn_failed.target() {
                Some(h) => Some(HandlerCall::ConnectionFailed { handler: h, identity }),
                None => None,
            },
            TransportEvent::LobbyMembershipChanged {
                lobby,
                user_changed,
                making_change,
                change_flags,
            } => match self.lobby_changed.target() {
                Some(h) => Some(
                    HandlerCall::LobbyMembershipChanged {
                        handler: h,
                        lobby,
                        user_changed,
                        making_change,
                        change_flags,
                    },
                ),
                None => None,
            },
            TransportEvent::LobbyCreateCompleted { outcome } => match self.lobby_created.take() {
                Some(h) => {
                    let (lobby, error) = normalize_lobby_outcome(outcome, "lobby creation failed");
                    Some(HandlerCall::LobbyCreated { handler: h, lobby, error })
                },
                None => None,
            },
            TransportEvent::LobbyJoinCompleted { outcome } => match self.lobby_joined.take() {
                Some(h) => {
                    let (lobby, error) = normalize_lobby_outcome(outcome, "lobby join failed");
                    Some(HandlerCall::LobbyJoined { handler: h, lobby, error })
                },
                None => None,
            },
        }
    }

    /// Hands out the oldest messages queued on `channel`, at most
    /// `max_messages` of them, in arrival order, each as an invocation of the
    /// registered message handler. Messages beyond the bound stay queued for
    /// the next call; the batch is consumed even while no handler is
    /// registered. A no-op while not ready.
    pub fn receive_messages(&mut self, channel: u32, max_messages: usize) -> (calls: Vec<
        HandlerCall<H>,
    >)
        ensures
            !old(self)@.ready ==> final(self)@ == old(self)@ && calls@ == Seq::<
                HandlerCall<H>,
            >::empty(),
            old(self)@.ready ==> final(self)@ == (ClientModel {
                inbound: old(self)@.inbound.insert(
                    channel,
                    remaining_suffix(old(self)@.inbound[channel], max_messages),
                ),
                ..old(self)@
            }) && message_calls_ok(
                old(self)@.on_message,
                delivered_prefix(old(self)@.inbound[channel], max_messages),
                calls@,
            ),
    {
        if !self.ready {
            let calls: Vec<HandlerCall<H>> = Vec::new();
            assert(calls@ =~= Seq::<HandlerCall<H>>::empty());
            return calls;
        }
        let ghost taken = delivered_prefix(self@.inbound[channel], max_messages);
        let mut batch = self.inbound.take(channel, max_messages);
        let target = self.message_recv.target();
        let mut calls: Vec<HandlerCall<H>> = Vec::new();
        match target {
            None => calls,
            Some(h) => {
                while batch.len() > 0
                    invariant
                        msgs_view(batch@) == taken.skip(calls@.len() as int),
                        calls@.len() <= taken.len(),
                        forall|i: int|
                            0 <= i < calls@.len() ==> #[trigger] is_message_call_for(
                                calls@[i],
                                h,
                                taken[i],
                            ),
                    decreases batch@.len(),
                {
                    let ghost done = calls@.len() as int;
                    let ghost before = batch@;
                    let m = batch.remove(0);
                    proof {
                        assert(m@ == msgs_view(before)[0]);
                        assert(msgs_view(batch@) =~= msgs_view(before).skip(1));
                        assert(taken.skip(done).skip(1) =~= taken.skip(done + 1));
                        assert(msgs_view(before)[0] == taken[done]);
                    }
                    calls.push(
                        HandlerCall::MessageReceived {
                            handler: h,
                            sender: m.sender,
                            payload: m.payload,
                        },
                    );
                }
                assert(calls@.len() == taken.len());
                calls
            },
        }
    }
}

/// Normalizes a lobby operation's transport outcome for the host, as
/// [`lobby_outcome_ok`] states: a nonzero id passes through, a zero id or a
/// failure yields an error message, `fallback` standing in where the
/// transport said nothing.
fn normalize_lobby_outcome(outcome: Result<u64, String>, fallback: &str) -> (r: (
    Option<u64>,
    Option<String>,
))
    ensures
        lobby_outcome_ok(outcome, fallback@, r.0, r.1),
{
    match outcome {
        Ok(id) => {
            if id != 0 {
                (Some(id), None)
            } else {
                (None, Some(String::from_str(fallback)))
            }
        },
        Err(msg) => {
            if msg.as_str().unicode_len() == 0 {
                (None, Some(String::from_str(fallback)))
            } else {
                (None, Some(msg))
            }
        },
    }
}

} // verus!
