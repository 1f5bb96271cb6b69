//! The vocabulary of the session core: events the transport raises, handler
//! invocations the router decides on, and effects the core asks the transport
//! shell to perform.
//!
//! Identities, lobbies and accept/reject capabilities are opaque 64-bit
//! handles; payloads are plain bytes. Everything here is a value the host or
//! the transport shell can construct and inspect directly.

use vstd::prelude::*;

verus! {

/// Visibility of a lobby to be created by the matchmaking service.
#[derive(Clone, Copy, PartialEq, Eq, Structural, Debug)]
pub enum LobbyKind {
    Private,
    FriendsOnly,
    Public,
    Invisible,
}

/// Delivery guarantee attached to an outgoing message.
#[derive(Clone, Copy, PartialEq, Eq, Structural, Debug)]
pub enum Reliability {
    Reliable,
    Unreliable,
}

/// The lobby kind a numeric code from the host selects: 0 private, 1
/// friends-only, 2 public, 3 invisible. Any other code falls back to a
/// private lobby.
pub open spec fn kind_for_code(code: u32) -> LobbyKind {
    if code == 1 {
        LobbyKind::FriendsOnly
    } else if code == 2 {
        LobbyKind::Public
    } else if code == 3 {
        LobbyKind::Invisible
    } else {
        LobbyKind::Private
    }
}

/// Maps the host's numeric lobby-kind code to the kind sent to the transport.
pub fn lobby_kind_of(code: u32) -> (k: LobbyKind)
    ensures
        k == kind_for_code(code),
{
    if code == 1 {
        LobbyKind::FriendsOnly
    } else if code == 2 {
        LobbyKind::Public
    } else if code == 3 {
        LobbyKind::Invisible
    } else {
        LobbyKind::Private
    }
}

/// The delivery mode a numeric flag from the host selects. The transport
/// encodes unreliable delivery as 0 and reliable delivery as 8; an
/// unrecognized flag value falls back to reliable delivery.
pub open spec fn reliability_for_flag(flag: i32) -> Reliability {
    if flag == 0 {
        Reliability::Unreliable
    } else {
        Reliability::Reliable
    }
}

/// Maps the host's numeric reliability flag to a delivery mode.
pub fn reliability_of(flag: i32) -> (r: Reliability)
    ensures
        r == reliability_for_flag(flag),
{
    if flag == 0 {
        Reliability::Unreliable
    } else {
        Reliability::Reliable
    }
}

/// One raw occurrence the transport shell observed during a poll step and
/// hands to the router. `capability` is the shell's handle for the single-use
/// accept/reject token of an inbound connection attempt.
#[derive(Debug)]
pub enum TransportEvent {
    ConnectionRequested { identity: u64, capability: u64 },
    ConnectionFailed { identity: u64 },
    LobbyMembershipChanged { lobby: u64, user_changed: u64, making_change: u64, change_flags: u64 },
    LobbyCreateCompleted { outcome: Result<u64, String> },
    LobbyJoinCompleted { outcome: Result<u64, String> },
}

/// One handler invocation the router decided on: which registered handler to
/// call and with which host-visible arguments.
#[derive(Debug)]
#[allow(inconsistent_fields)]
pub enum HandlerCall<H> {
    ConnectionRequested { handler: H, identity: u64 },
    ConnectionFailed { handler: H, identity: u64 },
    LobbyMembershipChanged {
        handler: H,
        lobby: u64,
        user_changed: u64,
        making_change: u64,
        change_flags: u64,
    },
    MessageReceived { handler: H, sender: u64, payload: Vec<u8> },
    LobbyCreated { handler: H, lobby: Option<u64>, error: Option<String> },
    LobbyJoined { handler: H, lobby: Option<u64>, error: Option<String> },
}

/// One effect the core asks the transport shell to perform, fire-and-forget.
#[derive(Debug)]
pub enum Action {
    AcceptSession { capability: u64 },
    RejectSession { capability: u64 },
    CreateLobby { kind: LobbyKind, max_members: u32 },
    JoinLobby { lobby: u64 },
    LeaveLobby { lobby: u64 },
    SendMessage { identity: u64, reliability: Reliability, channel: u32, payload: Vec<u8> },
}

} // verus!
