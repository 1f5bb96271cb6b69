//! Lifecycle, pending-session and lobby behavior of the session client.

use steam_net::client::Client;
use steam_net::client::ClientError;
use steam_net::events::Action;
use steam_net::events::HandlerCall;
use steam_net::events::LobbyKind;
use steam_net::events::Reliability;
use steam_net::events::TransportEvent;

fn ready_client() -> Client<u64> {
    let mut c = Client::<u64>::new();
    c.init(Ok(76561198000000042)).unwrap();
    c
}

#[test]
fn failed_init_leaves_client_inert() {
    let mut c = Client::<u64>::new();
    let r = c.init(Err(String::from("App not running")));
    assert_eq!(r, Err(String::from("App not running")));
    assert!(!c.is_ready());
    assert_eq!(c.own_identity(), 0);
    // The pump is a no-op: events are ignored and nothing is dispatched.
    c.set_connection_request_callback(1);
    let call = c.route_event(TransportEvent::ConnectionRequested {
        identity: 7,
        capability: 1,
    });
    assert!(call.is_none());
    assert!(c.accept_connection(7).is_none());
    let calls = c.receive_messages(0, 10);
    assert!(calls.is_empty());
}

#[test]
fn successful_init_reports_ready_and_identity() {
    let mut c = Client::<u64>::new();
    assert!(c.init(Ok(42)).is_ok());
    assert!(c.is_ready());
    assert_eq!(c.own_identity(), 42);
    c.deinit();
    assert!(!c.is_ready());
    assert_eq!(c.own_identity(), 0);
}

#[test]
fn accept_without_pending_session_is_noop() {
    let mut c = ready_client();
    assert!(c.accept_connection(123).is_none());
    assert!(c.reject_connection(123).is_none());
    assert!(c.is_ready());
}

#[test]
fn recorded_session_is_consumed_exactly_once() {
    let mut c = ready_client();
    let call = c.route_event(TransportEvent::ConnectionRequested {
        identity: 555,
        capability: 9000,
    });
    // No handler registered: nothing dispatched, but the attempt is recorded.
    assert!(call.is_none());
    match c.accept_connection(555) {
        Some(Action::AcceptSession { capability }) => assert_eq!(capability, 9000),
        other => panic!("expected an accept effect, got {:?}", other),
    }
    assert!(c.accept_connection(555).is_none());
    assert!(c.reject_connection(555).is_none());
}

#[test]
fn reject_consumes_the_entry_too() {
    let mut c = ready_client();
    c.route_event(TransportEvent::ConnectionRequested {
        identity: 8,
        capability: 80,
    });
    match c.reject_connection(8) {
        Some(Action::RejectSession { capability }) => assert_eq!(capability, 80),
        other => panic!("expected a reject effect, got {:?}", other),
    }
    assert!(c.reject_connection(8).is_none());
}

#[test]
fn new_request_supersedes_the_old_entry() {
    let mut c = ready_client();
    c.route_event(TransportEvent::ConnectionRequested {
        identity: 5,
        capability: 100,
    });
    c.route_event(TransportEvent::ConnectionRequested {
        identity: 5,
        capability: 200,
    });
    match c.accept_connection(5) {
        Some(Action::AcceptSession { capability }) => assert_eq!(capability, 200),
        other => panic!("expected the superseding capability, got {:?}", other),
    }
    assert!(c.accept_connection(5).is_none());
}

#[test]
fn connection_request_reaches_exactly_the_latest_handler() {
    let mut c = ready_client();
    c.set_connection_request_callback(111);
    c.set_connection_request_callback(222);
    let call = c.route_event(TransportEvent::ConnectionRequested {
        identity: 76561198000000001,
        capability: 4,
    });
    match call {
        Some(HandlerCall::ConnectionRequested { handler, identity }) => {
            assert_eq!(handler, 222);
            assert_eq!(identity, 76561198000000001);
        }
        other => panic!("expected a dispatch to the latest handler, got {:?}", other),
    }
}

#[test]
fn pump_scenario_request_then_accept_then_noop() {
    let mut c = ready_client();
    c.set_connection_request_callback(7);
    let call = c.route_event(TransportEvent::ConnectionRequested {
        identity: 76561198000000001,
        capability: 31,
    });
    match call {
        Some(HandlerCall::ConnectionRequested { handler, identity }) => {
            assert_eq!(handler, 7);
            assert_eq!(identity, 76561198000000001);
        }
        other => panic!("expected the request dispatch, got {:?}", other),
    }
    match c.accept_connection(76561198000000001) {
        Some(Action::AcceptSession { capability }) => assert_eq!(capability, 31),
        other => panic!("expected the accept effect, got {:?}", other),
    }
    assert!(c.accept_connection(76561198000000001).is_none());
}

#[test]
fn connection_failed_and_membership_events_dispatch() {
    let mut c = ready_client();
    c.set_connection_failed_callback(1);
    c.set_lobby_changed_callback(2);
    match c.route_event(TransportEvent::ConnectionFailed { identity: 99 }) {
        Some(HandlerCall::ConnectionFailed { handler, identity }) => {
            assert_eq!(handler, 1);
            assert_eq!(identity, 99);
        }
        other => panic!("expected a connection-failed dispatch, got {:?}", other),
    }
    match c.route_event(TransportEvent::LobbyMembershipChanged {
        lobby: 10,
        user_changed: 20,
        making_change: 30,
        change_flags: 2,
    }) {
        Some(HandlerCall::LobbyMembershipChanged {
            handler,
            lobby,
            user_changed,
            making_change,
            change_flags,
        }) => {
            assert_eq!(handler, 2);
            assert_eq!(lobby, 10);
            assert_eq!(user_changed, 20);
            assert_eq!(making_change, 30);
            assert_eq!(change_flags, 2);
        }
        other => panic!("expected a membership dispatch, got {:?}", other),
    }
}

#[test]
fn create_lobby_private_success_and_failure() {
    let mut c = ready_client();
    match c.create_lobby(0, 4, 50) {
        Some(Action::CreateLobby { kind, max_members }) => {
            assert_eq!(kind, LobbyKind::Private);
            assert_eq!(max_members, 4);
        }
        other => panic!("expected a create-lobby effect, got {:?}", other),
    }
    match c.route_event(TransportEvent::LobbyCreateCompleted {
        outcome: Err(String::from("no connection")),
    }) {
        Some(HandlerCall::LobbyCreated { handler, lobby, error }) => {
            assert_eq!(handler, 50);
            assert!(lobby.is_none());
            let msg = error.expect("a failed creation carries an error");
            assert!(!msg.is_empty());
            assert_eq!(msg, "no connection");
        }
        other => panic!("expected a failure report, got {:?}", other),
    }
    // The result handler is one-shot: a stray second completion goes nowhere.
    assert!(c
        .route_event(TransportEvent::LobbyCreateCompleted { outcome: Ok(77) })
        .is_none());

    c.create_lobby(0, 4, 51);
    match c.route_event(TransportEvent::LobbyCreateCompleted { outcome: Ok(77) }) {
        Some(HandlerCall::LobbyCreated { handler, lobby, error }) => {
            assert_eq!(handler, 51);
            assert_eq!(lobby, Some(77));
            assert!(error.is_none());
        }
        other => panic!("expected a success report, got {:?}", other),
    }
}

#[test]
fn wordless_lobby_failures_still_carry_a_message() {
    let mut c = ready_client();
    c.create_lobby(2, 8, 1);
    match c.route_event(TransportEvent::LobbyCreateCompleted {
        outcome: Err(String::new()),
    }) {
        Some(HandlerCall::LobbyCreated { lobby, error, .. }) => {
            assert!(lobby.is_none());
            assert_eq!(error.as_deref(), Some("lobby creation failed"));
        }
        other => panic!("expected a failure report, got {:?}", other),
    }
    // A zero lobby id is no usable success either.
    c.create_lobby(2, 8, 1);
    match c.route_event(TransportEvent::LobbyCreateCompleted { outcome: Ok(0) }) {
        Some(HandlerCall::LobbyCreated { lobby, error, .. }) => {
            assert!(lobby.is_none());
            assert_eq!(error.as_deref(), Some("lobby creation failed"));
        }
        other => panic!("expected a failure report, got {:?}", other),
    }
}

#[test]
fn lobby_kind_codes_map_with_private_fallback() {
    let mut c = ready_client();
    let expected = [
        (0, LobbyKind::Private),
        (1, LobbyKind::FriendsOnly),
        (2, LobbyKind::Public),
        (3, LobbyKind::Invisible),
        (7, LobbyKind::Private),
    ];
    for (code, want) in expected {
        match c.create_lobby(code, 2, 0) {
            Some(Action::CreateLobby { kind, .. }) => assert_eq!(kind, want),
            other => panic!("expected a create-lobby effect, got {:?}", other),
        }
    }
}

#[test]
fn join_and_leave_lobby_effects() {
    let mut c = ready_client();
    match c.join_lobby(333, 60) {
        Some(Action::JoinLobby { lobby }) => assert_eq!(lobby, 333),
        other => panic!("expected a join effect, got {:?}", other),
    }
    match c.route_event(TransportEvent::LobbyJoinCompleted {
        outcome: Err(String::from("No Lobby Found")),
    }) {
        Some(HandlerCall::LobbyJoined { handler, lobby, error }) => {
            assert_eq!(handler, 60);
            assert!(lobby.is_none());
            assert_eq!(error.as_deref(), Some("No Lobby Found"));
        }
        other => panic!("expected a join failure report, got {:?}", other),
    }
    match c.leave_lobby(333) {
        Some(Action::LeaveLobby { lobby }) => assert_eq!(lobby, 333),
        other => panic!("expected a leave effect, got {:?}", other),
    }
    c.deinit();
    assert!(c.leave_lobby(333).is_none());
    assert!(c.join_lobby(333, 60).is_none());
    assert!(c.create_lobby(0, 4, 60).is_none());
}

#[test]
fn join_success_and_wordless_join_failure() {
    let mut c = ready_client();
    c.join_lobby(21, 61);
    match c.route_event(TransportEvent::LobbyJoinCompleted { outcome: Ok(21) }) {
        Some(HandlerCall::LobbyJoined { handler, lobby, error }) => {
            assert_eq!(handler, 61);
            assert_eq!(lobby, Some(21));
            assert!(error.is_none());
        }
        other => panic!("expected a join success report, got {:?}", other),
    }
    c.join_lobby(21, 62);
    match c.route_event(TransportEvent::LobbyJoinCompleted {
        outcome: Err(String::new()),
    }) {
        Some(HandlerCall::LobbyJoined { handler, lobby, error }) => {
            assert_eq!(handler, 62);
            assert!(lobby.is_none());
            assert_eq!(error.as_deref(), Some("lobby join failed"));
        }
        other => panic!("expected a join failure report, got {:?}", other),
    }
    // The join result handler is one-shot as well.
    assert!(c
        .route_event(TransportEvent::LobbyJoinCompleted { outcome: Ok(21) })
        .is_none());
}

#[test]
fn empty_member_list_is_an_error() {
    let mut c = ready_client();
    assert_eq!(
        c.get_lobby_members(Vec::new()),
        Err(ClientError::NoSuchLobbyOrEmpty)
    );
    assert_eq!(
        c.get_lobby_members(vec![1, 2, 3]),
        Ok(vec![1, 2, 3])
    );
    c.deinit();
    assert_eq!(c.get_lobby_members(vec![1]), Err(ClientError::NotReady));
    assert_eq!(
        ClientError::NotReady.message(),
        String::from("Client not initialized")
    );
    assert_eq!(
        ClientError::NoSuchLobbyOrEmpty.message(),
        String::from("Lobby not found or no members")
    );
}

#[test]
fn send_reliability_flags_default_to_reliable() {
    let c = ready_client();
    match c.send_message_to(12, 0, 1, vec![1, 2]) {
        Some(Action::SendMessage { identity, reliability, channel, payload }) => {
            assert_eq!(identity, 12);
            assert_eq!(reliability, Reliability::Unreliable);
            assert_eq!(channel, 1);
            assert_eq!(payload, vec![1, 2]);
        }
        other => panic!("expected a send effect, got {:?}", other),
    }
    match c.send_message_to(12, 8, 1, vec![3]) {
        Some(Action::SendMessage { reliability, .. }) => {
            assert_eq!(reliability, Reliability::Reliable)
        }
        other => panic!("expected a send effect, got {:?}", other),
    }
    // An unrecognized flag falls back to reliable delivery.
    match c.send_message_to(12, 5, 1, vec![4]) {
        Some(Action::SendMessage { reliability, .. }) => {
            assert_eq!(reliability, Reliability::Reliable)
        }
        other => panic!("expected a send effect, got {:?}", other),
    }
    let mut c = c;
    c.deinit();
    assert!(c.send_message_to(12, 8, 1, vec![5]).is_none());
}

#[test]
fn send_failures_stay_observable() {
    let mut c = ready_client();
    assert_eq!(c.failed_sends(), 0);
    c.note_send_failure();
    c.note_send_failure();
    assert_eq!(c.failed_sends(), 2);
}

#[test]
fn deinit_makes_pending_sessions_unreachable() {
    let mut c = ready_client();
    c.route_event(TransportEvent::ConnectionRequested {
        identity: 44,
        capability: 440,
    });
    c.deinit();
    assert!(c.accept_connection(44).is_none());
    // Persistent handlers survive a deinit/init cycle.
    c.set_connection_request_callback(3);
    c.init(Ok(42)).unwrap();
    match c.route_event(TransportEvent::ConnectionRequested {
        identity: 45,
        capability: 450,
    }) {
        Some(HandlerCall::ConnectionRequested { handler, identity }) => {
            assert_eq!(handler, 3);
            assert_eq!(identity, 45);
        }
        other => panic!("expected a dispatch after re-init, got {:?}", other),
    }
}
