use jid::BareJid;

use xmpp_webhook::config::XMPPSettings;
use xmpp_webhook::services::xmpp_service::{MessageType, RoomId};
use xmpp_webhook::xmpp::{
    handle_received_message, ClientEvent, ConnectionError, Event, EventOutcome, Message, Progress,
    SessionAction, XMPPService, XMPPServiceMessage,
};

fn address(text: &str) -> BareJid {
    BareJid::new(text).unwrap()
}

fn actor(rooms: &[&str]) -> XMPPService {
    XMPPService::new(
        XMPPSettings { jid: address("bot@example.org"), password: "secret".to_string() },
        rooms.iter().map(|room| address(room)).collect(),
    )
}

fn to_room(body: &str) -> XMPPServiceMessage {
    XMPPServiceMessage::SendMessage {
        to: RoomId::Room(address("one@conference.example.org")),
        body: body.to_string(),
    }
}

fn assert_connect(action: SessionAction) {
    match action {
        SessionAction::Connect { account, resource, password } => {
            assert_eq!(account, address("bot@example.org"));
            assert_eq!(resource, "bot");
            assert_eq!(password, "secret");
        }
        other => panic!("expected to connect, got {:?}", other),
    }
}

fn assert_enters(action: SessionAction, expected: &str) {
    match action {
        SessionAction::EnterRoom { room, nickname } => {
            assert_eq!(room, address(expected));
            assert_eq!(nickname, "bot");
        }
        other => panic!("expected to enter {}, got {:?}", expected, other),
    }
}

fn assert_heartbeat(action: SessionAction) {
    match action {
        SessionAction::SendHeartbeat { to, body } => {
            assert_eq!(to, "marc@prose.org");
            assert_eq!(body, "🚀");
        }
        other => panic!("expected a heartbeat, got {:?}", other),
    }
}

fn assert_sends(action: SessionAction, expected_to: RoomId, expected_body: &str, expected_type: MessageType) {
    match action {
        SessionAction::SendMessage { to, body, message_type } => {
            assert_eq!(to, expected_to);
            assert_eq!(body, expected_body);
            assert_eq!(message_type, expected_type);
        }
        other => panic!("expected a message, got {:?}", other),
    }
}

#[test]
fn new_actor_is_idle_and_disconnected() {
    let actor = actor(&[]);
    assert!(!actor.is_connected());
    assert_eq!(actor.progress(), Progress::Idle);
}

#[test]
fn session_comes_up_step_by_step() {
    let mut actor = actor(&["one@conference.example.org", "two@conference.example.org"]);
    assert_connect(actor.start());
    assert_eq!(actor.progress(), Progress::Connecting);
    assert_eq!(actor.handle_client_event(&ClientEvent::Connected), EventOutcome::Continue);
    assert!(matches!(actor.completed(true), SessionAction::SendPresence));
    assert_enters(actor.completed(true), "one@conference.example.org");
    assert_eq!(actor.progress(), Progress::EnteringRoom { index: 0 });
    assert_enters(actor.completed(true), "two@conference.example.org");
    assert_eq!(actor.progress(), Progress::EnteringRoom { index: 1 });
    assert_heartbeat(actor.completed(true));
    assert!(matches!(actor.completed(true), SessionAction::AwaitMessage));
    assert_eq!(actor.progress(), Progress::Idle);
    assert!(actor.is_connected());
}

#[test]
fn session_without_rooms_goes_from_presence_to_heartbeat() {
    let mut actor = actor(&[]);
    assert_connect(actor.start());
    assert!(matches!(actor.completed(true), SessionAction::SendPresence));
    assert_heartbeat(actor.completed(true));
    assert!(matches!(actor.completed(true), SessionAction::AwaitMessage));
}

#[test]
fn message_is_sent_at_once_when_connected() {
    let mut actor = actor(&["one@conference.example.org"]);
    actor.handle_client_event(&ClientEvent::Connected);
    let action = actor.receive(to_room("hello")).unwrap();
    assert_sends(action, RoomId::Room(address("one@conference.example.org")), "hello", MessageType::Groupchat);
    assert_eq!(actor.progress(), Progress::SendingMessage);
    assert!(matches!(actor.completed(true), SessionAction::AwaitMessage));
    assert_eq!(actor.progress(), Progress::Idle);
}

#[test]
fn message_waits_until_the_session_is_up() {
    let mut actor = actor(&["one@conference.example.org"]);
    assert_connect(actor.receive(to_room("hello")).unwrap());
    actor.handle_client_event(&ClientEvent::Connected);
    assert!(matches!(actor.completed(true), SessionAction::SendPresence));
    assert_enters(actor.completed(true), "one@conference.example.org");
    assert_heartbeat(actor.completed(true));
    let action = actor.completed(true);
    assert_sends(action, RoomId::Room(address("one@conference.example.org")), "hello", MessageType::Groupchat);
    assert!(matches!(actor.completed(false), SessionAction::AwaitMessage));
    assert!(actor.is_connected());
}

#[test]
fn message_to_a_user_is_a_chat_message() {
    let mut actor = actor(&[]);
    actor.handle_client_event(&ClientEvent::Connected);
    let to = RoomId::User(address("marc@prose.org"));
    let action = actor
        .receive(XMPPServiceMessage::SendMessage { to: to.clone(), body: "hi".to_string() })
        .unwrap();
    assert_sends(action, to, "hi", MessageType::Chat);
}

#[test]
fn handle_message_picks_the_message_type() {
    let user = RoomId::User(address("marc@prose.org"));
    let room = RoomId::Room(address("one@conference.example.org"));
    assert_sends(
        XMPPService::handle_message(XMPPServiceMessage::SendMessage { to: user.clone(), body: "a".to_string() }),
        user,
        "a",
        MessageType::Chat,
    );
    assert_sends(
        XMPPService::handle_message(XMPPServiceMessage::SendMessage { to: room.clone(), body: "b".to_string() }),
        room,
        "b",
        MessageType::Groupchat,
    );
}

#[test]
fn failed_step_ends_the_attempt_and_the_next_message_starts_anew() {
    let mut actor = actor(&["one@conference.example.org", "two@conference.example.org"]);
    assert_connect(actor.receive(to_room("first")).unwrap());
    actor.handle_client_event(&ClientEvent::Connected);
    assert!(matches!(actor.completed(true), SessionAction::SendPresence));
    assert_enters(actor.completed(true), "one@conference.example.org");
    // Entering the first room fails: the message is tried all the same.
    let action = actor.completed(false);
    assert_sends(action, RoomId::Room(address("one@conference.example.org")), "first", MessageType::Groupchat);
    assert!(!actor.is_connected());
    assert!(matches!(actor.completed(false), SessionAction::AwaitMessage));

    assert_connect(actor.receive(to_room("second")).unwrap());
    assert!(matches!(actor.completed(true), SessionAction::SendPresence));
    assert_enters(actor.completed(true), "one@conference.example.org");
    assert_enters(actor.completed(true), "two@conference.example.org");
    assert_heartbeat(actor.completed(true));
    let action = actor.completed(true);
    assert_sends(action, RoomId::Room(address("one@conference.example.org")), "second", MessageType::Groupchat);
}

#[test]
fn failed_authentication_at_the_start_leaves_the_actor_waiting() {
    let mut actor = actor(&["one@conference.example.org"]);
    assert_connect(actor.start());
    assert!(matches!(actor.completed(false), SessionAction::AwaitMessage));
    assert_eq!(actor.progress(), Progress::Idle);
    assert!(!actor.is_connected());
}

#[test]
fn failed_heartbeat_counts_as_a_failed_attempt() {
    let mut actor = actor(&[]);
    assert_connect(actor.start());
    actor.handle_client_event(&ClientEvent::Connected);
    assert!(matches!(actor.completed(true), SessionAction::SendPresence));
    assert_heartbeat(actor.completed(true));
    assert!(matches!(actor.completed(false), SessionAction::AwaitMessage));
    assert!(!actor.is_connected());
}

#[test]
fn busy_actor_hands_a_message_back() {
    let mut actor = actor(&["one@conference.example.org"]);
    assert_connect(actor.receive(to_room("first")).unwrap());
    match actor.receive(to_room("second")) {
        Err(XMPPServiceMessage::SendMessage { to, body }) => {
            assert_eq!(to, RoomId::Room(address("one@conference.example.org")));
            assert_eq!(body, "second");
        }
        Ok(action) => panic!("the message was taken: {:?}", action),
    }
    assert_eq!(actor.progress(), Progress::Connecting);
    // The first message is still the one that is sent.
    let action = actor.completed(false);
    assert_sends(action, RoomId::Room(address("one@conference.example.org")), "first", MessageType::Groupchat);
    assert!(actor.receive(to_room("third")).is_err());
    assert!(matches!(actor.completed(true), SessionAction::AwaitMessage));
    assert_connect(actor.receive(to_room("third")).unwrap());
}

#[test]
fn outcome_without_an_action_is_ignored() {
    let mut actor = actor(&[]);
    assert!(matches!(actor.completed(true), SessionAction::AwaitMessage));
    assert_eq!(actor.progress(), Progress::Idle);
}

#[test]
fn disconnection_makes_the_next_message_reconnect() {
    let mut actor = actor(&[]);
    actor.handle_client_event(&ClientEvent::Connected);
    assert!(actor.is_connected());
    let outcome = actor.handle_client_event(&ClientEvent::Disconnected { error: None });
    assert_eq!(outcome, EventOutcome::Continue);
    assert!(!actor.is_connected());
    assert_connect(actor.receive(to_room("hello")).unwrap());

    let mut other = self::actor(&[]);
    other.handle_client_event(&ClientEvent::Connected);
    let outcome = other.handle_client_event(&ClientEvent::Disconnected { error: Some(ConnectionError::TimedOut) });
    assert_eq!(outcome, EventOutcome::Continue);
    assert!(!other.is_connected());
    let generic = ConnectionError::Generic { msg: "stream closed".to_string() };
    assert_eq!(
        other.handle_client_event(&ClientEvent::Disconnected { error: Some(generic) }),
        EventOutcome::Continue
    );
}

#[test]
fn refused_credentials_are_fatal() {
    let mut actor = actor(&[]);
    actor.handle_client_event(&ClientEvent::Connected);
    let event = ClientEvent::Disconnected { error: Some(ConnectionError::InvalidCredentials) };
    assert_eq!(actor.handle_client_event(&event), EventOutcome::Terminate);
    assert_eq!(actor.handle_event(&Event::Client(event)), EventOutcome::Terminate);
}

#[test]
fn ping_timer_changes_nothing() {
    let mut actor = actor(&[]);
    actor.handle_client_event(&ClientEvent::Connected);
    assert_eq!(actor.handle_client_event(&ClientEvent::PingTimer), EventOutcome::Continue);
    assert!(actor.is_connected());
}

#[test]
fn received_chat_message_is_never_acted_upon() {
    let mut actor = actor(&[]);
    actor.handle_event(&Event::Client(ClientEvent::Connected));
    assert!(actor.is_connected());
    let message = Message { from: Some("marc@prose.org/phone".to_string()), body: Some("stop".to_string()) };
    assert_eq!(actor.handle_event(&Event::Chat(message)), EventOutcome::Continue);
    assert_eq!(actor.handle_event(&Event::Other), EventOutcome::Continue);
    assert!(actor.is_connected());
    assert_eq!(actor.progress(), Progress::Idle);
}

#[test]
fn received_message_is_logged() {
    let full = Message { from: Some("marc@prose.org/phone".to_string()), body: Some("hello".to_string()) };
    assert_eq!(handle_received_message(&full), "Received message from marc@prose.org/phone: hello");
    let empty = Message { from: None, body: None };
    assert_eq!(handle_received_message(&empty), "Received message from <unknown>: <no body>");
}

#[test]
fn destinations() {
    let user = RoomId::User(address("marc@prose.org"));
    let room = RoomId::Room(address("one@conference.example.org"));
    assert_eq!(user.address(), &address("marc@prose.org"));
    assert_eq!(room.address(), &address("one@conference.example.org"));
    assert_eq!(user.message_type(), MessageType::Chat);
    assert_eq!(room.message_type(), MessageType::Groupchat);
    assert_eq!(user.duplicate(), user);
    assert_eq!(room.duplicate(), room);
    assert_ne!(user.duplicate(), room);
}
