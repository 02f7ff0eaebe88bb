//! The actor that owns the XMPP session: what it does next, given what
//! happened last.
//!
//! The actor takes one message at a time from its queue. Before it sends a
//! message it brings the session up unless the session is known to be up:
//! it authenticates, announces its presence, enters every configured room one
//! after the other, and sends a heartbeat. A step that fails ends the attempt;
//! the next message starts a new one. Whoever runs the actor performs each
//! action and reports how it went.

use vstd::prelude::*;

use jid::BareJid;

use crate::config::XMPPSettings;
use crate::services::xmpp_service::{MessageType, RoomId};

verus! {

/// A message in the actor's queue.
#[derive(Debug)]
pub enum XMPPServiceMessage {
    SendMessage { to: RoomId, body: String },
}

/// Why a session ended.
#[derive(Debug)]
pub enum ConnectionError {
    TimedOut,
    InvalidCredentials,
    Generic { msg: String },
}

/// What the client reports of its connection.
#[derive(Debug)]
pub enum ClientEvent {
    Connected,
    Disconnected { error: Option<ConnectionError> },
    PingTimer,
}

/// A chat message that the session received.
#[derive(Debug)]
pub struct Message {
    pub from: Option<String>,
    pub body: Option<String>,
}

/// What the session reports.
#[derive(Debug)]
pub enum Event {
    Client(ClientEvent),
    Chat(Message),
    Other,
}

/// Whether the process goes on after an event.
#[derive(Debug, Clone, Copy, PartialEq, Eq, Structural)]
pub enum EventOutcome {
    Continue,
    /// The account's credentials are refused: the process cannot recover.
    Terminate,
}

/// What the actor is waiting for.
#[derive(Debug, Clone, Copy, PartialEq, Eq, Structural)]
pub enum Progress {
    /// Nothing is under way.
    Idle,
    Connecting,
    AnnouncingPresence,
    EnteringRoom { index: usize },
    SendingHeartbeat,
    SendingMessage,
}

/// What the actor asks to be done next.
#[derive(Debug)]
pub enum SessionAction {
    /// Authenticate as the account, with the resource appended to it.
    Connect { account: BareJid, resource: String, password: String },
    /// Announce that the actor is available for chat.
    SendPresence,
    /// Enter a room under a nickname; availability as in `SendPresence`.
    EnterRoom { room: BareJid, nickname: String },
    /// Tell the operator that the session is up.
    SendHeartbeat { to: String, body: String },
    /// Send a notification.
    SendMessage { to: RoomId, body: String, message_type: MessageType },
    /// Wait for the next message of the queue.
    AwaitMessage,
}

/// An action, with its texts as sequences of characters.
pub enum Step {
    Connect { account: BareJid, resource: Seq<char>, password: Seq<char> },
    SendPresence,
    EnterRoom { room: BareJid, nickname: Seq<char> },
    SendHeartbeat { to: Seq<char>, body: Seq<char> },
    SendMessage { to: RoomId, body: Seq<char>, message_type: MessageType },
    AwaitMessage,
}

impl View for SessionAction {
    type V = Step;

    open spec fn view(&self) -> Step {
        match *self {
            SessionAction::Connect { account, resource, password } => Step::Connect {
                account,
                resource: resource@,
                password: password@,
            },
            SessionAction::SendPresence => Step::SendPresence,
            SessionAction::EnterRoom { room, nickname } => Step::EnterRoom { room, nickname: nickname@ },
            SessionAction::SendHeartbeat { to, body } => Step::SendHeartbeat { to: to@, body: body@ },
            SessionAction::SendMessage { to, body, message_type } => Step::SendMessage {
                to,
                body: body@,
                message_type,
            },
            SessionAction::AwaitMessage => Step::AwaitMessage,
        }
    }
}

/// A notification on its way out: where it goes and what it says.
pub struct OutboundMessage {
    pub destination: RoomId,
    pub body: Seq<char>,
}

impl View for XMPPServiceMessage {
    type V = OutboundMessage;

    open spec fn view(&self) -> OutboundMessage {
        match *self {
            XMPPServiceMessage::SendMessage { to, body } => OutboundMessage { destination: to, body: body@ },
        }
    }
}

/// The actor's state.
pub struct SessionState {
    pub account: BareJid,
    pub password: Seq<char>,
    pub rooms: Seq<BareJid>,
    /// Whether the session is known to be up.
    pub connected: bool,
    pub progress: Progress,
    /// The message that waits for the session to come up.
    pub pending: Option<OutboundMessage>,
}

/// The resource, and the nickname in rooms, that tells this bot from the
/// account's other clients.
pub open spec fn bot_resource() -> Seq<char> {
    "bot"@
}

/// Where the heartbeat goes.
pub open spec fn heartbeat_recipient() -> Seq<char> {
    "marc@prose.org"@
}

/// What the heartbeat says.
pub open spec fn heartbeat_body() -> Seq<char> {
    "🚀"@
}

/// The action that delivers a message: a chat message to a user, a group chat
/// message to a room.
pub open spec fn delivery(message: OutboundMessage) -> Step {
    Step::SendMessage {
        to: message.destination,
        body: message.body,
        message_type: message.destination.kind(),
    }
}

/// What follows once the session is up or the attempt has ended: the message
/// that waited is sent, or the actor waits for one.
pub open spec fn proceed(state: SessionState) -> (SessionState, Step) {
    match state.pending {
        Some(message) => (
            SessionState { progress: Progress::SendingMessage, pending: None, ..state },
            delivery(message),
        ),
        None => (SessionState { progress: Progress::Idle, ..state }, Step::AwaitMessage),
    }
}

/// The head of the actor's turn: nothing is to be done for a session that is
/// known to be up, and the first step is taken for one that is not.
pub open spec fn connect_if_needed(state: SessionState) -> (SessionState, Step) {
    if state.connected {
        proceed(state)
    } else {
        (
            SessionState { progress: Progress::Connecting, ..state },
            Step::Connect { account: state.account, resource: bot_resource(), password: state.password },
        )
    }
}

/// Once the rooms before `index` are entered: the room at `index` is next,
/// and the heartbeat once no room is left.
pub open spec fn enter_from(state: SessionState, index: int) -> (SessionState, Step) {
    if 0 <= index < state.rooms.len() {
        (
            SessionState { progress: Progress::EnteringRoom { index: index as usize }, ..state },
            Step::EnterRoom { room: state.rooms[index], nickname: bot_resource() },
        )
    } else {
        (
            SessionState { progress: Progress::SendingHeartbeat, ..state },
            Step::SendHeartbeat { to: heartbeat_recipient(), body: heartbeat_body() },
        )
    }
}

/// A step of bringing the session up failed: the session counts as down, and
/// the attempt is over.
pub open spec fn abandon(state: SessionState) -> (SessionState, Step) {
    proceed(SessionState { connected: false, ..state })
}

/// The actor's task begins: it brings the session up before any message is
/// there.
pub open spec fn started(state: SessionState) -> (SessionState, Step) {
    connect_if_needed(state)
}

/// Whether the actor takes a message from the queue: it does when nothing is
/// under way and no message waits.
pub open spec fn takes_messages(state: SessionState) -> bool {
    state.progress is Idle && state.pending is None
}

/// No message waits while nothing is under way or a message is being sent.
pub open spec fn settled(state: SessionState) -> bool {
    state.progress is Idle || state.progress is SendingMessage ==> state.pending is None
}

/// A message was taken from the queue.
pub open spec fn received(state: SessionState, message: OutboundMessage) -> (SessionState, Step) {
    connect_if_needed(SessionState { pending: Some(message), ..state })
}

/// The last action was performed; `succeeded` says how it went.
pub open spec fn completed(state: SessionState, succeeded: bool) -> (SessionState, Step) {
    match state.progress {
        Progress::Idle => (state, Step::AwaitMessage),
        Progress::Connecting => if succeeded {
            (SessionState { progress: Progress::AnnouncingPresence, ..state }, Step::SendPresence)
        } else {
            abandon(state)
        },
        Progress::AnnouncingPresence => if succeeded {
            enter_from(state, 0)
        } else {
            abandon(state)
        },
        Progress::EnteringRoom { index } => if succeeded {
            enter_from(state, index + 1)
        } else {
            abandon(state)
        },
        Progress::SendingHeartbeat => if succeeded {
            proceed(state)
        } else {
            abandon(state)
        },
        Progress::SendingMessage => (SessionState { progress: Progress::Idle, ..state }, Step::AwaitMessage),
    }
}

/// Whether an event ends the process: only credentials that the server
/// refuses do.
pub open spec fn is_fatal(event: ClientEvent) -> bool {
    event matches ClientEvent::Disconnected { error: Some(ConnectionError::InvalidCredentials) }
}

/// The state once the client has reported an event of its connection: the
/// session is up after `Connected` and down after a disconnection that is
/// not fatal; nothing else changes.
pub open spec fn observed(state: SessionState, event: ClientEvent) -> SessionState {
    match event {
        ClientEvent::Connected => SessionState { connected: true, ..state },
        ClientEvent::Disconnected { error } => if is_fatal(event) {
            state
        } else {
            SessionState { connected: false, ..state }
        },
        ClientEvent::PingTimer => state,
    }
}

/// Where the actor stands once an attempt to bring the session up has begun
/// and `count` actions in a row have succeeded.
pub open spec fn after_successes(state: SessionState, count: nat) -> (SessionState, Step)
    decreases count,
{
    if count == 0 {
        connect_if_needed(state)
    } else {
        completed(after_successes(state, (count - 1) as nat).0, true)
    }
}

/// Whether a state is one of bringing the session up.
pub open spec fn is_connecting(progress: Progress) -> bool {
    progress is Connecting || progress is AnnouncingPresence || progress is EnteringRoom
        || progress is SendingHeartbeat
}

/// A session that is down comes up in a fixed order: authentication, then the
/// presence, then the rooms one after the other as they are configured, then
/// the heartbeat. Only when all of these have succeeded is the message that
/// waited sent; without one the actor waits for the next.
pub proof fn lemma_session_comes_up(state: SessionState)
    requires
        !state.connected,
        state.rooms.len() <= usize::MAX,
    ensures
        after_successes(state, 0).1 == (Step::Connect {
            account: state.account,
            resource: bot_resource(),
            password: state.password,
        }),
        after_successes(state, 1).1 == Step::SendPresence,
        forall|i: nat|
            i < state.rooms.len() ==> (#[trigger] after_successes(state, i + 2)).1 == (Step::EnterRoom {
                room: state.rooms[i as int],
                nickname: bot_resource(),
            }),
        after_successes(state, state.rooms.len() + 2).1 == (Step::SendHeartbeat {
            to: heartbeat_recipient(),
            body: heartbeat_body(),
        }),
        after_successes(state, state.rooms.len() + 3).1 == match state.pending {
            Some(message) => delivery(message),
            None => Step::AwaitMessage,
        },
        forall|count: nat|
            count < state.rooms.len() + 3 ==> is_connecting((#[trigger] after_successes(state, count)).0.progress),
{
    reveal_with_fuel(after_successes, 3);
    assert forall|i: nat| i <= state.rooms.len() implies #[trigger] after_successes(state, i + 2) == enter_from(
        SessionState { progress: Progress::Connecting, ..state },
        i as int,
    ) by {
        lemma_rooms_in_order(state, i);
    }
    lemma_rooms_in_order(state, state.rooms.len());
    assert forall|count: nat| count < state.rooms.len() + 3 implies is_connecting(
        (#[trigger] after_successes(state, count)).0.progress,
    ) by {
        if count >= 2 {
            lemma_rooms_in_order(state, (count - 2) as nat);
        }
    }
}

proof fn lemma_rooms_in_order(state: SessionState, entered: nat)
    requires
        !state.connected,
        state.rooms.len() <= usize::MAX,
        entered <= state.rooms.len(),
    ensures
        after_successes(state, entered + 2) == enter_from(
            SessionState { progress: Progress::Connecting, ..state },
            entered as int,
        ),
    decreases entered,
{
    reveal_with_fuel(after_successes, 3);
    if entered > 0 {
        lemma_rooms_in_order(state, (entered - 1) as nat);
    }
}

/// A step of bringing the session up that fails ends the attempt: the session
/// counts as down, the message that waited is tried all the same, and the
/// message after it starts again with the authentication.
pub proof fn lemma_failed_step_ends_attempt(state: SessionState, next: OutboundMessage)
    requires
        is_connecting(state.progress),
    ensures
        !completed(state, false).0.connected,
        completed(state, false).1 == match state.pending {
            Some(message) => delivery(message),
            None => Step::AwaitMessage,
        },
        ({
            let failed = completed(state, false).0;
            let idle = if failed.progress is Idle {
                failed
            } else {
                completed(failed, true).0
            };
            &&& idle.progress is Idle
            &&& idle.pending is None
            &&& received(idle, next).1 == (Step::Connect {
                account: state.account,
                resource: bot_resource(),
                password: state.password,
            })
        }),
{
}

/// A message waits only while the session is being brought up: this holds of
/// a new actor and stays true whatever happens. An actor that is idle
/// therefore takes the next message, and no message is ever displaced.
pub proof fn lemma_stays_settled(
    state: SessionState,
    message: OutboundMessage,
    succeeded: bool,
    event: ClientEvent,
)
    requires
        settled(state),
    ensures
        settled(started(state).0),
        takes_messages(state) ==> settled(received(state, message).0),
        settled(completed(state, succeeded).0),
        settled(observed(state, event)),
        state.progress is Idle ==> takes_messages(state),
{
}

/// Whatever happens, the actor keeps its account, its password and its rooms.
pub proof fn lemma_settings_are_kept(
    state: SessionState,
    message: OutboundMessage,
    succeeded: bool,
    event: ClientEvent,
)
    ensures
        ({
            let after = started(state).0;
            after.account == state.account && after.password == state.password && after.rooms == state.rooms
        }),
        ({
            let after = received(state, message).0;
            after.account == state.account && after.password == state.password && after.rooms == state.rooms
        }),
        ({
            let after = completed(state, succeeded).0;
            after.account == state.account && after.password == state.password && after.rooms == state.rooms
        }),
        ({
            let after = observed(state, event);
            after.account == state.account && after.password == state.password && after.rooms == state.rooms
        }),
{
}

/// A message that is taken up while the session is up is sent at once, as a
/// chat message to a user and as a group chat message to a room.
pub proof fn lemma_message_is_delivered(state: SessionState, message: OutboundMessage)
    requires
        state.connected,
    ensures
        received(state, message).1 == (Step::SendMessage {
            to: message.destination,
            body: message.body,
            message_type: if message.destination is User {
                MessageType::Chat
            } else {
                MessageType::Groupchat
            },
        }),
        received(state, message).0.pending is None,
{
}

/// What the log says of a message that the session received.
pub open spec fn received_message_text(message: Message) -> Seq<char> {
    "Received message from "@ + (match message.from {
        Some(from) => from@,
        None => "<unknown>"@,
    }) + ": "@ + (match message.body {
        Some(body) => body@,
        None => "<no body>"@,
    })
}

/// The actor that owns the session.
pub struct XMPPService {
    config: XMPPSettings,
    rooms: Vec<BareJid>,
    is_connected: bool,
    progress: Progress,
    pending: Option<XMPPServiceMessage>,
}

impl View for XMPPService {
    type V = SessionState;

    closed spec fn view(&self) -> SessionState {
        SessionState {
            account: self.config.jid,
            password: self.config.password@,
            rooms: self.rooms@,
            connected: self.is_connected,
            progress: self.progress,
            pending: match self.pending {
                Some(message) => Some(message@),
                None => None,
            },
        }
    }
}

impl XMPPService {
    /// An actor for an account and the rooms to enter. The session is down,
    /// and nothing is under way.
    pub fn new(config: XMPPSettings, rooms: Vec<BareJid>) -> (actor: Self)
        ensures
            actor@ == (SessionState {
                account: config.jid,
                password: config.password@,
                rooms: rooms@,
                connected: false,
                progress: Progress::Idle,
                pending: None,
            }),
    {
        XMPPService { config, rooms, is_connected: false, progress: Progress::Idle, pending: None }
    }

    /// Whether the session is known to be up.
    pub fn is_connected(&self) -> (connected: bool)
        ensures
            connected == self@.connected,
    {
        self.is_connected
    }

    /// What the actor is waiting for.
    pub fn progress(&self) -> (progress: Progress)
        ensures
            progress == self@.progress,
    {
        self.progress
    }

    /// The action that delivers a message, by the kind of its destination.
    pub fn handle_message(msg: XMPPServiceMessage) -> (action: SessionAction)
        ensures
            action@ == delivery(msg@),
    {
        match msg {
            XMPPServiceMessage::SendMessage { to, body } => {
                let message_type = to.message_type();
                SessionAction::SendMessage { to, body, message_type }
            },
        }
    }

    fn proceed(&mut self) -> (action: SessionAction)
        ensures
            (final(self)@, action@) == proceed(old(self)@),
    {
        match self.pending.take() {
            Some(message) => {
                self.progress = Progress::SendingMessage;
                XMPPService::handle_message(message)
            },
            None => {
                self.progress = Progress::Idle;
                SessionAction::AwaitMessage
            },
        }
    }

    /// Takes the first step of bringing the session up, unless the session is
    /// known to be up.
    pub fn connect_if_needed(&mut self) -> (action: SessionAction)
        ensures
            (final(self)@, action@) == connect_if_needed(old(self)@),
    {
        if self.is_connected {
            return self.proceed();
        }
        self.progress = Progress::Connecting;
        SessionAction::Connect {
            account: self.config.jid.clone(),
            resource: "bot".to_owned(),
            password: self.config.password.clone(),
        }
    }

    fn enter_from(&mut self, index: usize) -> (action: SessionAction)
        ensures
            (final(self)@, action@) == enter_from(old(self)@, index as int),
    {
        if index < self.rooms.len() {
            self.progress = Progress::EnteringRoom { index };
            SessionAction::EnterRoom { room: self.rooms[index].clone(), nickname: "bot".to_owned() }
        } else {
            self.progress = Progress::SendingHeartbeat;
            SessionAction::SendHeartbeat { to: "marc@prose.org".to_owned(), body: "🚀".to_owned() }
        }
    }

    fn abandon(&mut self) -> (action: SessionAction)
        ensures
            (final(self)@, action@) == abandon(old(self)@),
    {
        self.is_connected = false;
        self.proceed()
    }

    /// Begins the actor's task.
    pub fn start(&mut self) -> (action: SessionAction)
        ensures
            (final(self)@, action@) == started(old(self)@),
    {
        self.connect_if_needed()
    }

    /// Takes up a message from the queue. An actor that is busy, or that
    /// holds a message already, hands the message back and stays as it is.
    pub fn receive(&mut self, message: XMPPServiceMessage) -> (taken: Result<SessionAction, XMPPServiceMessage>)
        ensures
            match taken {
                Ok(action) => takes_messages(old(self)@) && (final(self)@, action@) == received(
                    old(self)@,
                    message@,
                ),
                Err(returned) => !takes_messages(old(self)@) && returned == message && final(self)@ == old(
                    self,
                )@,
            },
    {
        if self.progress == Progress::Idle && self.pending.is_none() {
            self.pending = Some(message);
            Ok(self.connect_if_needed())
        } else {
            Err(message)
        }
    }

    /// The rooms of an actor are no more than a machine can count.
    pub proof fn lemma_rooms_fit(&self)
        ensures
            self@.rooms.len() <= usize::MAX,
    {
        assert(self.rooms@.len() == self.rooms.len());
    }

    /// Takes up the outcome of the last action.
    pub fn completed(&mut self, succeeded: bool) -> (action: SessionAction)
        ensures
            (final(self)@, action@) == completed(old(self)@, succeeded),
    {
        match self.progress {
            Progress::Idle => SessionAction::AwaitMessage,
            Progress::Connecting => if succeeded {
                self.progress = Progress::AnnouncingPresence;
                SessionAction::SendPresence
            } else {
                self.abandon()
            },
            Progress::AnnouncingPresence => if succeeded {
                self.enter_from(0)
            } else {
                self.abandon()
            },
            Progress::EnteringRoom { index } => if succeeded {
                if index < self.rooms.len() {
                    self.enter_from(index + 1)
                } else {
                    self.enter_from(index)
                }
            } else {
                self.abandon()
            },
            Progress::SendingHeartbeat => if succeeded {
                self.proceed()
            } else {
                self.abandon()
            },
            Progress::SendingMessage => {
                self.progress = Progress::Idle;
                SessionAction::AwaitMessage
            },
        }
    }

    /// Takes up what the client reports of its connection.
    pub fn handle_client_event(&mut self, event: &ClientEvent) -> (outcome: EventOutcome)
        ensures
            final(self)@ == observed(old(self)@, *event),
            outcome == if is_fatal(*event) {
                EventOutcome::Terminate
            } else {
                EventOutcome::Continue
            },
    {
        match event {
            ClientEvent::Connected => {
                self.is_connected = true;
                EventOutcome::Continue
            },
            ClientEvent::Disconnected { error: Some(ConnectionError::InvalidCredentials) } => {
                EventOutcome::Terminate
            },
            ClientEvent::Disconnected { error: _ } => {
                self.is_connected = false;
                EventOutcome::Continue
            },
            ClientEvent::PingTimer => EventOutcome::Continue,
        }
    }

    /// Takes up what the session reports. Only events of the connection
    /// change anything: a chat message that comes in is never acted upon.
    pub fn handle_event(&mut self, event: &Event) -> (outcome: EventOutcome)
        ensures
            match *event {
                Event::Client(client_event) => {
                    &&& final(self)@ == observed(old(self)@, client_event)
                    &&& outcome == if is_fatal(client_event) {
                        EventOutcome::Terminate
                    } else {
                        EventOutcome::Continue
                    }
                },
                _ => final(self)@ == old(self)@ && outcome == EventOutcome::Continue,
            },
    {
        match event {
            Event::Client(client_event) => self.handle_client_event(client_event),
            _ => EventOutcome::Continue,
        }
    }
}

/// The line that the log gets for a chat message that came in.
pub fn handle_received_message(message: &Message) -> (line: String)
    ensures
        line@ == received_message_text(*message),
{
    let mut line = "Received message from ".to_owned();
    match &message.from {
        Some(from) => line.append(from.as_str()),
        None => line.append("<unknown>"),
    }
    line.append(": ");
    match &message.body {
        Some(body) => line.append(body.as_str()),
        None => line.append("<no body>"),
    }
    line
}

} // verus!
