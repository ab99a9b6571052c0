use crate::contracts::ConnectionId;
use vstd::prelude::*;

verus! {

/// Where the session stands.
#[derive(Clone, Copy, Debug, PartialEq, Eq, Structural)]
pub enum SessionState {
    /// The session was not started.
    Idle,
    /// The transport is being connected, or the next try is waited for.
    Connecting,
    /// The connection with this id is the current one and is being told
    /// what a new connection is told. Its tasks do not run yet.
    Handshaking(ConnectionId),
    /// The connection with this id is the current one, and its read task
    /// and its keepalive run.
    Connected(ConnectionId),
    /// The connection with this id was lost and is being torn down.
    Disconnected(ConnectionId),
}

/// Why a connection was lost.
#[derive(Clone, Copy, Debug, PartialEq, Eq, Structural)]
pub enum DisconnectReason {
    /// A read failed, or what was read was no packet.
    ReadError,
    /// A write failed.
    WriteError,
    /// Nothing was read for more than three ping intervals.
    KeepaliveTimeout,
}

/// What happens to the session.
#[derive(Clone, Copy, Debug, PartialEq, Eq, Structural)]
pub enum SessionEvent {
    /// The client is started.
    Start,
    /// The transport connected.
    ConnectSucceeded,
    /// The transport could not connect.
    ConnectFailed,
    /// All that a new connection is told was written to it.
    HandshakeSent,
    /// The current connection was lost.
    ConnectionLost(DisconnectReason),
    /// The lost connection is torn down.
    TornDown,
}

/// What is to be done for the session.
#[derive(Clone, Copy, Debug, PartialEq, Eq, Structural)]
pub enum SessionAction {
    /// Nothing: the event does not concern the session as it stands.
    Nothing,
    /// Connect the transport now.
    Connect,
    /// Wait for the reconnect delay, then connect the transport.
    SleepThenConnect,
    /// Install the connection under this id as the current one and tell it
    /// what a new connection is told. Report when all of it is written, or
    /// that the connection was lost.
    Handshake(ConnectionId),
    /// Start the read task and the keepalive of the connection with this
    /// id, and report when it is lost.
    Serve(ConnectionId),
    /// Tear the connection with this id down: mark it, shut the transport
    /// down, clear the current connection, and let the engines know.
    TearDown(ConnectionId),
}

/// The mathematical value of a [`ClientSocketLoop`].
pub struct Session {
    pub state: SessionState,
    /// The id that the last connection got; 0 before the first.
    pub socket_id: ConnectionId,
}

impl Session {
    /// A session that was not started.
    pub open spec fn initial() -> Self {
        Session { state: SessionState::Idle, socket_id: 0 }
    }

    /// The current connection, if there is one.
    pub open spec fn current(self) -> Option<ConnectionId> {
        match self.state {
            SessionState::Handshaking(id) => Some(id),
            SessionState::Connected(id) => Some(id),
            _ => None,
        }
    }

    /// The session after `event`.
    pub open spec fn next(self, event: SessionEvent) -> Self {
        match (self.state, event) {
            (SessionState::Idle, SessionEvent::Start) => Session {
                state: SessionState::Connecting,
                ..self
            },
            (SessionState::Connecting, SessionEvent::ConnectSucceeded) => Session {
                state: SessionState::Handshaking((self.socket_id + 1) as ConnectionId),
                socket_id: (self.socket_id + 1) as ConnectionId,
            },
            (SessionState::Connecting, SessionEvent::ConnectFailed) => self,
            (SessionState::Handshaking(id), SessionEvent::HandshakeSent) => Session {
                state: SessionState::Connected(id),
                ..self
            },
            (SessionState::Handshaking(id), SessionEvent::ConnectionLost(_)) => Session {
                state: SessionState::Disconnected(id),
                ..self
            },
            (SessionState::Connected(id), SessionEvent::ConnectionLost(_)) => Session {
                state: SessionState::Disconnected(id),
                ..self
            },
            (SessionState::Disconnected(_), SessionEvent::TornDown) => Session {
                state: SessionState::Connecting,
                ..self
            },
            _ => self,
        }
    }

    /// What is to be done when `event` happens to the session.
    pub open spec fn action(self, event: SessionEvent) -> SessionAction {
        match (self.state, event) {
            (SessionState::Idle, SessionEvent::Start) => SessionAction::Connect,
            (SessionState::Connecting, SessionEvent::ConnectSucceeded) => SessionAction::Handshake(
                (self.socket_id + 1) as ConnectionId,
            ),
            (SessionState::Connecting, SessionEvent::ConnectFailed) => {
                SessionAction::SleepThenConnect
            },
            (SessionState::Handshaking(id), SessionEvent::HandshakeSent) => SessionAction::Serve(
                id,
            ),
            (SessionState::Handshaking(id), SessionEvent::ConnectionLost(_)) => {
                SessionAction::TearDown(id)
            },
            (SessionState::Connected(id), SessionEvent::ConnectionLost(_)) => {
                SessionAction::TearDown(id)
            },
            (SessionState::Disconnected(_), SessionEvent::TornDown) => SessionAction::Connect,
            _ => SessionAction::Nothing,
        }
    }

    /// The session after `events`, in order.
    pub open spec fn run(self, events: Seq<SessionEvent>) -> Self
        decreases events.len(),
    {
        if events.len() == 0 {
            self
        } else {
            self.run(events.drop_last()).next(events.last())
        }
    }

    /// The ids that are given out stay below the last id that exists, and a
    /// connection that is current or being torn down has the id that was
    /// given out last.
    pub open spec fn inv(self) -> bool {
        &&& 0 <= self.socket_id
        &&& match self.state {
            SessionState::Handshaking(id) => id == self.socket_id && id >= 1,
            SessionState::Connected(id) => id == self.socket_id && id >= 1,
            SessionState::Disconnected(id) => id == self.socket_id && id >= 1,
            _ => true,
        }
    }
}

/// The connect loop of the client: it connects, serves the connection until
/// it is lost, tears it down and connects again, for as long as the client
/// lives.
pub struct ClientSocketLoop {
    state: SessionState,
    socket_id: ConnectionId,
}

impl View for ClientSocketLoop {
    type V = Session;

    closed spec fn view(&self) -> Session {
        Session { state: self.state, socket_id: self.socket_id }
    }
}

impl ClientSocketLoop {
    /// The loop of a client that was not started.
    pub fn new() -> (session: Self)
        ensures
            session@ == Session::initial(),
    {
        Self { state: SessionState::Idle, socket_id: 0 }
    }

    /// Where the session stands.
    pub fn state(&self) -> (state: SessionState)
        ensures
            state == self@.state,
    {
        self.state
    }

    /// The current connection, if there is one.
    pub fn current_connection(&self) -> (current: Option<ConnectionId>)
        ensures
            current == self@.current(),
    {
        match self.state {
            SessionState::Handshaking(id) => Some(id),
            SessionState::Connected(id) => Some(id),
            _ => None,
        }
    }

    /// Whether the loop can take `event`: the one event that needs a new
    /// connection id cannot be taken when the ids are used up.
    pub fn can_take(&self, event: SessionEvent) -> (possible: bool)
        ensures
            possible == !(self@.state == SessionState::Connecting && event
                == SessionEvent::ConnectSucceeded && self@.socket_id == i64::MAX),
    {
        match (self.state, event) {
            (SessionState::Connecting, SessionEvent::ConnectSucceeded) => self.socket_id
                < i64::MAX,
            _ => true,
        }
    }

    /// Takes `event` and tells what is to be done. An event that does not
    /// fit the state of the session changes nothing and asks for nothing.
    pub fn client_socket_loop(&mut self, event: SessionEvent) -> (action: SessionAction)
        requires
            !(old(self)@.state == SessionState::Connecting && event
                == SessionEvent::ConnectSucceeded && old(self)@.socket_id == i64::MAX),
        ensures
            final(self)@ == old(self)@.next(event),
            action == old(self)@.action(event),
    {
        match (self.state, event) {
            (SessionState::Idle, SessionEvent::Start) => {
                self.state = SessionState::Connecting;
                SessionAction::Connect
            },
            (SessionState::Connecting, SessionEvent::ConnectSucceeded) => {
                self.socket_id += 1;
                self.state = SessionState::Handshaking(self.socket_id);
                SessionAction::Handshake(self.socket_id)
            },
            (SessionState::Connecting, SessionEvent::ConnectFailed) => {
                SessionAction::SleepThenConnect
            },
            (SessionState::Handshaking(id), SessionEvent::HandshakeSent) => {
                self.state = SessionState::Connected(id);
                SessionAction::Serve(id)
            },
            (SessionState::Handshaking(id), SessionEvent::ConnectionLost(_)) => {
                self.state = SessionState::Disconnected(id);
                SessionAction::TearDown(id)
            },
            (SessionState::Connected(id), SessionEvent::ConnectionLost(_)) => {
                self.state = SessionState::Disconnected(id);
                SessionAction::TearDown(id)
            },
            (SessionState::Disconnected(_), SessionEvent::TornDown) => {
                self.state = SessionState::Connecting;
                SessionAction::Connect
            },
            _ => SessionAction::Nothing,
        }
    }

    /// Starts the client: the session begins to connect.
    pub fn start(&mut self) -> (action: SessionAction)
        ensures
            final(self)@ == old(self)@.next(SessionEvent::Start),
            action == old(self)@.action(SessionEvent::Start),
    {
        self.client_socket_loop(SessionEvent::Start)
    }
}

/// Whatever happens, a session keeps its invariant, as long as the ids are
/// not used up.
pub proof fn lemma_session_invariant(session: Session, event: SessionEvent)
    requires
        session.inv(),
        session.socket_id < i64::MAX,
    ensures
        session.next(event).inv(),
        session.next(event).socket_id >= session.socket_id,
{
}

/// However long a session runs, it keeps its invariant and gives out at most
/// one id for each event, as long as the ids are not used up.
pub proof fn lemma_session_run(session: Session, events: Seq<SessionEvent>)
    requires
        session.inv(),
        session.socket_id + events.len() <= i64::MAX,
    ensures
        session.run(events).inv(),
        session.socket_id <= session.run(events).socket_id <= session.socket_id + events.len(),
        !(session.state is Idle) ==> !(session.run(events).state is Idle),
    decreases events.len(),
{
    if events.len() > 0 {
        lemma_session_run(session, events.drop_last());
    }
}

/// Connection ids are given out in ascending order and never twice: a
/// connection is served under an id only when the session gives that id out,
/// and the id is one above every id given out before.
pub proof fn lemma_connection_ids_are_fresh(session: Session, event: SessionEvent)
    requires
        session.inv(),
        session.socket_id < i64::MAX,
    ensures
        session.action(event) matches SessionAction::Handshake(id) ==> {
            &&& id == session.socket_id + 1
            &&& session.next(event).current() == Some(id)
            &&& session.current() is None
        },
        session.next(event).current() matches Some(id) ==> session.current() == Some(id)
            || session.action(event) == SessionAction::Handshake(id),
{
}

/// The tasks of a connection are started only after it was told all that a
/// new connection is told: the read task and the keepalive start on the
/// report that the handshake is written, for the connection that is the
/// current one, and at no other time. A connection that is lost while it is
/// being told is torn down and its tasks never start.
pub proof fn lemma_tasks_start_after_handshake(session: Session, event: SessionEvent)
    requires
        session.inv(),
    ensures
        session.action(event) matches SessionAction::Serve(id) ==> {
            &&& session.state == SessionState::Handshaking(id)
            &&& event == SessionEvent::HandshakeSent
            &&& session.next(event).state == SessionState::Connected(id)
        },
        session.action(event) matches SessionAction::Handshake(id) ==> session.next(event).state
            == SessionState::Handshaking(id),
        session.state matches SessionState::Handshaking(id) ==> (event
            is ConnectionLost ==> session.action(event) == SessionAction::TearDown(id)
            && session.next(event).state == SessionState::Disconnected(id)),
        session.next(event).state is Connected ==> session.state is Connected || session.state
            is Handshaking,
{
}

/// A session never leaves the cycle: once started it is never idle again,
/// and from every state after the start some event leads on.
pub proof fn lemma_session_never_ends(session: Session, event: SessionEvent)
    requires
        session.inv(),
        !(session.state is Idle),
    ensures
        !(session.next(event).state is Idle),
        session.state is Connecting ==> session.next(SessionEvent::ConnectFailed).state
            is Connecting,
        session.state is Handshaking ==> session.next(SessionEvent::HandshakeSent).state
            is Connected,
        session.state is Connected ==> session.next(
            SessionEvent::ConnectionLost(DisconnectReason::ReadError),
        ).state is Disconnected,
        session.state is Disconnected ==> session.next(SessionEvent::TornDown).state
            is Connecting,
{
}

/// A connection is torn down only when it is the current one, and after
/// that there is no current connection until the next one is served.
pub proof fn lemma_tear_down_clears_current(session: Session, event: SessionEvent)
    requires
        session.inv(),
    ensures
        session.action(event) matches SessionAction::TearDown(id) ==> session.current() == Some(
            id,
        ) && session.next(event).current() is None,
{
}

} // verus!
