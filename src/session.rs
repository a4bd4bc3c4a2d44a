use vstd::prelude::*;

use crate::message::{
    opt_message_view, ClientMessage, ClientMessageView, FileActivity, FileActivityView,
    ServerMessage, ServerMessageView,
};
use crate::registry::{keys_unique, users_view, with_focus, Registry};
use crate::user::UserView;

verus! {

/// Where a connection stands.
#[derive(Debug, PartialEq, Eq)]
pub enum SessionState {
    /// The transport is up; no identity yet.
    Connected,
    /// The client registered under this identifier.
    Registered(String),
    /// The connection ended; nothing more happens.
    Closed,
}

pub enum PhaseView {
    Connected,
    Registered(Seq<char>),
    Closed,
}

impl View for SessionState {
    type V = PhaseView;

    open spec fn view(&self) -> PhaseView {
        match self {
            SessionState::Connected => PhaseView::Connected,
            SessionState::Registered(id) => PhaseView::Registered(id@),
            SessionState::Closed => PhaseView::Closed,
        }
    }
}

/// What the transport hands a session.
#[derive(Debug, PartialEq, Eq)]
pub enum Event {
    /// A text frame that decoded to a client message.
    Message(ClientMessage),
    /// A text frame that did not decode.
    Malformed,
    /// The peer closed the connection, or reading or writing failed.
    Disconnected,
}

pub enum EventView {
    Message(ClientMessageView),
    Malformed,
    Disconnected,
}

impl View for Event {
    type V = EventView;

    open spec fn view(&self) -> EventView {
        match self {
            Event::Message(m) => EventView::Message(m@),
            Event::Malformed => EventView::Malformed,
            Event::Disconnected => EventView::Disconnected,
        }
    }
}

/// What a session does after an event: what to publish, and whether it is over.
#[derive(Debug, PartialEq, Eq)]
pub struct Reaction {
    pub publish: Option<ServerMessage>,
    pub stop: bool,
}

/// The effect of one event: the session's next state, the registry after it, and what is published.
pub struct StepView {
    pub phase: PhaseView,
    pub users: Map<Seq<char>, UserView>,
    pub publish: Option<ServerMessageView>,
}

/// The registry without the entry that the session in `phase` is bound to, if any.
pub open spec fn unbound(phase: PhaseView, users: Map<Seq<char>, UserView>) -> Map<Seq<char>, UserView> {
    match phase {
        PhaseView::Registered(id) => users.remove(id),
        _ => users,
    }
}

/// One transition of a session, with `users` the registry as the session finds it.
pub open spec fn step(phase: PhaseView, users: Map<Seq<char>, UserView>, ev: EventView) -> StepView {
    match phase {
        PhaseView::Closed => StepView { phase, users, publish: None },
        _ => match ev {
            EventView::Malformed => StepView { phase, users, publish: None },
            EventView::Disconnected => match phase {
                PhaseView::Registered(id) => StepView {
                    phase: PhaseView::Closed,
                    users: users.remove(id),
                    publish: Some(ServerMessageView::UserUpdate(users.remove(id))),
                },
                _ => StepView { phase: PhaseView::Closed, users, publish: None },
            },
            EventView::Message(ClientMessageView::Register(u)) => {
                let kept = unbound(phase, users);
                StepView {
                    phase: PhaseView::Registered(u.user_id),
                    users: kept.insert(u.user_id, u),
                    publish: Some(ServerMessageView::UserUpdate(kept.insert(u.user_id, u))),
                }
            },
            EventView::Message(ClientMessageView::FileFocus { file_path, repo_id }) => match phase {
                PhaseView::Registered(id) => if users.contains_key(id) {
                    StepView {
                        phase,
                        users: users.insert(id, with_focus(users[id], file_path)),
                        publish: Some(
                            ServerMessageView::FileActivityUpdate(
                                FileActivityView { user_id: id, file_path, repo_id },
                            ),
                        ),
                    }
                } else {
                    StepView { phase, users, publish: None }
                },
                _ => StepView { phase, users, publish: None },
            },
        },
    }
}

/// The per-connection state machine.
pub struct Session {
    pub state: SessionState,
}

impl Session {
    /// A session on a fresh connection: no identity yet.
    pub fn new() -> (r: Session)
        ensures
            r.state@ == PhaseView::Connected,
    {
        Session { state: SessionState::Connected }
    }

    /// Applies one event to this session and the shared registry, and says what to publish.
    pub fn on_event(&mut self, reg: &mut Registry, ev: Event) -> (r: Reaction)
        requires
            old(reg).wf(),
        ensures
            final(reg).wf(),
            step(old(self).state@, old(reg)@, ev@) == (StepView {
                phase: final(self).state@,
                users: final(reg)@,
                publish: opt_message_view(r.publish),
            }),
            r.stop == (final(self).state@ is Closed),
            r.publish matches Some(ServerMessage::UserUpdate(v)) ==> keys_unique(users_view(v@)),
            // focus reported before any registration changes nothing and publishes nothing
            old(self).state@ is Connected && ev@ is Message && ev@->Message_0 is FileFocus
                ==> final(reg)@ == old(reg)@ && r.publish is None,
            // a registration publishes a snapshot that holds the new participant
            !(old(self).state@ is Closed) && ev@ is Message && ev@->Message_0 is Register ==> {
                let u = ev@->Message_0->Register_0;
                &&& r.publish matches Some(ServerMessage::UserUpdate(v))
                &&& r.publish.unwrap()@ == ServerMessageView::UserUpdate(final(reg)@)
                &&& final(reg)@.contains_key(u.user_id)
                &&& final(reg)@[u.user_id] == u
            },
            // a registered session that goes away publishes a snapshot without its identifier
            old(self).state@ is Registered && ev@ is Disconnected ==> {
                &&& r.publish matches Some(ServerMessage::UserUpdate(v))
                &&& r.publish.unwrap()@ == ServerMessageView::UserUpdate(final(reg)@)
                &&& !final(reg)@.contains_key(old(self).state@->Registered_0)
            },
            // an undecodable frame changes nothing, publishes nothing and keeps the session open
            ev@ is Malformed ==> final(reg)@ == old(reg)@ && final(self).state@ == old(self).state@
                && r.publish is None && r.stop == (old(self).state@ is Closed),
    {
        if let SessionState::Closed = self.state {
            return Reaction { publish: None, stop: true };
        }
        match ev {
            Event::Malformed => Reaction { publish: None, stop: false },
            Event::Disconnected => {
                let publish = match &self.state {
                    SessionState::Registered(id) => {
                        reg.remove(id);
                        Some(ServerMessage::UserUpdate(reg.snapshot()))
                    },
                    _ => None,
                };
                self.state = SessionState::Closed;
                Reaction { publish, stop: true }
            },
            Event::Message(ClientMessage::Register(u)) => {
                if let SessionState::Registered(bound) = &self.state {
                    reg.remove(bound);
                }
                let id = u.user_id.clone();
                reg.upsert(u);
                self.state = SessionState::Registered(id);
                Reaction { publish: Some(ServerMessage::UserUpdate(reg.snapshot())), stop: false }
            },
            Event::Message(ClientMessage::FileFocus { file_path, repo_id }) => {
                let publish = match &self.state {
                    SessionState::Registered(id) => {
                        if reg.update_focus(id, file_path.clone()) {
                            Some(
                                ServerMessage::FileActivityUpdate(
                                    FileActivity { user_id: id.clone(), file_path, repo_id },
                                ),
                            )
                        } else {
                            None
                        }
                    },
                    _ => None,
                };
                Reaction { publish, stop: false }
            },
        }
    }
}

} // verus!
