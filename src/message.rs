use vstd::prelude::*;

use crate::registry::{users_map, users_view};
use crate::user::{User, UserView};

verus! {

/// A point event: participant `user_id` now looks at `file_path` in repository `repo_id`.
#[derive(Debug, PartialEq, Eq)]
pub struct FileActivity {
    pub user_id: String,
    pub file_path: String,
    pub repo_id: String,
}

pub struct FileActivityView {
    pub user_id: Seq<char>,
    pub file_path: Seq<char>,
    pub repo_id: Seq<char>,
}

impl View for FileActivity {
    type V = FileActivityView;

    open spec fn view(&self) -> FileActivityView {
        FileActivityView {
            user_id: self.user_id@,
            file_path: self.file_path@,
            repo_id: self.repo_id@,
        }
    }
}

/// What a client sends.
#[derive(Debug, PartialEq, Eq)]
pub enum ClientMessage {
    /// Declares (or re-declares) the sender's identity.
    Register(User),
    /// Reports the file the registered sender now has in focus.
    FileFocus { file_path: String, repo_id: String },
}

pub enum ClientMessageView {
    Register(UserView),
    FileFocus { file_path: Seq<char>, repo_id: Seq<char> },
}

impl View for ClientMessage {
    type V = ClientMessageView;

    open spec fn view(&self) -> ClientMessageView {
        match self {
            ClientMessage::Register(u) => ClientMessageView::Register(u@),
            ClientMessage::FileFocus { file_path, repo_id } => ClientMessageView::FileFocus {
                file_path: file_path@,
                repo_id: repo_id@,
            },
        }
    }
}

/// What the server publishes to every session.
#[derive(Debug, PartialEq, Eq)]
pub enum ServerMessage {
    /// A full snapshot of the registry, one entry per identifier.
    UserUpdate(Vec<User>),
    /// A change of focus.
    FileActivityUpdate(FileActivity),
}

pub enum ServerMessageView {
    UserUpdate(Map<Seq<char>, UserView>),
    FileActivityUpdate(FileActivityView),
}

impl View for ServerMessage {
    type V = ServerMessageView;

    open spec fn view(&self) -> ServerMessageView {
        match self {
            ServerMessage::UserUpdate(v) => ServerMessageView::UserUpdate(users_map(users_view(v@))),
            ServerMessage::FileActivityUpdate(a) => ServerMessageView::FileActivityUpdate(a@),
        }
    }
}

pub open spec fn opt_message_view(o: Option<ServerMessage>) -> Option<ServerMessageView> {
    match o {
        Some(m) => Some(m@),
        None => None,
    }
}

} // verus!
