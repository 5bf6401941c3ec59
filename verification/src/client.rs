//! The connecting side's state: whether a session stands or is being set up,
//! the tree last received, and what to do with each answer that the bridge
//! hands over. There is at most one session at a time: it begins with the
//! user's wish to connect, and it ends on disconnect, on a refused password
//! and on a lost connection. After that the user has to connect anew.

use crate::format::decode_status;
use crate::protocol::{ReplyStatus, ReplyView, ServerReply, StatusView};
use crate::tree::{forest_view, PathItem, TreeNode};
use vstd::prelude::*;

verus! {

/// What the user side is to do with an answer.
#[derive(Debug)]
pub enum ClientAction {
    /// Show the tree, which is now the client's.
    ShowTree,
    /// Offer to save these bytes, received for the file at `path`.
    SaveFile { path: String, bytes: Vec<u8> },
    /// Tell the user that the file at `path` could not be had, and why.
    ReportFileError { path: String, message: String },
    /// Tell the user that the host could not read the request.
    ReportBadRequest,
    /// Tell the user that the answer could not be read.
    ReportUnreadable,
    /// The password was refused: send the stop command to the bridge.
    DropSession,
    /// The answer belongs to no session: nothing is to be done with it.
    NoSession,
}

/// The mathematical value of a `ClientAction`.
pub enum ClientActionView {
    ShowTree,
    SaveFile { path: Seq<char>, bytes: Seq<u8> },
    ReportFileError { path: Seq<char>, message: Seq<char> },
    ReportBadRequest,
    ReportUnreadable,
    DropSession,
    NoSession,
}

impl View for ClientAction {
    type V = ClientActionView;

    open spec fn view(&self) -> ClientActionView {
        match self {
            ClientAction::ShowTree => ClientActionView::ShowTree,
            ClientAction::SaveFile { path, bytes } => ClientActionView::SaveFile {
                path: path@,
                bytes: bytes@,
            },
            ClientAction::ReportFileError { path, message } => ClientActionView::ReportFileError {
                path: path@,
                message: message@,
            },
            ClientAction::ReportBadRequest => ClientActionView::ReportBadRequest,
            ClientAction::ReportUnreadable => ClientActionView::ReportUnreadable,
            ClientAction::DropSession => ClientActionView::DropSession,
            ClientAction::NoSession => ClientActionView::NoSession,
        }
    }
}

/// What is to be done with a serialized answer that belongs to a session.
pub open spec fn action_for(text: Seq<char>) -> ClientActionView {
    match decode_status(text) {
        Err(_) => ClientActionView::ReportUnreadable,
        Ok(StatusView::AuthFailed) => ClientActionView::DropSession,
        Ok(StatusView::BadRequest) => ClientActionView::ReportBadRequest,
        Ok(StatusView::Answer(ReplyView::List(_))) => ClientActionView::ShowTree,
        Ok(StatusView::Answer(ReplyView::File(file))) => match (file.bytes, file.error) {
            (_, Some(message)) => ClientActionView::ReportFileError { path: file.path, message },
            (Some(bytes), None) => ClientActionView::SaveFile { path: file.path, bytes },
            (None, None) => ClientActionView::ReportUnreadable,
        },
    }
}

/// Where the client stands with its one session.
#[derive(Clone, Copy, Debug, PartialEq, Eq, Structural)]
pub enum SessionPhase {
    /// There is no session.
    Offline,
    /// A session was begun and has not answered yet.
    Connecting,
    /// The session has answered and stands.
    Online,
}

/// The connecting side's state.
pub struct Client {
    phase: SessionPhase,
    shared_folders: Vec<PathItem>,
    invalid_password: bool,
    connection_lost: bool,
}

impl Client {
    /// Where the client stands with its session.
    pub closed spec fn phase(&self) -> SessionPhase {
        self.phase
    }

    /// Whether a session stands.
    pub open spec fn connected(&self) -> bool {
        self.phase() == SessionPhase::Online
    }

    /// Whether a new session may be begun: no session stands and none is
    /// being set up.
    pub open spec fn may_connect_spec(&self) -> bool {
        self.phase() == SessionPhase::Offline
    }

    /// The tree last received in this session.
    pub closed spec fn folders(&self) -> Seq<TreeNode> {
        forest_view(self.shared_folders@)
    }

    /// Whether the last answer refused the password.
    pub closed spec fn invalid_password(&self) -> bool {
        self.invalid_password
    }

    /// Whether the last session ended because its connection was lost.
    pub closed spec fn connection_lost(&self) -> bool {
        self.connection_lost
    }

    /// A client without a session.
    pub fn new() -> (client: Self)
        ensures
            client.phase() == SessionPhase::Offline,
            !client.invalid_password(),
            !client.connection_lost(),
            client.folders().len() == 0,
    {
        Client {
            phase: SessionPhase::Offline,
            shared_folders: Vec::new(),
            invalid_password: false,
            connection_lost: false,
        }
    }

    /// Where the client stands with its session.
    pub fn current_phase(&self) -> (phase: SessionPhase)
        ensures
            phase == self.phase(),
    {
        self.phase
    }

    /// Whether a session stands.
    pub fn is_connected(&self) -> (connected: bool)
        ensures
            connected == self.connected(),
    {
        self.phase == SessionPhase::Online
    }

    /// Whether the last answer refused the password.
    pub fn password_refused(&self) -> (refused: bool)
        ensures
            refused == self.invalid_password(),
    {
        self.invalid_password
    }

    /// Whether the last session ended because its connection was lost.
    pub fn was_connection_lost(&self) -> (lost: bool)
        ensures
            lost == self.connection_lost(),
    {
        self.connection_lost
    }

    /// The tree last received, to show it.
    pub fn shared_folders(&self) -> (folders: &Vec<PathItem>)
        ensures
            forest_view(folders@) == self.folders(),
    {
        &self.shared_folders
    }

    /// Whether a new session may be begun: only while no session stands and
    /// none is being set up.
    pub fn may_connect(&self) -> (allowed: bool)
        ensures
            allowed == self.may_connect_spec(),
    {
        self.phase == SessionPhase::Offline
    }

    /// Begins a session on the user's wish to connect. Says whether one was
    /// begun, that is, whether a bridge is to be started. Refused while a
    /// session stands or is being set up: then nothing changes.
    pub fn begin_connect(&mut self) -> (started: bool)
        ensures
            started == old(self).may_connect_spec(),
            started ==> final(self).phase() == SessionPhase::Connecting && !final(self).connection_lost() && final(self).folders() == old(self).folders() && final(self).invalid_password() == old(self).invalid_password(),
            started ==> !final(self).may_connect_spec(),
            !started ==> *final(self) == *old(self),
    {
        if self.phase == SessionPhase::Offline {
            self.phase = SessionPhase::Connecting;
            self.connection_lost = false;
            true
        } else {
            false
        }
    }

    /// Ends the session on the user's wish and forgets the tree. Says whether
    /// a session stood or was being set up, that is, whether the stop command
    /// is to be sent to its bridge.
    pub fn disconnect(&mut self) -> (stop: bool)
        ensures
            stop == !old(self).may_connect_spec(),
            final(self).phase() == SessionPhase::Offline,
            final(self).folders().len() == 0,
            final(self).invalid_password() == old(self).invalid_password(),
            final(self).connection_lost() == old(self).connection_lost(),
    {
        let stop = self.phase != SessionPhase::Offline;
        self.phase = SessionPhase::Offline;
        self.shared_folders = Vec::new();
        stop
    }

    /// Takes the news that the bridge lost its connection. The session is
    /// gone and its tree with it; the loss is remembered until the next
    /// session is begun. Without a session nothing changes.
    pub fn on_connection_lost(&mut self)
        ensures
            !final(self).connected(),
            final(self).phase() == SessionPhase::Offline,
            final(self).invalid_password() == old(self).invalid_password(),
            old(self).may_connect_spec() ==> *final(self) == *old(self),
            !old(self).may_connect_spec() ==> final(self).connection_lost() && final(self).folders().len() == 0,
    {
        if self.phase != SessionPhase::Offline {
            self.phase = SessionPhase::Offline;
            self.shared_folders = Vec::new();
            self.connection_lost = true;
        }
    }

    /// Takes one serialized answer from the bridge. Without a session the
    /// answer is passed over and nothing changes. Otherwise a refused
    /// password drops the session, and every other answer shows that the
    /// session stands, which ends its setting up. A tree replaces the
    /// client's tree; nothing else touches it.
    pub fn on_result(&mut self, text: &str) -> (action: ClientAction)
        ensures
            old(self).may_connect_spec() ==> action@ == ClientActionView::NoSession && *final(self) == *old(self),
            !old(self).may_connect_spec() ==> action@ == action_for(text@),
            !old(self).may_connect_spec() ==> final(self).phase() == (if action is DropSession {
                SessionPhase::Offline
            } else {
                SessionPhase::Online
            }),
            !old(self).may_connect_spec() ==> final(self).connected() == !(action is DropSession),
            !old(self).may_connect_spec() ==> final(self).invalid_password() == (match decode_status(
                text@,
            ) {
                Ok(StatusView::AuthFailed) => true,
                Ok(StatusView::Answer(_)) => false,
                _ => old(self).invalid_password(),
            }),
            !old(self).may_connect_spec() ==> final(self).folders() == (match decode_status(text@) {
                Ok(StatusView::Answer(ReplyView::List(nodes))) => nodes,
                _ => old(self).folders(),
            }),
            final(self).connection_lost() == old(self).connection_lost(),
    {
        if self.phase == SessionPhase::Offline {
            return ClientAction::NoSession;
        }
        match ReplyStatus::deserialize(text) {
            Err(_) => {
                self.phase = SessionPhase::Online;
                ClientAction::ReportUnreadable
            },
            Ok(ReplyStatus::AuthFailed) => {
                self.phase = SessionPhase::Offline;
                self.invalid_password = true;
                ClientAction::DropSession
            },
            Ok(ReplyStatus::BadRequest) => {
                self.phase = SessionPhase::Online;
                ClientAction::ReportBadRequest
            },
            Ok(ReplyStatus::Answer(ServerReply::List(list))) => {
                self.phase = SessionPhase::Online;
                self.invalid_password = false;
                self.shared_folders = list.list;
                ClientAction::ShowTree
            },
            Ok(ReplyStatus::Answer(ServerReply::File(file))) => {
                self.phase = SessionPhase::Online;
                self.invalid_password = false;
                match (file.bytes, file.error) {
                    (_, Some(message)) => ClientAction::ReportFileError {
                        path: file.path,
                        message,
                    },
                    (Some(bytes), None) => ClientAction::SaveFile { path: file.path, bytes },
                    (None, None) => ClientAction::ReportUnreadable,
                }
            },
        }
    }
}

} // verus!
