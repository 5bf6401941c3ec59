//! The message algebra: what a client may ask, what the service answers, and
//! the status under which an answer travels.

use crate::tree::{forest_view, PathItem, TreeNode};
use vstd::prelude::*;

verus! {

/// What a client asks of the service.
#[derive(Debug)]
pub enum ClientRequest {
    /// The client asks for the shared tree.
    ListRequest,
    /// The client asks for the file at the given path.
    FileRequest(String),
}

/// The mathematical value of a `ClientRequest`.
pub enum RequestView {
    ListRequest,
    FileRequest(Seq<char>),
}

impl View for ClientRequest {
    type V = RequestView;

    open spec fn view(&self) -> RequestView {
        match self {
            ClientRequest::ListRequest => RequestView::ListRequest,
            ClientRequest::FileRequest(path) => RequestView::FileRequest(path@),
        }
    }
}

impl Clone for ClientRequest {
    fn clone(&self) -> (copy: Self)
        ensures
            copy@ == self@,
    {
        match self {
            ClientRequest::ListRequest => ClientRequest::ListRequest,
            ClientRequest::FileRequest(path) => ClientRequest::FileRequest(path.clone()),
        }
    }
}

/// The answer to a request for a file: its contents, or the reason why they
/// could not be had.
#[derive(Debug)]
pub struct ServerFile {
    pub bytes: Option<Vec<u8>>,
    pub path: String,
    pub error: Option<String>,
}

/// The mathematical value of a `ServerFile`.
pub struct FileView {
    pub path: Seq<char>,
    pub bytes: Option<Seq<u8>>,
    pub error: Option<Seq<char>>,
}

impl FileView {
    /// Exactly one of contents and error is present.
    pub open spec fn wf(self) -> bool {
        self.bytes is Some <==> self.error is None
    }
}

impl View for ServerFile {
    type V = FileView;

    open spec fn view(&self) -> FileView {
        FileView {
            path: self.path@,
            bytes: match self.bytes {
                Some(bytes) => Some(bytes@),
                None => None,
            },
            error: match self.error {
                Some(message) => Some(message@),
                None => None,
            },
        }
    }
}

impl ServerFile {
    /// Exactly one of contents and error is present.
    pub open spec fn wf(&self) -> bool {
        self@.wf()
    }

    /// The answer for the file at `path`, given how reading it went: the
    /// bytes read, or the message of the failure.
    pub fn new(path: String, contents: Result<Vec<u8>, String>) -> (file: Self)
        ensures
            file.wf(),
            file@.path == path@,
            match contents {
                Ok(bytes) => file@.bytes == Some(bytes@) && file@.error is None,
                Err(message) => file@.bytes is None && file@.error == Some(message@),
            },
    {
        match contents {
            Ok(bytes) => ServerFile { bytes: Some(bytes), path, error: None },
            Err(message) => ServerFile { bytes: None, path, error: Some(message) },
        }
    }
}

impl Clone for ServerFile {
    fn clone(&self) -> (copy: Self)
        ensures
            copy@ == self@,
    {
        let bytes = match &self.bytes {
            Some(bytes) => Some(bytes.clone()),
            None => None,
        };
        let error = match &self.error {
            Some(message) => Some(message.clone()),
            None => None,
        };
        ServerFile { bytes, path: self.path.clone(), error }
    }
}

/// The answer to a request for the shared tree.
#[derive(Debug)]
pub struct ServerList {
    pub list: Vec<PathItem>,
}

impl View for ServerList {
    type V = Seq<TreeNode>;

    open spec fn view(&self) -> Seq<TreeNode> {
        forest_view(self.list@)
    }
}

impl ServerList {
    /// The answer that carries the given trees.
    pub fn new(file_list: Vec<PathItem>) -> (list: Self)
        ensures
            list@ == forest_view(file_list@),
            list.list == file_list,
    {
        Self { list: file_list }
    }
}

/// What the service answers to a request it accepted.
#[derive(Debug)]
pub enum ServerReply {
    List(ServerList),
    File(ServerFile),
}

/// The mathematical value of a `ServerReply`.
pub enum ReplyView {
    List(Seq<TreeNode>),
    File(FileView),
}

impl ReplyView {
    /// A file answer holds exactly one of contents and error.
    pub open spec fn wf(self) -> bool {
        self matches ReplyView::File(file) ==> file.wf()
    }
}

impl View for ServerReply {
    type V = ReplyView;

    open spec fn view(&self) -> ReplyView {
        match self {
            ServerReply::List(list) => ReplyView::List(list@),
            ServerReply::File(file) => ReplyView::File(file@),
        }
    }
}

impl ServerReply {
    /// A file answer holds exactly one of contents and error.
    pub open spec fn wf(&self) -> bool {
        self@.wf()
    }
}

/// The status under which an answer travels back to the client. Only
/// `Answer` carries one; the other two say why there is none.
#[derive(Debug)]
pub enum ReplyStatus {
    /// The request was accepted; here is the answer.
    Answer(ServerReply),
    /// The password of the request was not the service's.
    AuthFailed,
    /// The password was right, the request could not be read.
    BadRequest,
}

/// The mathematical value of a `ReplyStatus`.
pub enum StatusView {
    Answer(ReplyView),
    AuthFailed,
    BadRequest,
}

impl StatusView {
    /// The answer carried, if any, is well formed.
    pub open spec fn wf(self) -> bool {
        self matches StatusView::Answer(reply) ==> reply.wf()
    }
}

impl View for ReplyStatus {
    type V = StatusView;

    open spec fn view(&self) -> StatusView {
        match self {
            ReplyStatus::Answer(reply) => StatusView::Answer(reply@),
            ReplyStatus::AuthFailed => StatusView::AuthFailed,
            ReplyStatus::BadRequest => StatusView::BadRequest,
        }
    }
}

impl ReplyStatus {
    /// The answer carried, if any, is well formed.
    pub open spec fn wf(&self) -> bool {
        self@.wf()
    }
}

/// Why a text could not be read as a message.
#[derive(Clone, Copy, Debug, PartialEq, Eq, Structural)]
pub enum DecodeError {
    /// The text is not JSON.
    Syntax,
    /// The text is JSON, but not of the shape of the message asked for.
    Shape,
}

} // verus!
