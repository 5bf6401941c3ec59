//! Authenticated request/reply file transfer: the message algebra and its
//! JSON wire form, the directory-tree snapshot, the password-checking session
//! service, and the single-flight client bridge, each with a verified contract.

pub mod bridge;
pub mod client;
pub mod codec;
pub mod format;
pub mod json;
pub mod laws;
pub mod protocol;
pub mod server;
pub mod service;
pub mod tree;

pub use bridge::{connect, Bridge};
pub use client::Client;
pub use protocol::{ClientRequest, ReplyStatus, ServerFile, ServerList, ServerReply};
pub use server::{server_spawner, Server};
pub use service::FileService;
pub use tree::{iter_folder, FileMetadata, FileStruct, FolderItem, PathItem};
