//! The wire format, as mathematics: which JSON document stands for which
//! message, and which message a JSON document is read as.
//!
//! Every message is a tagged union. A variant without fields is the string of
//! its name; a variant with a payload is an object with one member, named
//! after the variant. A record is an object with one member per field; a field
//! that may be absent is written as `null`, and a reader takes a missing
//! member for an absent field. Members that a reader does not know are
//! passed over.

use crate::json::{json_parse, json_text, no_members, Json};
use crate::protocol::{DecodeError, FileView, ReplyView, RequestView, StatusView};
use crate::tree::{FileMetadata, Timestamp, TreeNode};
use vstd::prelude::*;

verus! {

/// The object with the one member `tag`, holding `payload`.
pub open spec fn tagged(tag: Seq<char>, payload: Json) -> Json {
    Json::Object(no_members().insert(tag, payload))
}

/// The payload of `document`, where it is an object with exactly one member
/// and that member is named `tag`.
pub open spec fn variant(document: Json, tag: Seq<char>) -> Option<Json> {
    match document {
        Json::Object(members) => if members.dom().finite() && members.dom().len() == 1
            && members.dom().contains(tag) {
            Some(members[tag])
        } else {
            None
        },
        _ => None,
    }
}

/// The member `key` of `document`, where it is an object that has one.
pub open spec fn member(document: Json, key: Seq<char>) -> Option<Json> {
    match document {
        Json::Object(members) => if members.dom().finite() && members.dom().contains(key) {
            Some(members[key])
        } else {
            None
        },
        _ => None,
    }
}

/// The member `key` of `document`, with a missing member read as `null`.
/// `None` where `document` is no object.
pub open spec fn optional_member(document: Json, key: Seq<char>) -> Option<Json> {
    match document {
        Json::Object(members) => if members.dom().finite() && members.dom().contains(key) {
            Some(members[key])
        } else {
            Some(Json::Null)
        },
        _ => None,
    }
}

// ---------------------------------------------------------------- writing

pub open spec fn timestamp_json(time: Timestamp) -> Json {
    Json::Object(
        no_members().insert("secs_since_epoch"@, Json::Unsigned(time.secs_since_epoch)).insert(
            "nanos_since_epoch"@,
            Json::Unsigned(time.nanos_since_epoch as u64),
        ),
    )
}

pub open spec fn metadata_json(metadata: FileMetadata) -> Json {
    Json::Object(
        no_members().insert("file_size"@, Json::Unsigned(metadata.file_size)).insert(
            "file_modified"@,
            timestamp_json(metadata.file_modified),
        ).insert("file_accessed"@, timestamp_json(metadata.file_accessed)).insert(
            "file_created"@,
            timestamp_json(metadata.file_created),
        ),
    )
}

pub open spec fn optional_metadata_json(metadata: Option<FileMetadata>) -> Json {
    match metadata {
        Some(metadata) => metadata_json(metadata),
        None => Json::Null,
    }
}

pub open spec fn tree_json(node: TreeNode) -> Json
    decreases node,
{
    match node {
        TreeNode::Folder { path, opened, entries } => tagged(
            "Folder"@,
            Json::Object(
                no_members().insert("path"@, Json::Text(path)).insert(
                    "opened"@,
                    Json::Bool(opened),
                ).insert("entries"@, Json::Array(forest_json(entries))),
            ),
        ),
        TreeNode::File { path, metadata } => tagged(
            "File"@,
            Json::Object(
                no_members().insert("path"@, Json::Text(path)).insert(
                    "metadata"@,
                    optional_metadata_json(metadata),
                ),
            ),
        ),
    }
}

pub open spec fn forest_json(nodes: Seq<TreeNode>) -> Seq<Json>
    decreases nodes,
{
    Seq::new(
        nodes.len(),
        |i: int|
            if 0 <= i < nodes.len() {
                tree_json(nodes[i])
            } else {
                Json::Null
            },
    )
}

pub open spec fn bytes_json(bytes: Seq<u8>) -> Seq<Json> {
    Seq::new(bytes.len(), |i: int| Json::Unsigned(bytes[i] as u64))
}

pub open spec fn optional_bytes_json(bytes: Option<Seq<u8>>) -> Json {
    match bytes {
        Some(bytes) => Json::Array(bytes_json(bytes)),
        None => Json::Null,
    }
}

pub open spec fn optional_text_json(text: Option<Seq<char>>) -> Json {
    match text {
        Some(text) => Json::Text(text),
        None => Json::Null,
    }
}

pub open spec fn file_json(file: FileView) -> Json {
    Json::Object(
        no_members().insert("bytes"@, optional_bytes_json(file.bytes)).insert(
            "path"@,
            Json::Text(file.path),
        ).insert("error"@, optional_text_json(file.error)),
    )
}

pub open spec fn list_json(nodes: Seq<TreeNode>) -> Json {
    Json::Object(no_members().insert("list"@, Json::Array(forest_json(nodes))))
}

/// The document that stands for a request.
pub open spec fn request_json(request: RequestView) -> Json {
    match request {
        RequestView::ListRequest => Json::Text("ListRequest"@),
        RequestView::FileRequest(path) => tagged("FileRequest"@, Json::Text(path)),
    }
}

/// The document that stands for an answer.
pub open spec fn reply_json(reply: ReplyView) -> Json {
    match reply {
        ReplyView::List(nodes) => tagged("List"@, list_json(nodes)),
        ReplyView::File(file) => tagged("File"@, file_json(file)),
    }
}

/// The document that stands for a status.
pub open spec fn status_json(status: StatusView) -> Json {
    match status {
        StatusView::Answer(reply) => tagged("Ok"@, reply_json(reply)),
        StatusView::AuthFailed => Json::Text("AuthFailed"@),
        StatusView::BadRequest => Json::Text("BadRequest"@),
    }
}

// ---------------------------------------------------------------- reading

pub open spec fn json_timestamp(document: Json) -> Option<Timestamp> {
    match (member(document, "secs_since_epoch"@), member(document, "nanos_since_epoch"@)) {
        (Some(Json::Unsigned(secs)), Some(Json::Unsigned(nanos))) => if nanos <= u32::MAX {
            Some(Timestamp { secs_since_epoch: secs, nanos_since_epoch: nanos as u32 })
        } else {
            None
        },
        _ => None,
    }
}

pub open spec fn json_metadata(document: Json) -> Option<FileMetadata> {
    match (
        member(document, "file_size"@),
        member(document, "file_modified"@),
        member(document, "file_accessed"@),
        member(document, "file_created"@),
    ) {
        (Some(Json::Unsigned(size)), Some(modified), Some(accessed), Some(created)) => match (
            json_timestamp(modified),
            json_timestamp(accessed),
            json_timestamp(created),
        ) {
            (Some(modified), Some(accessed), Some(created)) => Some(
                FileMetadata {
                    file_size: size,
                    file_modified: modified,
                    file_accessed: accessed,
                    file_created: created,
                },
            ),
            _ => None,
        },
        _ => None,
    }
}

/// An optional record of metadata: `null` reads as absent.
pub open spec fn json_optional_metadata(document: Json) -> Option<Option<FileMetadata>> {
    match document {
        Json::Null => Some(None),
        _ => match json_metadata(document) {
            Some(metadata) => Some(Some(metadata)),
            None => None,
        },
    }
}

pub open spec fn json_tree(document: Json) -> Option<TreeNode>
    decreases document,
{
    match document {
        Json::Object(members) => if members.dom().finite() && members.dom().len() == 1 {
            if members.dom().contains("Folder"@) {
                json_folder(members["Folder"@])
            } else if members.dom().contains("File"@) {
                json_file_node(members["File"@])
            } else {
                None
            }
        } else {
            None
        },
        _ => None,
    }
}

pub open spec fn json_folder(document: Json) -> Option<TreeNode>
    decreases document,
{
    match document {
        Json::Object(members) => if members.dom().finite() && members.dom().contains("path"@)
            && members.dom().contains("opened"@) && members.dom().contains("entries"@) {
            match (members["path"@], members["opened"@], members["entries"@]) {
                (Json::Text(path), Json::Bool(opened), Json::Array(items)) => match json_forest(
                    items,
                ) {
                    Some(entries) => Some(TreeNode::Folder { path, opened, entries }),
                    None => None,
                },
                _ => None,
            }
        } else {
            None
        },
        _ => None,
    }
}

pub open spec fn json_file_node(document: Json) -> Option<TreeNode> {
    match (member(document, "path"@), optional_member(document, "metadata"@)) {
        (Some(Json::Text(path)), Some(metadata)) => match json_optional_metadata(metadata) {
            Some(metadata) => Some(TreeNode::File { path, metadata }),
            None => None,
        },
        _ => None,
    }
}

pub open spec fn json_forest(items: Seq<Json>) -> Option<Seq<TreeNode>>
    decreases items,
{
    if forall|i: int| 0 <= i < items.len() ==> json_tree(#[trigger] items[i]) is Some {
        Some(
            Seq::new(
                items.len(),
                |i: int|
                    if 0 <= i < items.len() {
                        json_tree(items[i])->0
                    } else {
                        arbitrary()
                    },
            ),
        )
    } else {
        None
    }
}

pub open spec fn json_byte(document: Json) -> Option<u8> {
    match document {
        Json::Unsigned(n) => if n <= u8::MAX {
            Some(n as u8)
        } else {
            None
        },
        _ => None,
    }
}

pub open spec fn json_bytes(items: Seq<Json>) -> Option<Seq<u8>> {
    if forall|i: int| 0 <= i < items.len() ==> json_byte(#[trigger] items[i]) is Some {
        Some(Seq::new(items.len(), |i: int| json_byte(items[i])->0))
    } else {
        None
    }
}

pub open spec fn json_optional_bytes(document: Json) -> Option<Option<Seq<u8>>> {
    match document {
        Json::Null => Some(None),
        Json::Array(items) => match json_bytes(items) {
            Some(bytes) => Some(Some(bytes)),
            None => None,
        },
        _ => None,
    }
}

pub open spec fn json_optional_text(document: Json) -> Option<Option<Seq<char>>> {
    match document {
        Json::Null => Some(None),
        Json::Text(text) => Some(Some(text)),
        _ => None,
    }
}

/// A file answer is read only where it holds exactly one of contents and
/// error.
pub open spec fn json_file(document: Json) -> Option<FileView> {
    match (
        optional_member(document, "bytes"@),
        member(document, "path"@),
        optional_member(document, "error"@),
    ) {
        (Some(bytes), Some(Json::Text(path)), Some(error)) => match (
            json_optional_bytes(bytes),
            json_optional_text(error),
        ) {
            (Some(bytes), Some(error)) => {
                let file = FileView { path, bytes, error };
                if file.wf() {
                    Some(file)
                } else {
                    None
                }
            },
            _ => None,
        },
        _ => None,
    }
}

pub open spec fn json_list(document: Json) -> Option<Seq<TreeNode>> {
    match member(document, "list"@) {
        Some(Json::Array(items)) => json_forest(items),
        _ => None,
    }
}

/// The request that a document stands for, if any.
pub open spec fn json_request(document: Json) -> Option<RequestView> {
    match document {
        Json::Text(name) => if name == "ListRequest"@ {
            Some(RequestView::ListRequest)
        } else {
            None
        },
        _ => match variant(document, "FileRequest"@) {
            Some(Json::Text(path)) => Some(RequestView::FileRequest(path)),
            _ => None,
        },
    }
}

/// The answer that a document stands for, if any.
pub open spec fn json_reply(document: Json) -> Option<ReplyView> {
    match variant(document, "List"@) {
        Some(list) => match json_list(list) {
            Some(nodes) => Some(ReplyView::List(nodes)),
            None => None,
        },
        None => match variant(document, "File"@) {
            Some(file) => match json_file(file) {
                Some(file) => Some(ReplyView::File(file)),
                None => None,
            },
            None => None,
        },
    }
}

/// The status that a document stands for, if any.
pub open spec fn json_status(document: Json) -> Option<StatusView> {
    match document {
        Json::Text(name) => if name == "AuthFailed"@ {
            Some(StatusView::AuthFailed)
        } else if name == "BadRequest"@ {
            Some(StatusView::BadRequest)
        } else {
            None
        },
        _ => match variant(document, "Ok"@) {
            Some(reply) => match json_reply(reply) {
                Some(reply) => Some(StatusView::Answer(reply)),
                None => None,
            },
            None => None,
        },
    }
}

// ---------------------------------------------------------------- as text

/// The text that a request travels as.
pub open spec fn encode_request(request: RequestView) -> Seq<char> {
    json_text(request_json(request))
}

/// The text that an answer travels as.
pub open spec fn encode_reply(reply: ReplyView) -> Seq<char> {
    json_text(reply_json(reply))
}

/// The text that a tree answer travels as, taken alone.
pub open spec fn encode_list(nodes: Seq<TreeNode>) -> Seq<char> {
    json_text(list_json(nodes))
}

/// The text that a file answer travels as, taken alone.
pub open spec fn encode_file(file: FileView) -> Seq<char> {
    json_text(file_json(file))
}

/// The text that a status travels as.
pub open spec fn encode_status(status: StatusView) -> Seq<char> {
    json_text(status_json(status))
}

/// What a text is read as, given what `read` makes of a document: a syntax
/// error where the text is not JSON, a shape error where `read` cannot read
/// the document.
pub open spec fn decode_with<T>(text: Seq<char>, read: spec_fn(Json) -> Option<T>) -> Result<
    T,
    DecodeError,
> {
    match json_parse(text) {
        None => Err(DecodeError::Syntax),
        Some(document) => match read(document) {
            Some(message) => Ok(message),
            None => Err(DecodeError::Shape),
        },
    }
}

/// The outcome of a reading that gave `message`.
pub open spec fn decoded<T>(message: T) -> Result<T, DecodeError> {
    Ok(message)
}

/// The request that a text is read as.
pub open spec fn decode_request(text: Seq<char>) -> Result<RequestView, DecodeError> {
    decode_with(text, |document: Json| json_request(document))
}

/// The answer that a text is read as.
pub open spec fn decode_reply(text: Seq<char>) -> Result<ReplyView, DecodeError> {
    decode_with(text, |document: Json| json_reply(document))
}

/// The status that a text is read as.
pub open spec fn decode_status(text: Seq<char>) -> Result<StatusView, DecodeError> {
    decode_with(text, |document: Json| json_status(document))
}

} // verus!
