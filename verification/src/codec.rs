//! The wire format, as code: messages are turned into JSON values and back,
//! and printed and parsed as text. Each function is proved to compute what
//! the format says.

use crate::format::{
    decode_reply, decode_request, decode_status, encode_file, encode_list, encode_reply,
    encode_request, encode_status, bytes_json, file_json, forest_json, json_byte, json_bytes, json_file, json_file_node,
    json_folder, json_forest, json_list, json_metadata, json_reply, json_request, json_status,
    json_timestamp, json_tree, list_json, member, metadata_json, reply_json, request_json,
    status_json, tagged, timestamp_json, tree_json, variant,
};
use crate::json::{
    parse_text, print_value, json_items, json_of, map_get, map_insert, map_len, map_new, value_array,
    value_as_array, value_as_bool, value_as_object, value_as_str, value_as_u64, value_bool,
    value_is_null, value_null, value_object, value_string, value_u64, json_text, Json,
};
use crate::protocol::{
    ClientRequest, DecodeError, ReplyStatus, ServerFile,
    ServerList, ServerReply, };
use crate::tree::{forest_view, FileMetadata, FileStruct, FolderItem, PathItem, Timestamp};
use crate::service::same_text;
use crate::tree::TreeNode;
use vstd::prelude::*;

verus! {

// ---------------------------------------------------------------- writing

/// The JSON value of a point in time.
pub fn timestamp_value(time: &Timestamp) -> (value: serde_json::Value)
    ensures
        json_of(value) == timestamp_json(*time),
{
    let mut fields = map_new();
    map_insert(&mut fields, "secs_since_epoch", value_u64(time.secs_since_epoch));
    map_insert(&mut fields, "nanos_since_epoch", value_u64(time.nanos_since_epoch as u64));
    value_object(fields)
}

/// The JSON value of a file's metadata.
pub fn metadata_value(metadata: &FileMetadata) -> (value: serde_json::Value)
    ensures
        json_of(value) == metadata_json(*metadata),
{
    let mut fields = map_new();
    map_insert(&mut fields, "file_size", value_u64(metadata.file_size));
    map_insert(&mut fields, "file_modified", timestamp_value(&metadata.file_modified));
    map_insert(&mut fields, "file_accessed", timestamp_value(&metadata.file_accessed));
    map_insert(&mut fields, "file_created", timestamp_value(&metadata.file_created));
    value_object(fields)
}

/// The object with the one member `tag`, holding `payload`.
fn tagged_value(tag: &str, payload: serde_json::Value) -> (value: serde_json::Value)
    ensures
        json_of(value) == tagged(tag@, json_of(payload)),
{
    let mut fields = map_new();
    map_insert(&mut fields, tag, payload);
    value_object(fields)
}

impl PathItem {
    /// The JSON value of the tree.
    pub fn to_json(&self) -> (value: serde_json::Value)
        ensures
            json_of(value) == tree_json(self@),
        decreases self, 0nat,
    {
        match self {
            PathItem::Folder(folder) => {
                let mut fields = map_new();
                map_insert(&mut fields, "path", value_string(folder.path.clone()));
                map_insert(&mut fields, "opened", value_bool(folder.opened));
                map_insert(&mut fields, "entries", value_array(forest_values(&folder.entries)));
                tagged_value("Folder", value_object(fields))
            },
            PathItem::File(file) => {
                let metadata = match &file.metadata {
                    Some(metadata) => metadata_value(metadata),
                    None => value_null(),
                };
                let mut fields = map_new();
                map_insert(&mut fields, "path", value_string(file.path.clone()));
                map_insert(&mut fields, "metadata", metadata);
                tagged_value("File", value_object(fields))
            },
        }
    }
}

/// The JSON values of a list of trees, in order.
pub fn forest_values(items: &Vec<PathItem>) -> (values: Vec<serde_json::Value>)
    ensures
        json_items(values@) == forest_json(forest_view(items@)),
    decreases items, 1nat,
{
    let mut values: Vec<serde_json::Value> = Vec::new();
    let mut i: usize = 0;
    while i < items.len()
        invariant
            i <= items.len(),
            values.len() == i,
            forall|k: int| 0 <= k < i ==> json_of(#[trigger] values@[k]) == tree_json(items@[k]@),
        decreases items.len() - i,
    {
        values.push(items[i].to_json());
        i += 1;
    }
    assert(json_items(values@) =~= forest_json(forest_view(items@)));
    values
}

/// The JSON values of a run of bytes, in order.
pub fn bytes_values(bytes: &Vec<u8>) -> (values: Vec<serde_json::Value>)
    ensures
        json_items(values@) == bytes_json(bytes@),
{
    let mut values: Vec<serde_json::Value> = Vec::new();
    let mut i: usize = 0;
    while i < bytes.len()
        invariant
            i <= bytes.len(),
            values.len() == i,
            forall|k: int|
                0 <= k < i ==> json_of(#[trigger] values@[k]) == Json::Unsigned(bytes@[k] as u64),
        decreases bytes.len() - i,
    {
        values.push(value_u64(bytes[i] as u64));
        i += 1;
    }
    assert(json_items(values@) =~= bytes_json(bytes@));
    values
}

impl ServerFile {
    /// The JSON value of the file answer.
    pub fn to_json(&self) -> (value: serde_json::Value)
        ensures
            json_of(value) == file_json(self@),
    {
        let bytes = match &self.bytes {
            Some(bytes) => value_array(bytes_values(bytes)),
            None => value_null(),
        };
        let error = match &self.error {
            Some(message) => value_string(message.clone()),
            None => value_null(),
        };
        let mut fields = map_new();
        map_insert(&mut fields, "bytes", bytes);
        map_insert(&mut fields, "path", value_string(self.path.clone()));
        map_insert(&mut fields, "error", error);
        value_object(fields)
    }
}

impl ServerList {
    /// The JSON value of the tree answer.
    pub fn to_json(&self) -> (value: serde_json::Value)
        ensures
            json_of(value) == list_json(self@),
    {
        let mut fields = map_new();
        map_insert(&mut fields, "list", value_array(forest_values(&self.list)));
        value_object(fields)
    }
}

impl ServerReply {
    /// The JSON value of the answer.
    pub fn to_json(&self) -> (value: serde_json::Value)
        ensures
            json_of(value) == reply_json(self@),
    {
        match self {
            ServerReply::List(list) => tagged_value("List", list.to_json()),
            ServerReply::File(file) => tagged_value("File", file.to_json()),
        }
    }
}

impl ReplyStatus {
    /// The JSON value of the status.
    pub fn to_json(&self) -> (value: serde_json::Value)
        ensures
            json_of(value) == status_json(self@),
    {
        match self {
            ReplyStatus::Answer(reply) => tagged_value("Ok", reply.to_json()),
            ReplyStatus::AuthFailed => value_string("AuthFailed".to_owned()),
            ReplyStatus::BadRequest => value_string("BadRequest".to_owned()),
        }
    }
}

impl ClientRequest {
    /// The JSON value of the request.
    pub fn to_json(&self) -> (value: serde_json::Value)
        ensures
            json_of(value) == request_json(self@),
    {
        match self {
            ClientRequest::ListRequest => value_string("ListRequest".to_owned()),
            ClientRequest::FileRequest(path) => tagged_value(
                "FileRequest",
                value_string(path.clone()),
            ),
        }
    }
}

// ---------------------------------------------------------------- reading

/// `found` is the value whose document is `document`, or neither is there.
pub open spec fn found_is(found: Option<&serde_json::Value>, document: Option<Json>) -> bool {
    match found {
        Some(value) => document == Some(json_of(*value)),
        None => document is None,
    }
}

/// The payload of `value`, where it is an object with exactly one member
/// and that member is named `tag`.
fn variant_of<'a>(value: &'a serde_json::Value, tag: &str) -> (payload: Option<
    &'a serde_json::Value,
>)
    ensures
        found_is(payload, variant(json_of(*value), tag@)),
{
    match value_as_object(value) {
        Some(fields) => if map_len(fields) == 1 {
            map_get(fields, tag)
        } else {
            None
        },
        None => None,
    }
}

/// The member `key` of `value`, where it is an object that has one.
fn member_of<'a>(value: &'a serde_json::Value, key: &str) -> (found: Option<
    &'a serde_json::Value,
>)
    ensures
        found_is(found, member(json_of(*value), key@)),
{
    match value_as_object(value) {
        Some(fields) => map_get(fields, key),
        None => None,
    }
}

/// Reads a point in time.
pub fn timestamp_from_value(value: &serde_json::Value) -> (time: Option<Timestamp>)
    ensures
        time == json_timestamp(json_of(*value)),
{
    let secs = match member_of(value, "secs_since_epoch") {
        Some(secs) => value_as_u64(secs),
        None => None,
    };
    let nanos = match member_of(value, "nanos_since_epoch") {
        Some(nanos) => value_as_u64(nanos),
        None => None,
    };
    match (secs, nanos) {
        (Some(secs), Some(nanos)) => if nanos <= u32::MAX as u64 {
            Some(Timestamp { secs_since_epoch: secs, nanos_since_epoch: nanos as u32 })
        } else {
            None
        },
        _ => None,
    }
}

/// Reads the member `key` of `value` as a point in time.
fn timestamp_member(value: &serde_json::Value, key: &str) -> (time: Option<Timestamp>)
    ensures
        time == (match member(json_of(*value), key@) {
            Some(document) => json_timestamp(document),
            None => None,
        }),
{
    match member_of(value, key) {
        Some(found) => timestamp_from_value(found),
        None => None,
    }
}

/// Reads a file's metadata.
pub fn metadata_from_value(value: &serde_json::Value) -> (metadata: Option<FileMetadata>)
    ensures
        metadata == json_metadata(json_of(*value)),
{
    let size = match member_of(value, "file_size") {
        Some(size) => value_as_u64(size),
        None => None,
    };
    let modified = timestamp_member(value, "file_modified");
    let accessed = timestamp_member(value, "file_accessed");
    let created = timestamp_member(value, "file_created");
    match (size, modified, accessed, created) {
        (Some(size), Some(modified), Some(accessed), Some(created)) => Some(
            FileMetadata {
                file_size: size,
                file_modified: modified,
                file_accessed: accessed,
                file_created: created,
            },
        ),
        _ => None,
    }
}

/// `item`, if any, stands for the tree `node`, if any.
pub open spec fn tree_is(item: Option<PathItem>, node: Option<TreeNode>) -> bool {
    match item {
        Some(item) => node == Some(item@),
        None => node is None,
    }
}

/// Reads the payload of a `File` node.
fn file_node_from_value(value: &serde_json::Value) -> (item: Option<PathItem>)
    ensures
        tree_is(item, json_file_node(json_of(*value))),
{
    let fields = match value_as_object(value) {
        Some(fields) => fields,
        None => { return None; },
    };
    let path = match map_get(fields, "path") {
        Some(path) => match value_as_str(path) {
            Some(path) => path.to_owned(),
            None => { return None; },
        },
        None => { return None; },
    };
    let metadata = match map_get(fields, "metadata") {
        Some(metadata) => if value_is_null(metadata) {
            None
        } else {
            match metadata_from_value(metadata) {
                Some(metadata) => Some(metadata),
                None => { return None; },
            }
        },
        None => None,
    };
    Some(PathItem::File(FileStruct { path, metadata }))
}

/// Reads the payload of a `Folder` node.
fn folder_from_value(value: &serde_json::Value) -> (item: Option<PathItem>)
    ensures
        tree_is(item, json_folder(json_of(*value))),
    decreases json_of(*value),
{
    let fields = match value_as_object(value) {
        Some(fields) => fields,
        None => { return None; },
    };
    let path = match map_get(fields, "path") {
        Some(path) => path,
        None => { return None; },
    };
    let opened = match map_get(fields, "opened") {
        Some(opened) => opened,
        None => { return None; },
    };
    let entries = match map_get(fields, "entries") {
        Some(entries) => entries,
        None => { return None; },
    };
    match (value_as_str(path), value_as_bool(opened), value_as_array(entries)) {
        (Some(path), Some(opened), Some(items)) => match forest_from_values(items) {
            Some(entries) => Some(
                PathItem::Folder(FolderItem { path: path.to_owned(), opened, entries }),
            ),
            None => None,
        },
        _ => None,
    }
}

/// Reads a list of trees: all of them, or none where one cannot be read.
pub fn forest_from_values(values: &Vec<serde_json::Value>) -> (items: Option<Vec<PathItem>>)
    ensures
        match items {
            Some(items) => json_forest(json_items(values@)) == Some(forest_view(items@)),
            None => json_forest(json_items(values@)) is None,
        },
    decreases json_items(values@),
{
    let ghost documents = json_items(values@);
    let mut items: Vec<PathItem> = Vec::new();
    let mut i: usize = 0;
    while i < values.len()
        invariant
            i <= values.len(),
            items.len() == i,
            documents == json_items(values@),
            forall|k: int| 0 <= k < i ==> json_tree(#[trigger] documents[k]) == Some(items@[k]@),
        decreases values.len() - i,
    {
        match PathItem::from_value(&values[i]) {
            Some(item) => {
                items.push(item);
            },
            None => {
                assert(json_tree(documents[i as int]) is None);
                return None;
            },
        }
        i += 1;
    }
    assert(json_forest(documents)->0 =~= forest_view(items@));
    Some(items)
}

impl PathItem {
    /// Reads a tree.
    pub fn from_value(value: &serde_json::Value) -> (item: Option<PathItem>)
        ensures
            tree_is(item, json_tree(json_of(*value))),
        decreases json_of(*value),
    {
        let fields = match value_as_object(value) {
            Some(fields) => fields,
            None => { return None; },
        };
        if map_len(fields) != 1 {
            return None;
        }
        match map_get(fields, "Folder") {
            Some(folder) => folder_from_value(folder),
            None => match map_get(fields, "File") {
                Some(file) => file_node_from_value(file),
                None => None,
            },
        }
    }
}

/// Reads a run of bytes: all of them, or none where one is no byte.
pub fn bytes_from_values(values: &Vec<serde_json::Value>) -> (bytes: Option<Vec<u8>>)
    ensures
        match bytes {
            Some(bytes) => json_bytes(json_items(values@)) == Some(bytes@),
            None => json_bytes(json_items(values@)) is None,
        },
{
    let ghost documents = json_items(values@);
    let mut bytes: Vec<u8> = Vec::new();
    let mut i: usize = 0;
    while i < values.len()
        invariant
            i <= values.len(),
            bytes.len() == i,
            documents == json_items(values@),
            forall|k: int| 0 <= k < i ==> json_byte(#[trigger] documents[k]) == Some(bytes@[k]),
        decreases values.len() - i,
    {
        match value_as_u64(&values[i]) {
            Some(number) => {
                if number > u8::MAX as u64 {
                    assert(json_byte(documents[i as int]) is None);
                    return None;
                }
                bytes.push(number as u8);
            },
            None => {
                assert(json_byte(documents[i as int]) is None);
                return None;
            },
        }
        i += 1;
    }
    assert(json_bytes(documents)->0 =~= bytes@);
    Some(bytes)
}

impl ServerFile {
    /// Reads a file answer.
    pub fn from_value(value: &serde_json::Value) -> (file: Option<ServerFile>)
        ensures
            match file {
                Some(file) => json_file(json_of(*value)) == Some(file@),
                None => json_file(json_of(*value)) is None,
            },
    {
        let fields = match value_as_object(value) {
            Some(fields) => fields,
            None => { return None; },
        };
        let path = match map_get(fields, "path") {
            Some(path) => match value_as_str(path) {
                Some(path) => path.to_owned(),
                None => { return None; },
            },
            None => { return None; },
        };
        let bytes = match map_get(fields, "bytes") {
            Some(bytes) => if value_is_null(bytes) {
                None
            } else {
                match value_as_array(bytes) {
                    Some(items) => match bytes_from_values(items) {
                        Some(bytes) => Some(bytes),
                        None => { return None; },
                    },
                    None => { return None; },
                }
            },
            None => None,
        };
        let error = match map_get(fields, "error") {
            Some(error) => if value_is_null(error) {
                None
            } else {
                match value_as_str(error) {
                    Some(message) => Some(message.to_owned()),
                    None => { return None; },
                }
            },
            None => None,
        };
        if bytes.is_some() == error.is_some() {
            return None;
        }
        Some(ServerFile { bytes, path, error })
    }

    /// The text that the file answer travels as.
    pub fn serialize(&self) -> (text: String)
        ensures
            text@ == encode_file(self@),
    {
        print(&self.to_json())
    }
}

impl ServerList {
    /// Reads a tree answer.
    pub fn from_value(value: &serde_json::Value) -> (list: Option<ServerList>)
        ensures
            match list {
                Some(list) => json_list(json_of(*value)) == Some(list@),
                None => json_list(json_of(*value)) is None,
            },
    {
        match member_of(value, "list") {
            Some(list) => match value_as_array(list) {
                Some(items) => match forest_from_values(items) {
                    Some(list) => Some(ServerList { list }),
                    None => None,
                },
                None => None,
            },
            None => None,
        }
    }

    /// The text that the tree answer travels as.
    pub fn serialize(&self) -> (text: String)
        ensures
            text@ == encode_list(self@),
    {
        print(&self.to_json())
    }
}

impl ServerReply {
    /// Reads an answer.
    pub fn from_value(value: &serde_json::Value) -> (reply: Option<ServerReply>)
        ensures
            match reply {
                Some(reply) => json_reply(json_of(*value)) == Some(reply@),
                None => json_reply(json_of(*value)) is None,
            },
    {
        match variant_of(value, "List") {
            Some(list) => match ServerList::from_value(list) {
                Some(list) => Some(ServerReply::List(list)),
                None => None,
            },
            None => match variant_of(value, "File") {
                Some(file) => match ServerFile::from_value(file) {
                    Some(file) => Some(ServerReply::File(file)),
                    None => None,
                },
                None => None,
            },
        }
    }

    /// The text that the answer travels as.
    pub fn serialize(&self) -> (text: String)
        ensures
            text@ == encode_reply(self@),
    {
        print(&self.to_json())
    }

    /// Reads an answer from its text.
    pub fn deserialize(text: &str) -> (reply: Result<ServerReply, DecodeError>)
        ensures
            match reply {
                Ok(reply) => decode_reply(text@) matches Ok(read) && read == reply@,
                Err(error) => decode_reply(text@) matches Err(why) && why == error,
            },
    {
        match parse_text(text) {
            Ok(value) => match ServerReply::from_value(&value) {
                Some(reply) => Ok(reply),
                None => Err(DecodeError::Shape),
            },
            Err(_) => Err(DecodeError::Syntax),
        }
    }
}

impl ReplyStatus {
    /// Reads a status.
    pub fn from_value(value: &serde_json::Value) -> (status: Option<ReplyStatus>)
        ensures
            match status {
                Some(status) => json_status(json_of(*value)) == Some(status@),
                None => json_status(json_of(*value)) is None,
            },
    {
        match value_as_str(value) {
            Some(name) => if same_text(name, "AuthFailed") {
                Some(ReplyStatus::AuthFailed)
            } else if same_text(name, "BadRequest") {
                Some(ReplyStatus::BadRequest)
            } else {
                None
            },
            None => match variant_of(value, "Ok") {
                Some(reply) => match ServerReply::from_value(reply) {
                    Some(reply) => Some(ReplyStatus::Answer(reply)),
                    None => None,
                },
                None => None,
            },
        }
    }

    /// The text that the status travels as.
    pub fn serialize(&self) -> (text: String)
        ensures
            text@ == encode_status(self@),
    {
        print(&self.to_json())
    }

    /// Reads a status from its text.
    pub fn deserialize(text: &str) -> (status: Result<ReplyStatus, DecodeError>)
        ensures
            match status {
                Ok(status) => decode_status(text@) matches Ok(read) && read == status@,
                Err(error) => decode_status(text@) matches Err(why) && why == error,
            },
    {
        match parse_text(text) {
            Ok(value) => match ReplyStatus::from_value(&value) {
                Some(status) => Ok(status),
                None => Err(DecodeError::Shape),
            },
            Err(_) => Err(DecodeError::Syntax),
        }
    }
}

impl ClientRequest {
    /// Reads a request.
    pub fn from_value(value: &serde_json::Value) -> (request: Option<ClientRequest>)
        ensures
            match request {
                Some(request) => json_request(json_of(*value)) == Some(request@),
                None => json_request(json_of(*value)) is None,
            },
    {
        match value_as_str(value) {
            Some(name) => if same_text(name, "ListRequest") {
                Some(ClientRequest::ListRequest)
            } else {
                None
            },
            None => match variant_of(value, "FileRequest") {
                Some(path) => match value_as_str(path) {
                    Some(path) => Some(ClientRequest::FileRequest(path.to_owned())),
                    None => None,
                },
                None => None,
            },
        }
    }

    /// The text that the request travels as.
    pub fn serialize(&self) -> (text: String)
        ensures
            text@ == encode_request(self@),
    {
        print(&self.to_json())
    }

    /// Reads a request from its text.
    pub fn deserialize(text: &str) -> (request: Result<ClientRequest, DecodeError>)
        ensures
            match request {
                Ok(request) => decode_request(text@) matches Ok(read) && read == request@,
                Err(error) => decode_request(text@) matches Err(why) && why == error,
            },
    {
        match parse_text(text) {
            Ok(value) => match ClientRequest::from_value(&value) {
                Some(request) => Ok(request),
                None => Err(DecodeError::Shape),
            },
            Err(_) => Err(DecodeError::Syntax),
        }
    }
}

/// The text of a JSON value.
fn print(value: &serde_json::Value) -> (text: String)
    ensures
        text@ == json_text(json_of(*value)),
{
    match print_value(value) {
        Ok(text) => text,
        Err(_) => vstd::pervasive::unreached(),
    }
}

} // verus!
