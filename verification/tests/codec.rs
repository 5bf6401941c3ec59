use file_hosting::protocol::{
    ClientRequest, DecodeError, ReplyStatus, ServerFile, ServerList, ServerReply,
};
use file_hosting::tree::{FileMetadata, FileStruct, FolderItem, PathItem, Timestamp};

fn stamp(secs: u64, nanos: u32) -> Timestamp {
    Timestamp { secs_since_epoch: secs, nanos_since_epoch: nanos }
}

fn sample_tree() -> Vec<PathItem> {
    let metadata = FileMetadata {
        file_size: 2,
        file_modified: stamp(10, 1),
        file_accessed: stamp(20, 2),
        file_created: stamp(30, 3),
    };
    vec![
        PathItem::File(FileStruct { path: "R/a.txt".to_string(), metadata: Some(metadata) }),
        PathItem::Folder(FolderItem {
            path: "R/sub".to_string(),
            opened: true,
            entries: vec![PathItem::File(FileStruct {
                path: "R/sub/b.txt".to_string(),
                metadata: None,
            })],
        }),
    ]
}

#[test]
fn list_request_is_written_as_its_name() {
    assert_eq!(ClientRequest::ListRequest.serialize(), "\"ListRequest\"");
}

#[test]
fn file_request_is_written_as_a_tagged_path() {
    let request = ClientRequest::FileRequest("R/a.txt".to_string());
    assert_eq!(request.serialize(), "{\"FileRequest\":\"R/a.txt\"}");
}

#[test]
fn request_round_trip() {
    let list = ClientRequest::deserialize(&ClientRequest::ListRequest.serialize());
    assert!(matches!(list, Ok(ClientRequest::ListRequest)));
    let file = ClientRequest::FileRequest("dir/ünï \"code\"\n.txt".to_string());
    match ClientRequest::deserialize(&file.serialize()) {
        Ok(ClientRequest::FileRequest(path)) => assert_eq!(path, "dir/ünï \"code\"\n.txt"),
        other => panic!("unexpected {:?}", other),
    }
}

#[test]
fn text_that_is_not_json_is_a_syntax_error() {
    assert!(matches!(ClientRequest::deserialize("not json"), Err(DecodeError::Syntax)));
    assert!(matches!(ServerReply::deserialize("{"), Err(DecodeError::Syntax)));
    assert!(matches!(ReplyStatus::deserialize(""), Err(DecodeError::Syntax)));
}

#[test]
fn json_of_another_shape_is_a_shape_error() {
    assert!(matches!(ClientRequest::deserialize("{}"), Err(DecodeError::Shape)));
    assert!(matches!(ClientRequest::deserialize("\"Other\""), Err(DecodeError::Shape)));
    assert!(matches!(ClientRequest::deserialize("{\"FileRequest\":7}"), Err(DecodeError::Shape)));
    assert!(matches!(
        ClientRequest::deserialize("{\"FileRequest\":\"a\",\"more\":1}"),
        Err(DecodeError::Shape)
    ));
    assert!(matches!(ServerReply::deserialize("\"ListRequest\""), Err(DecodeError::Shape)));
    assert!(matches!(ReplyStatus::deserialize("[1,2]"), Err(DecodeError::Shape)));
}

#[test]
fn file_answer_with_contents_is_written_exactly() {
    let file = ServerFile::new("R/a.txt".to_string(), Ok(b"hi".to_vec()));
    assert_eq!(file.serialize(), "{\"bytes\":[104,105],\"error\":null,\"path\":\"R/a.txt\"}");
    let reply = ServerReply::File(file);
    assert_eq!(
        reply.serialize(),
        "{\"File\":{\"bytes\":[104,105],\"error\":null,\"path\":\"R/a.txt\"}}"
    );
}

#[test]
fn file_answer_with_error_is_written_exactly() {
    let file = ServerFile::new("x".to_string(), Err("gone".to_string()));
    assert_eq!(file.serialize(), "{\"bytes\":null,\"error\":\"gone\",\"path\":\"x\"}");
}

#[test]
fn server_file_new_holds_exactly_one_of_bytes_and_error() {
    let ok = ServerFile::new("p".to_string(), Ok(vec![1, 2, 3]));
    assert_eq!(ok.bytes, Some(vec![1, 2, 3]));
    assert_eq!(ok.error, None);
    assert_eq!(ok.path, "p");
    let failed = ServerFile::new("q".to_string(), Err("denied".to_string()));
    assert_eq!(failed.bytes, None);
    assert_eq!(failed.error, Some("denied".to_string()));
    assert_eq!(failed.path, "q");
}

#[test]
fn tree_answer_is_written_exactly() {
    let list = ServerList::new(vec![PathItem::File(FileStruct {
        path: "a".to_string(),
        metadata: Some(FileMetadata {
            file_size: 2048,
            file_modified: stamp(1, 2),
            file_accessed: stamp(3, 4),
            file_created: stamp(5, 6),
        }),
    })]);
    let expected = concat_all(&[
        "{\"list\":[{\"File\":{\"metadata\":{",
        "\"file_accessed\":{\"nanos_since_epoch\":4,\"secs_since_epoch\":3},",
        "\"file_created\":{\"nanos_since_epoch\":6,\"secs_since_epoch\":5},",
        "\"file_modified\":{\"nanos_since_epoch\":2,\"secs_since_epoch\":1},",
        "\"file_size\":2048},\"path\":\"a\"}}]}",
    ]);
    assert_eq!(list.serialize(), expected);
}

fn concat_all(parts: &[&str]) -> String {
    let mut whole = String::new();
    for part in parts {
        whole.push_str(part);
    }
    whole
}

#[test]
fn folder_is_written_exactly() {
    let folder = PathItem::Folder(FolderItem {
        path: "d".to_string(),
        opened: false,
        entries: Vec::new(),
    });
    let list = ServerList::new(vec![folder]);
    assert_eq!(
        list.serialize(),
        "{\"list\":[{\"Folder\":{\"entries\":[],\"opened\":false,\"path\":\"d\"}}]}"
    );
}

#[test]
fn reply_round_trip_list() {
    let reply = ServerReply::List(ServerList::new(sample_tree()));
    let text = reply.serialize();
    let back = ServerReply::deserialize(&text).expect("a written answer is read back");
    assert_eq!(back.serialize(), text);
    match back {
        ServerReply::List(list) => {
            assert_eq!(list.list.len(), 2);
            match &list.list[0] {
                PathItem::File(file) => {
                    assert_eq!(file.path, "R/a.txt");
                    let metadata = file.metadata.expect("metadata kept");
                    assert_eq!(metadata.file_size, 2);
                    assert_eq!(metadata.file_modified, stamp(10, 1));
                    assert_eq!(metadata.file_accessed, stamp(20, 2));
                    assert_eq!(metadata.file_created, stamp(30, 3));
                }
                other => panic!("unexpected {:?}", other),
            }
            match &list.list[1] {
                PathItem::Folder(folder) => {
                    assert_eq!(folder.path, "R/sub");
                    assert!(folder.opened);
                    assert_eq!(folder.entries.len(), 1);
                    assert_eq!(folder.entries[0].get_path(), "R/sub/b.txt");
                    assert!(matches!(
                        &folder.entries[0],
                        PathItem::File(FileStruct { metadata: None, .. })
                    ));
                }
                other => panic!("unexpected {:?}", other),
            }
        }
        other => panic!("unexpected {:?}", other),
    }
}

#[test]
fn reply_round_trip_file() {
    let all_bytes: Vec<u8> = (0..=255).collect();
    let reply = ServerReply::File(ServerFile::new("f".to_string(), Ok(all_bytes.clone())));
    match ServerReply::deserialize(&reply.serialize()) {
        Ok(ServerReply::File(file)) => {
            assert_eq!(file.path, "f");
            assert_eq!(file.bytes, Some(all_bytes));
            assert_eq!(file.error, None);
        }
        other => panic!("unexpected {:?}", other),
    }
    let failed = ServerReply::File(ServerFile::new("g".to_string(), Err("no".to_string())));
    match ServerReply::deserialize(&failed.serialize()) {
        Ok(ServerReply::File(file)) => {
            assert_eq!(file.path, "g");
            assert_eq!(file.bytes, None);
            assert_eq!(file.error, Some("no".to_string()));
        }
        other => panic!("unexpected {:?}", other),
    }
}

#[test]
fn status_round_trip() {
    assert_eq!(ReplyStatus::AuthFailed.serialize(), "\"AuthFailed\"");
    assert_eq!(ReplyStatus::BadRequest.serialize(), "\"BadRequest\"");
    assert!(matches!(ReplyStatus::deserialize("\"AuthFailed\""), Ok(ReplyStatus::AuthFailed)));
    assert!(matches!(ReplyStatus::deserialize("\"BadRequest\""), Ok(ReplyStatus::BadRequest)));
    let status = ReplyStatus::Answer(ServerReply::List(ServerList::new(sample_tree())));
    let text = status.serialize();
    assert!(text.starts_with("{\"Ok\":{\"List\":{\"list\":["));
    let back = ReplyStatus::deserialize(&text).expect("a written status is read back");
    assert!(matches!(&back, ReplyStatus::Answer(ServerReply::List(_))));
    assert_eq!(back.serialize(), text);
}

#[test]
fn statuses_cannot_be_confused() {
    let empty = ReplyStatus::Answer(ServerReply::List(ServerList::new(Vec::new()))).serialize();
    assert_ne!(empty, ReplyStatus::AuthFailed.serialize());
    assert_ne!(empty, ReplyStatus::BadRequest.serialize());
    assert_ne!(ReplyStatus::AuthFailed.serialize(), ReplyStatus::BadRequest.serialize());
    let sneaky = ReplyStatus::Answer(ServerReply::File(ServerFile::new(
        "AuthFailed".to_string(),
        Err("AuthFailed".to_string()),
    )));
    assert!(matches!(
        ReplyStatus::deserialize(&sneaky.serialize()),
        Ok(ReplyStatus::Answer(ServerReply::File(_)))
    ));
}

#[test]
fn file_answer_with_both_or_neither_is_refused() {
    let both = "{\"File\":{\"bytes\":[1],\"error\":\"e\",\"path\":\"p\"}}";
    assert!(matches!(ServerReply::deserialize(both), Err(DecodeError::Shape)));
    let neither = "{\"File\":{\"bytes\":null,\"error\":null,\"path\":\"p\"}}";
    assert!(matches!(ServerReply::deserialize(neither), Err(DecodeError::Shape)));
    let missing = "{\"File\":{\"path\":\"p\"}}";
    assert!(matches!(ServerReply::deserialize(missing), Err(DecodeError::Shape)));
}

#[test]
fn reader_takes_missing_optional_members_and_passes_over_unknown_ones() {
    let text = "{\"File\":{\"path\":\"p\",\"bytes\":[7],\"colour\":\"red\"}}";
    match ServerReply::deserialize(text) {
        Ok(ServerReply::File(file)) => {
            assert_eq!(file.bytes, Some(vec![7]));
            assert_eq!(file.error, None);
        }
        other => panic!("unexpected {:?}", other),
    }
    let node = "{\"List\":{\"list\":[{\"File\":{\"path\":\"q\"}}]}}";
    match ServerReply::deserialize(node) {
        Ok(ServerReply::List(list)) => {
            assert!(matches!(&list.list[0], PathItem::File(FileStruct { metadata: None, .. })));
        }
        other => panic!("unexpected {:?}", other),
    }
}

#[test]
fn numbers_out_of_range_are_refused() {
    let byte = "{\"File\":{\"bytes\":[256],\"error\":null,\"path\":\"p\"}}";
    assert!(matches!(ServerReply::deserialize(byte), Err(DecodeError::Shape)));
    let negative = "{\"File\":{\"bytes\":[-1],\"error\":null,\"path\":\"p\"}}";
    assert!(matches!(ServerReply::deserialize(negative), Err(DecodeError::Shape)));
    let fraction = "{\"File\":{\"bytes\":[1.5],\"error\":null,\"path\":\"p\"}}";
    assert!(matches!(ServerReply::deserialize(fraction), Err(DecodeError::Shape)));
    let nanos = concat_all(&[
        "{\"List\":{\"list\":[{\"File\":{\"path\":\"a\",\"metadata\":{\"file_size\":1,",
        "\"file_modified\":{\"secs_since_epoch\":1,\"nanos_since_epoch\":4294967296},",
        "\"file_accessed\":{\"secs_since_epoch\":1,\"nanos_since_epoch\":0},",
        "\"file_created\":{\"secs_since_epoch\":1,\"nanos_since_epoch\":0}}}}]}}",
    ]);
    assert!(matches!(ServerReply::deserialize(&nanos), Err(DecodeError::Shape)));
}

#[test]
fn largest_numbers_survive() {
    let item = PathItem::File(FileStruct {
        path: "big".to_string(),
        metadata: Some(FileMetadata {
            file_size: u64::MAX,
            file_modified: stamp(u64::MAX, u32::MAX),
            file_accessed: stamp(0, 0),
            file_created: stamp(1, 999_999_999),
        }),
    });
    let reply = ServerReply::List(ServerList::new(vec![item]));
    match ServerReply::deserialize(&reply.serialize()) {
        Ok(ServerReply::List(list)) => match &list.list[0] {
            PathItem::File(file) => {
                let metadata = file.metadata.expect("metadata kept");
                assert_eq!(metadata.file_size, u64::MAX);
                assert_eq!(metadata.file_modified, stamp(u64::MAX, u32::MAX));
                assert_eq!(metadata.file_created, stamp(1, 999_999_999));
            }
            other => panic!("unexpected {:?}", other),
        },
        other => panic!("unexpected {:?}", other),
    }
}

#[test]
fn values_are_read_as_well_as_text() {
    let value: serde_json::Value =
        serde_json::from_str("{\"FileRequest\":\"p\"}").expect("valid json");
    assert!(matches!(ClientRequest::from_value(&value), Some(ClientRequest::FileRequest(_))));
    assert!(ClientRequest::from_value(&serde_json::Value::Null).is_none());
    let written = ClientRequest::FileRequest("p".to_string()).to_json();
    assert_eq!(written, value);
}

#[test]
fn clones_keep_what_they_copy() {
    let request = ClientRequest::FileRequest("p".to_string());
    assert_eq!(request.clone().serialize(), request.serialize());
    let file = ServerFile::new("p".to_string(), Ok(vec![9]));
    assert_eq!(file.clone().serialize(), file.serialize());
    let tree = sample_tree();
    let copy: Vec<PathItem> = tree.iter().map(|item| item.clone()).collect();
    assert_eq!(ServerList::new(copy).serialize(), ServerList::new(tree).serialize());
}
