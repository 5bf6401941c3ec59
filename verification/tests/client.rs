use file_hosting::client::{Client, ClientAction, SessionPhase};
use file_hosting::protocol::{ReplyStatus, ServerFile, ServerList, ServerReply};
use file_hosting::tree::{FileStruct, PathItem};

fn tree_text(paths: &[&str]) -> String {
    let list = paths
        .iter()
        .map(|path| PathItem::File(FileStruct { path: path.to_string(), metadata: None }))
        .collect();
    ReplyStatus::Answer(ServerReply::List(ServerList::new(list))).serialize()
}

fn online() -> Client {
    let mut client = Client::new();
    assert!(client.begin_connect());
    assert!(matches!(client.on_result(&tree_text(&["a"])), ClientAction::ShowTree));
    client
}

#[test]
fn a_new_client_has_no_session() {
    let client = Client::new();
    assert_eq!(client.current_phase(), SessionPhase::Offline);
    assert!(!client.is_connected());
    assert!(client.may_connect());
    assert!(!client.password_refused());
    assert!(!client.was_connection_lost());
    assert!(client.shared_folders().is_empty());
}

#[test]
fn a_second_session_cannot_begin_while_the_first_is_set_up() {
    let mut client = Client::new();
    assert!(client.may_connect());
    assert!(client.begin_connect());
    assert_eq!(client.current_phase(), SessionPhase::Connecting);
    assert!(!client.is_connected());
    assert!(!client.may_connect());
    assert!(!client.begin_connect());
    assert_eq!(client.current_phase(), SessionPhase::Connecting);
}

#[test]
fn a_second_session_cannot_begin_while_the_first_stands() {
    let mut client = online();
    assert!(!client.may_connect());
    assert!(!client.begin_connect());
    assert_eq!(client.current_phase(), SessionPhase::Online);
    assert_eq!(client.shared_folders().len(), 1);
}

#[test]
fn a_tree_establishes_the_session() {
    let mut client = Client::new();
    assert!(client.begin_connect());
    assert!(matches!(client.on_result(&tree_text(&["a", "b"])), ClientAction::ShowTree));
    assert_eq!(client.current_phase(), SessionPhase::Online);
    assert!(client.is_connected());
    assert!(!client.may_connect());
    assert_eq!(client.shared_folders().len(), 2);
    assert!(matches!(client.on_result(&tree_text(&["c"])), ClientAction::ShowTree));
    assert_eq!(client.shared_folders().len(), 1);
    assert_eq!(client.shared_folders()[0].get_path(), "c");
}

#[test]
fn an_answer_without_a_session_is_passed_over() {
    let mut client = Client::new();
    assert!(matches!(client.on_result(&tree_text(&["a"])), ClientAction::NoSession));
    assert_eq!(client.current_phase(), SessionPhase::Offline);
    assert!(client.shared_folders().is_empty());
    let refused = client.on_result(&ReplyStatus::AuthFailed.serialize());
    assert!(matches!(refused, ClientAction::NoSession));
    assert!(!client.password_refused());

    let mut client = online();
    assert!(client.disconnect());
    assert!(matches!(client.on_result(&tree_text(&["late"])), ClientAction::NoSession));
    assert!(client.may_connect());
    assert!(client.shared_folders().is_empty());
}

#[test]
fn a_refused_password_drops_the_session() {
    let mut client = Client::new();
    assert!(client.begin_connect());
    let action = client.on_result(&ReplyStatus::AuthFailed.serialize());
    assert!(matches!(action, ClientAction::DropSession));
    assert_eq!(client.current_phase(), SessionPhase::Offline);
    assert!(!client.is_connected());
    assert!(client.password_refused());
    assert!(client.may_connect());
    assert!(client.begin_connect());
    assert!(client.password_refused());
    client.on_result(&tree_text(&["a"]));
    assert!(client.is_connected());
    assert!(!client.password_refused());
    let later = client.on_result(&ReplyStatus::AuthFailed.serialize());
    assert!(matches!(later, ClientAction::DropSession));
    assert!(!client.is_connected());
    assert_eq!(client.shared_folders().len(), 1);
}

#[test]
fn a_file_is_offered_for_saving() {
    let mut client = online();
    let file = ServerFile::new("a".to_string(), Ok(vec![1, 2]));
    let text = ReplyStatus::Answer(ServerReply::File(file)).serialize();
    match client.on_result(&text) {
        ClientAction::SaveFile { path, bytes } => {
            assert_eq!(path, "a");
            assert_eq!(bytes, vec![1, 2]);
        }
        other => panic!("unexpected {:?}", other),
    }
    assert_eq!(client.shared_folders().len(), 1);
    assert!(client.is_connected());
}

#[test]
fn a_file_error_is_reported() {
    let mut client = online();
    let file = ServerFile::new("a".to_string(), Err("gone".to_string()));
    let text = ReplyStatus::Answer(ServerReply::File(file)).serialize();
    match client.on_result(&text) {
        ClientAction::ReportFileError { path, message } => {
            assert_eq!(path, "a");
            assert_eq!(message, "gone");
        }
        other => panic!("unexpected {:?}", other),
    }
    assert!(client.is_connected());
}

#[test]
fn bad_request_and_unreadable_answers_are_told_apart() {
    let mut client = Client::new();
    assert!(client.begin_connect());
    let bad = client.on_result(&ReplyStatus::BadRequest.serialize());
    assert!(matches!(bad, ClientAction::ReportBadRequest));
    assert!(client.is_connected());
    assert!(matches!(client.on_result("not json"), ClientAction::ReportUnreadable));
    assert!(matches!(client.on_result("{\"Ok\":1}"), ClientAction::ReportUnreadable));
    assert!(client.is_connected());
}

#[test]
fn disconnect_ends_a_session_that_stands_or_is_set_up() {
    let mut client = Client::new();
    assert!(!client.disconnect());
    assert!(client.begin_connect());
    assert!(client.disconnect());
    assert_eq!(client.current_phase(), SessionPhase::Offline);
    assert!(!client.disconnect());

    let mut client = online();
    assert!(client.disconnect());
    assert!(!client.is_connected());
    assert!(client.may_connect());
    assert!(client.shared_folders().is_empty());
}

#[test]
fn a_lost_connection_ends_the_session_and_is_remembered() {
    let mut client = online();
    client.on_connection_lost();
    assert_eq!(client.current_phase(), SessionPhase::Offline);
    assert!(!client.is_connected());
    assert!(client.was_connection_lost());
    assert!(client.shared_folders().is_empty());
    assert!(!client.password_refused());
    assert!(client.may_connect());
    assert!(client.begin_connect());
    assert!(!client.was_connection_lost());

    client.on_connection_lost();
    assert!(client.was_connection_lost());
    assert!(client.may_connect());

    let mut idle = Client::new();
    idle.on_connection_lost();
    assert!(!idle.was_connection_lost());
    assert_eq!(idle.current_phase(), SessionPhase::Offline);
}
