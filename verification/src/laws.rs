//! What holds of the wire format for every message: what is written is read
//! back unchanged.

use crate::format::{
    bytes_json, decoded, decode_reply, decode_request, decode_status, encode_reply, encode_request,
    encode_status, file_json, forest_json, json_bytes, json_file, json_forest, json_metadata, json_reply, json_request, json_status,
    json_timestamp, json_tree, metadata_json, reply_json, request_json, status_json,
    timestamp_json, tree_json,
};
use crate::bridge::{
    answers, drive, next, replay, session, ActionView, CommandView, EventView, Phase,
};
use crate::json::json_parse;
use crate::service::{
    failed_file, file_failure, file_success, provide, served_file, unavailable, ProvisionView,
};
use crate::protocol::{FileView, ReplyView, RequestView, StatusView};
use crate::tree::{FileMetadata, Timestamp, TreeNode};
use vstd::prelude::*;

verus! {

/// The names used on the wire are what they spell, and so differ from one
/// another.
proof fn lemma_names()
    ensures
        "secs_since_epoch"@ != "nanos_since_epoch"@,
        "file_size"@ != "file_modified"@,
        "file_size"@ != "file_accessed"@,
        "file_size"@ != "file_created"@,
        "file_modified"@ != "file_accessed"@,
        "file_modified"@ != "file_created"@,
        "file_accessed"@ != "file_created"@,
        "path"@ != "opened"@,
        "path"@ != "entries"@,
        "opened"@ != "entries"@,
        "path"@ != "metadata"@,
        "bytes"@ != "path"@,
        "bytes"@ != "error"@,
        "path"@ != "error"@,
        "Folder"@ != "File"@,
        "List"@ != "File"@,
        "AuthFailed"@ != "BadRequest"@,
{
    reveal_strlit("secs_since_epoch");
    reveal_strlit("nanos_since_epoch");
    reveal_strlit("file_size");
    reveal_strlit("file_modified");
    reveal_strlit("file_accessed");
    reveal_strlit("file_created");
    reveal_strlit("path");
    reveal_strlit("opened");
    reveal_strlit("entries");
    reveal_strlit("metadata");
    reveal_strlit("bytes");
    reveal_strlit("error");
    reveal_strlit("Folder");
    reveal_strlit("File");
    reveal_strlit("List");
    reveal_strlit("AuthFailed");
    reveal_strlit("BadRequest");
    assert("secs_since_epoch"@.len() == 16);
    assert("nanos_since_epoch"@.len() == 17);
    assert("file_size"@.len() == 9);
    assert("file_modified"@.len() == 13);
    assert("file_accessed"@.len() == 13);
    assert("file_created"@.len() == 12);
    assert("path"@.len() == 4);
    assert("opened"@.len() == 6);
    assert("entries"@.len() == 7);
    assert("metadata"@.len() == 8);
    assert("bytes"@.len() == 5);
    assert("error"@.len() == 5);
    assert("Folder"@.len() == 6);
    assert("File"@.len() == 4);
    assert("List"@.len() == 4);
    assert("AuthFailed"@.len() == 10);
    assert("BadRequest"@.len() == 10);
    assert("file_modified"@[5] != "file_accessed"@[5]);
    assert("bytes"@[0] != "error"@[0]);
    assert("List"@[0] != "File"@[0]);
    assert("AuthFailed"@[0] != "BadRequest"@[0]);
}

/// A point in time is read back as it was written.
pub proof fn lemma_timestamp_round_trip(time: Timestamp)
    ensures
        json_timestamp(timestamp_json(time)) == Some(time),
{
    lemma_names();
}

/// A file's metadata is read back as it was written.
pub proof fn lemma_metadata_round_trip(metadata: FileMetadata)
    ensures
        json_metadata(metadata_json(metadata)) == Some(metadata),
{
    lemma_names();
    lemma_timestamp_round_trip(metadata.file_modified);
    lemma_timestamp_round_trip(metadata.file_accessed);
    lemma_timestamp_round_trip(metadata.file_created);
}

/// A tree is read back as it was written.
pub proof fn lemma_tree_round_trip(node: TreeNode)
    ensures
        json_tree(tree_json(node)) == Some(node),
    decreases node,
{
    lemma_names();
    match node {
        TreeNode::Folder { path, opened, entries } => {
            lemma_forest_round_trip(entries);
        },
        TreeNode::File { path, metadata } => {
            if let Some(metadata) = metadata {
                lemma_metadata_round_trip(metadata);
            }
        },
    }
}

/// A list of trees is read back as it was written.
pub proof fn lemma_forest_round_trip(nodes: Seq<TreeNode>)
    ensures
        json_forest(forest_json(nodes)) == Some(nodes),
    decreases nodes,
{
    let items = forest_json(nodes);
    assert forall|i: int| 0 <= i < items.len() implies json_tree(#[trigger] items[i]) == Some(
        nodes[i],
    ) by {
        lemma_tree_round_trip(nodes[i]);
    }
    assert(json_forest(items)->0 =~= nodes);
}

/// A run of bytes is read back as it was written.
pub proof fn lemma_bytes_round_trip(bytes: Seq<u8>)
    ensures
        json_bytes(bytes_json(bytes)) == Some(bytes),
{
    assert(json_bytes(bytes_json(bytes))->0 =~= bytes);
}

/// A file answer that holds exactly one of contents and error is read back
/// as it was written.
pub proof fn lemma_file_round_trip(file: FileView)
    requires
        file.wf(),
    ensures
        json_file(file_json(file)) == Some(file),
{
    lemma_names();
    if let Some(bytes) = file.bytes {
        lemma_bytes_round_trip(bytes);
    }
}

/// Round trip of requests: for every request, reading the document that it
/// is written as gives the request back.
pub proof fn lemma_request_round_trip(request: RequestView)
    ensures
        json_request(request_json(request)) == Some(request),
{
}

/// Round trip of answers: for every well-formed answer, reading the
/// document that it is written as gives the answer back.
pub proof fn lemma_reply_round_trip(reply: ReplyView)
    requires
        reply.wf(),
    ensures
        json_reply(reply_json(reply)) == Some(reply),
{
    lemma_names();
    match reply {
        ReplyView::List(nodes) => {
            lemma_forest_round_trip(nodes);
        },
        ReplyView::File(file) => {
            lemma_file_round_trip(file);
        },
    }
}

/// Round trip of statuses: for every well-formed status, reading the
/// document that it is written as gives the status back.
pub proof fn lemma_status_round_trip(status: StatusView)
    requires
        status.wf(),
    ensures
        json_status(status_json(status)) == Some(status),
{
    lemma_names();
    if let StatusView::Answer(reply) = status {
        lemma_reply_round_trip(reply);
    }
}

/// Round trip of requests through text. Printing and parsing are the JSON
/// library's: wherever its parser reads the printed document back, decoding
/// the encoded request gives the request.
pub proof fn lemma_request_text_round_trip(request: RequestView)
    ensures
        json_parse(encode_request(request)) == Some(request_json(request)) ==> decode_request(
            encode_request(request),
        ) == decoded(request),
{
    lemma_request_round_trip(request);
}

/// Round trip of answers through text, under the same condition.
pub proof fn lemma_reply_text_round_trip(reply: ReplyView)
    requires
        reply.wf(),
    ensures
        json_parse(encode_reply(reply)) == Some(reply_json(reply)) ==> decode_reply(
            encode_reply(reply),
        ) == decoded(reply),
{
    lemma_reply_round_trip(reply);
}

/// Round trip of statuses through text, under the same condition.
pub proof fn lemma_status_text_round_trip(status: StatusView)
    requires
        status.wf(),
    ensures
        json_parse(encode_status(status)) == Some(status_json(status)) ==> decode_status(
            encode_status(status),
        ) == decoded(status),
{
    lemma_status_round_trip(status);
}

/// Between two waits for a command the bridge serves exactly one request:
/// from idle, the answers handed over are the host's answers to the commands,
/// in their order, up to the first stop.
pub proof fn lemma_idle_serves_in_order(
    password: Seq<char>,
    commands: Seq<CommandView>,
    respond: spec_fn(Seq<char>, Seq<char>) -> Seq<char>,
)
    ensures
        drive(Phase::Idle, password, ActionView::Receive, commands, respond) == answers(
            password,
            commands,
            respond,
        ),
    decreases commands.len(),
{
    reveal_with_fuel(drive, 4);
    if commands.len() > 0 {
        match commands[0] {
            CommandView::Stop => {},
            CommandView::Request(request) => {
                lemma_idle_serves_in_order(password, commands.drop_first(), respond);
            },
        }
    }
}

/// First in, first out: under a faithful driver, what a bridge hands to the
/// user side is the host's answer to the opening request for the tree,
/// followed by its answers to the commands, one for one and in the order in
/// which the commands were given, up to the first stop.
pub proof fn lemma_bridge_fifo(
    ip: Seq<char>,
    password: Seq<char>,
    commands: Seq<CommandView>,
    respond: spec_fn(Seq<char>, Seq<char>) -> Seq<char>,
)
    ensures
        session(ip, password, commands, respond) == seq![
            respond(encode_request(RequestView::ListRequest), password),
        ] + answers(password, commands, respond),
{
    reveal_with_fuel(drive, 4);
    lemma_idle_serves_in_order(password, commands, respond);
}

/// What follows a stop command is never served: the commands after the first
/// stop change nothing in what is handed over.
pub proof fn lemma_stop_hides_the_rest(
    password: Seq<char>,
    before: Seq<CommandView>,
    after: Seq<CommandView>,
    respond: spec_fn(Seq<char>, Seq<char>) -> Seq<char>,
)
    ensures
        answers(password, before + seq![CommandView::Stop] + after, respond) == answers(
            password,
            before + seq![CommandView::Stop],
            respond,
        ),
    decreases before.len(),
{
    let long = before + seq![CommandView::Stop] + after;
    let short = before + seq![CommandView::Stop];
    if before.len() == 0 {
        assert(long[0] == CommandView::Stop);
        assert(short[0] == CommandView::Stop);
    } else {
        assert(long[0] == before[0]);
        assert(short[0] == before[0]);
        assert(long.drop_first() =~= before.drop_first() + seq![CommandView::Stop] + after);
        assert(short.drop_first() =~= before.drop_first() + seq![CommandView::Stop]);
        lemma_stop_hides_the_rest(password, before.drop_first(), after, respond);
    }
}

/// Graceful stop: a bridge that has stopped, or has lost its connection,
/// asks for nothing more, whatever it is told afterwards. Every action it
/// gives is the end, and none is a call.
pub proof fn lemma_ended_bridge_stays_ended(
    phase: Phase,
    password: Seq<char>,
    events: Seq<EventView>,
    i: int,
)
    requires
        phase == Phase::Stopped || phase == Phase::Lost,
        0 <= i < events.len(),
    ensures
        replay(phase, password, events).len() == events.len(),
        replay(phase, password, events)[i] is Finish,
    decreases events.len(),
{
    lemma_replay_len(phase, password, events);
    if i > 0 {
        lemma_ended_bridge_stays_ended(phase, password, events.drop_first(), i - 1);
    }
}

/// A bridge gives one action for each event.
pub proof fn lemma_replay_len(phase: Phase, password: Seq<char>, events: Seq<EventView>)
    ensures
        replay(phase, password, events).len() == events.len(),
    decreases events.len(),
{
    if events.len() > 0 {
        lemma_replay_len(next(phase, password, events[0]).0, password, events.drop_first());
    }
}

/// One call at a time: a bridge asks for a call only when it was connecting
/// or idle, never while a call is in flight or an answer is being handed over.
pub proof fn lemma_single_flight(phase: Phase, password: Seq<char>, event: EventView)
    ensures
        next(phase, password, event).1 is Call ==> (phase == Phase::Connecting || phase
            == Phase::Idle) && next(phase, password, event).0 == Phase::Calling,
        phase == Phase::Calling ==> !(next(phase, password, event).1 is Call),
{
}

/// Authentication comes first: a call with a password other than the
/// service's is answered with the refusal, whatever its payload is, well
/// formed or not.
pub proof fn lemma_auth_precedence(
    password: Seq<char>,
    snapshot: Seq<TreeNode>,
    given_password: Seq<char>,
    payload: Seq<char>,
)
    requires
        given_password != password,
    ensures
        provide(password, snapshot, given_password, payload) == ProvisionView::Reply(
            encode_status(StatusView::AuthFailed),
        ),
{
}

/// The tree served is the snapshot: a request for the tree under the right
/// password is answered with the snapshot that the service was made with, and
/// with nothing else. The answer does not depend on when the call is made, nor
/// on what was asked before.
pub proof fn lemma_snapshot_isolation(
    password: Seq<char>,
    snapshot: Seq<TreeNode>,
    payload: Seq<char>,
)
    ensures
        decode_request(payload) == decoded(RequestView::ListRequest) ==> provide(
            password,
            snapshot,
            password,
            payload,
        ) == ProvisionView::Reply(
            encode_status(StatusView::Answer(ReplyView::List(snapshot))),
        ),
{
}

/// The message given for a file that cannot be located says something: it
/// is not empty.
pub proof fn lemma_unavailable_is_not_empty()
    ensures
        unavailable().len() > 0,
{
    reveal_strlit("No such file or directory");
}

/// Dispatch of a request for the tree. Wherever the parser reads the printed
/// request back, a call that carries it under the right password is answered
/// with the status that holds exactly the snapshot; and wherever the parser
/// reads that answer back, the client reads it as exactly the snapshot.
pub proof fn lemma_list_dispatch(password: Seq<char>, snapshot: Seq<TreeNode>)
    ensures
        json_parse(encode_request(RequestView::ListRequest)) == Some(
            request_json(RequestView::ListRequest),
        ) ==> provide(
            password,
            snapshot,
            password,
            encode_request(RequestView::ListRequest),
        ) == ProvisionView::Reply(encode_status(StatusView::Answer(ReplyView::List(snapshot)))),
        json_parse(encode_status(StatusView::Answer(ReplyView::List(snapshot)))) == Some(
            status_json(StatusView::Answer(ReplyView::List(snapshot))),
        ) ==> decode_status(encode_status(StatusView::Answer(ReplyView::List(snapshot))))
            == decoded(StatusView::Answer(ReplyView::List(snapshot))),
{
    lemma_request_round_trip(RequestView::ListRequest);
    lemma_status_round_trip(StatusView::Answer(ReplyView::List(snapshot)));
}

/// Dispatch of a request for a file. Wherever the parser reads the printed
/// request back, a call that carries it under the right password goes on to
/// resolve exactly the path asked for.
pub proof fn lemma_file_dispatch(password: Seq<char>, snapshot: Seq<TreeNode>, path: Seq<char>)
    ensures
        json_parse(encode_request(RequestView::FileRequest(path))) == Some(
            request_json(RequestView::FileRequest(path)),
        ) ==> provide(
            password,
            snapshot,
            password,
            encode_request(RequestView::FileRequest(path)),
        ) == ProvisionView::Resolve(path),
{
    lemma_request_round_trip(RequestView::FileRequest(path));
}

/// The answers for a file are file answers. The one for a failure holds no
/// contents and the message, the one for a file that cannot be located holds
/// a message that is not empty, and the one for contents holds no error. Each
/// is well formed, and is read back as it was written.
pub proof fn lemma_file_answers(path: Seq<char>, message: Seq<char>, bytes: Seq<u8>)
    ensures
        file_failure(path, message) == encode_status(failed_file(path, message)),
        file_success(path, bytes) == encode_status(served_file(path, bytes)),
        failed_file(path, message).wf(),
        served_file(path, bytes).wf(),
        json_status(status_json(failed_file(path, message))) == Some(failed_file(path, message)),
        json_status(status_json(served_file(path, bytes))) == Some(served_file(path, bytes)),
        unavailable().len() > 0,
{
    lemma_status_round_trip(failed_file(path, message));
    lemma_status_round_trip(served_file(path, bytes));
    lemma_unavailable_is_not_empty();
}

} // verus!
