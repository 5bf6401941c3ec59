use file_hosting::bridge::{connect, Action, Bridge, Command, Event, Outcome, Phase};
use file_hosting::protocol::ClientRequest;

/// Runs a bridge as a faithful driver would: the host echoes the payload of
/// every call behind the number of the call.
fn run(commands: Vec<Command>) -> (Vec<String>, Vec<String>, Outcome, Bridge) {
    let (mut bridge, mut action) = connect("[::1]:5000".to_string(), "pw".to_string());
    let mut commands = commands.into_iter();
    let mut calls = Vec::new();
    let mut published = Vec::new();
    loop {
        let event = match action {
            Action::Dial(address) => {
                assert_eq!(address, "http://[::1]:5000");
                Event::Connected
            }
            Action::Call(request) => {
                assert_eq!(request.password, "pw");
                calls.push(request.serialized_request.clone());
                Event::Replied(format!("{}:{}", calls.len(), request.serialized_request))
            }
            Action::Publish(text) => {
                published.push(text);
                Event::Published
            }
            Action::Receive => match commands.next() {
                Some(command) => Event::Command(command),
                None => Event::QueueClosed,
            },
            Action::Finish(outcome) => return (calls, published, outcome, bridge),
        };
        action = bridge.step(event);
    }
}

#[test]
fn connect_starts_by_dialing() {
    let (bridge, action) = connect("host:1".to_string(), "pw".to_string());
    assert_eq!(bridge.current_phase(), Phase::Connecting);
    assert!(matches!(action, Action::Dial(address) if address == "http://host:1"));
}

#[test]
fn answers_come_back_in_the_order_of_the_commands() {
    let list = ClientRequest::ListRequest.serialize();
    let first = ClientRequest::FileRequest("one.txt".to_string());
    let second = ClientRequest::FileRequest("two.txt".to_string());
    let (calls, published, outcome, _) = run(vec![
        Command::Request(ClientRequest::ListRequest),
        Command::Request(first.clone()),
        Command::Request(second.clone()),
        Command::Stop,
    ]);
    assert_eq!(calls, vec![list.clone(), list.clone(), first.serialize(), second.serialize()]);
    assert_eq!(
        published,
        vec![
            format!("1:{}", list),
            format!("2:{}", list),
            format!("3:{}", first.serialize()),
            format!("4:{}", second.serialize()),
        ]
    );
    assert_eq!(outcome, Outcome::Stopped);
}

#[test]
fn the_tree_is_asked_for_on_connect() {
    let (calls, published, outcome, _) = run(vec![Command::Stop]);
    assert_eq!(calls, vec!["\"ListRequest\"".to_string()]);
    assert_eq!(published, vec!["1:\"ListRequest\"".to_string()]);
    assert_eq!(outcome, Outcome::Stopped);
}

#[test]
fn nothing_is_served_after_stop() {
    let (calls, published, outcome, mut bridge) = run(vec![
        Command::Request(ClientRequest::FileRequest("a".to_string())),
        Command::Stop,
        Command::Request(ClientRequest::FileRequest("b".to_string())),
        Command::Request(ClientRequest::ListRequest),
    ]);
    assert_eq!(calls.len(), 2);
    assert_eq!(published.len(), 2);
    assert_eq!(outcome, Outcome::Stopped);
    assert_eq!(bridge.current_phase(), Phase::Stopped);
    let later = [
        Event::Command(Command::Request(ClientRequest::ListRequest)),
        Event::Connected,
        Event::Replied("late".to_string()),
        Event::Published,
        Event::Failed,
        Event::QueueClosed,
        Event::Command(Command::Stop),
    ];
    for event in later {
        assert!(matches!(bridge.step(event), Action::Finish(Outcome::Stopped)));
        assert_eq!(bridge.current_phase(), Phase::Stopped);
    }
}

#[test]
fn a_failure_loses_the_connection_in_every_phase() {
    let (mut bridge, _) = connect("h".to_string(), "pw".to_string());
    assert!(matches!(bridge.step(Event::Failed), Action::Finish(Outcome::ConnectionLost)));
    assert_eq!(bridge.current_phase(), Phase::Lost);

    let (mut bridge, _) = connect("h".to_string(), "pw".to_string());
    assert!(matches!(bridge.step(Event::Connected), Action::Call(_)));
    assert_eq!(bridge.current_phase(), Phase::Calling);
    assert!(matches!(bridge.step(Event::Failed), Action::Finish(Outcome::ConnectionLost)));

    let (mut bridge, _) = connect("h".to_string(), "pw".to_string());
    bridge.step(Event::Connected);
    assert!(matches!(bridge.step(Event::Replied("r".to_string())), Action::Publish(_)));
    assert_eq!(bridge.current_phase(), Phase::Publishing);
    assert!(matches!(bridge.step(Event::Failed), Action::Finish(Outcome::ConnectionLost)));

    let (mut bridge, _) = connect("h".to_string(), "pw".to_string());
    bridge.step(Event::Connected);
    bridge.step(Event::Replied("r".to_string()));
    assert!(matches!(bridge.step(Event::Published), Action::Receive));
    assert_eq!(bridge.current_phase(), Phase::Idle);
    assert!(matches!(bridge.step(Event::Failed), Action::Finish(Outcome::ConnectionLost)));
    assert!(matches!(
        bridge.step(Event::Command(Command::Stop)),
        Action::Finish(Outcome::ConnectionLost)
    ));
    assert_eq!(bridge.current_phase(), Phase::Lost);
}

#[test]
fn no_second_call_while_one_is_in_flight() {
    let (mut bridge, _) = connect("h".to_string(), "pw".to_string());
    assert!(matches!(bridge.step(Event::Connected), Action::Call(_)));
    let action = bridge.step(Event::Command(Command::Request(ClientRequest::ListRequest)));
    assert!(matches!(action, Action::Finish(Outcome::ConnectionLost)));
}

#[test]
fn a_closed_command_queue_stops_the_bridge() {
    let (calls, published, outcome, bridge) = run(Vec::new());
    assert_eq!(calls.len(), 1);
    assert_eq!(published.len(), 1);
    assert_eq!(outcome, Outcome::Stopped);
    assert_eq!(bridge.current_phase(), Phase::Stopped);
}

#[test]
fn a_closed_command_queue_is_not_awaited_in_other_phases() {
    let (mut bridge, _) = connect("h".to_string(), "pw".to_string());
    assert!(matches!(bridge.step(Event::QueueClosed), Action::Finish(Outcome::ConnectionLost)));
    let (mut bridge, _) = connect("h".to_string(), "pw".to_string());
    bridge.step(Event::Connected);
    assert!(matches!(bridge.step(Event::QueueClosed), Action::Finish(Outcome::ConnectionLost)));
}
