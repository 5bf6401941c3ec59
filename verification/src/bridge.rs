//! The client bridge: the one task that owns a connection and turns a queue
//! of commands into calls, one at a time. The bridge itself neither dials,
//! calls nor waits: it is told what happened and says what to do next, and
//! whoever drives it does the work. A call is asked for only when nothing is
//! in flight, so answers come back in the order of the commands.

use crate::format::encode_request;
use crate::protocol::{ClientRequest, RequestView};
use crate::service::HostRequest;
use vstd::prelude::*;
use vstd::string::StringExecFns;

verus! {

/// What the user side hands to the bridge.
#[derive(Debug)]
pub enum Command {
    /// Make this request.
    Request(ClientRequest),
    /// Close the connection and end.
    Stop,
}

/// The mathematical value of a `Command`.
pub enum CommandView {
    Request(RequestView),
    Stop,
}

impl View for Command {
    type V = CommandView;

    open spec fn view(&self) -> CommandView {
        match self {
            Command::Request(request) => CommandView::Request(request@),
            Command::Stop => CommandView::Stop,
        }
    }
}

/// Where the bridge stands.
#[derive(Clone, Copy, Debug, PartialEq, Eq, Structural)]
pub enum Phase {
    /// The connection is being made.
    Connecting,
    /// One call is in flight.
    Calling,
    /// The answer of the last call is being handed to the user side.
    Publishing,
    /// Nothing is in flight; the next command is awaited.
    Idle,
    /// The bridge ended on a stop command.
    Stopped,
    /// The bridge ended because the connection failed.
    Lost,
}

/// How a bridge ended.
#[derive(Clone, Copy, Debug, PartialEq, Eq, Structural)]
pub enum Outcome {
    Stopped,
    ConnectionLost,
}

/// What happened since the bridge last said what to do.
#[derive(Debug)]
pub enum Event {
    /// The connection stands.
    Connected,
    /// The call in flight came back with this serialized answer.
    Replied(String),
    /// The answer was handed to the user side.
    Published,
    /// The user side sent this command.
    Command(Command),
    /// The queue of commands was closed: the user side is gone and will send
    /// nothing more.
    QueueClosed,
    /// Dialing, calling or handing over failed.
    Failed,
}

/// The mathematical value of an `Event`.
pub enum EventView {
    Connected,
    Replied(Seq<char>),
    Published,
    Command(CommandView),
    QueueClosed,
    Failed,
}

impl View for Event {
    type V = EventView;

    open spec fn view(&self) -> EventView {
        match self {
            Event::Connected => EventView::Connected,
            Event::Replied(text) => EventView::Replied(text@),
            Event::Published => EventView::Published,
            Event::Command(command) => EventView::Command(command@),
            Event::QueueClosed => EventView::QueueClosed,
            Event::Failed => EventView::Failed,
        }
    }
}

/// What the driver is to do next.
#[derive(Debug)]
pub enum Action {
    /// Connect to this address.
    Dial(String),
    /// Make this one call and wait for its answer.
    Call(HostRequest),
    /// Hand this serialized answer to the user side.
    Publish(String),
    /// Wait for the next command, and hand it over as `Event::Command`. Where
    /// the queue turns out to be closed, hand over `Event::QueueClosed`.
    Receive,
    /// Close the connection and end; nothing more is to be done.
    Finish(Outcome),
}

/// The mathematical value of an `Action`.
pub enum ActionView {
    Dial(Seq<char>),
    Call { payload: Seq<char>, password: Seq<char> },
    Publish(Seq<char>),
    Receive,
    Finish(Outcome),
}

impl View for Action {
    type V = ActionView;

    open spec fn view(&self) -> ActionView {
        match self {
            Action::Dial(address) => ActionView::Dial(address@),
            Action::Call(request) => ActionView::Call {
                payload: request.serialized_request@,
                password: request.password@,
            },
            Action::Publish(text) => ActionView::Publish(text@),
            Action::Receive => ActionView::Receive,
            Action::Finish(outcome) => ActionView::Finish(*outcome),
        }
    }
}

/// The call that carries `request` under `password`.
pub open spec fn call_for(request: RequestView, password: Seq<char>) -> ActionView {
    ActionView::Call { payload: encode_request(request), password }
}

/// The rule of the bridge: from where it stands and what happened, where it
/// stands next and what is to be done.
///
/// Once connected it asks for the tree. Every answer is published before the
/// next command is awaited, and a call is made only for a command received
/// while idle. A stop command ends the bridge, and so does a closed queue of
/// commands, which stands for a user side that is gone. A failure loses the
/// bridge, and so does an event that the phase does not wait for. An ended
/// bridge stays ended.
pub open spec fn next(phase: Phase, password: Seq<char>, event: EventView) -> (Phase, ActionView) {
    match (phase, event) {
        (Phase::Stopped, _) => (Phase::Stopped, ActionView::Finish(Outcome::Stopped)),
        (Phase::Lost, _) => (Phase::Lost, ActionView::Finish(Outcome::ConnectionLost)),
        (Phase::Connecting, EventView::Connected) => (
            Phase::Calling,
            call_for(RequestView::ListRequest, password),
        ),
        (Phase::Calling, EventView::Replied(text)) => (Phase::Publishing, ActionView::Publish(text)),
        (Phase::Publishing, EventView::Published) => (Phase::Idle, ActionView::Receive),
        (Phase::Idle, EventView::Command(CommandView::Request(request))) => (
            Phase::Calling,
            call_for(request, password),
        ),
        (Phase::Idle, EventView::Command(CommandView::Stop)) => (
            Phase::Stopped,
            ActionView::Finish(Outcome::Stopped),
        ),
        (Phase::Idle, EventView::QueueClosed) => (
            Phase::Stopped,
            ActionView::Finish(Outcome::Stopped),
        ),
        _ => (Phase::Lost, ActionView::Finish(Outcome::ConnectionLost)),
    }
}

/// The address that is dialed for a host.
pub open spec fn address_of(ip: Seq<char>) -> Seq<char> {
    "http://"@ + ip
}

/// One bridge: the password it sends with every call, and where it stands.
pub struct Bridge {
    password: String,
    phase: Phase,
}

impl Bridge {
    /// The password sent with every call.
    pub closed spec fn password(&self) -> Seq<char> {
        self.password@
    }

    /// Where the bridge stands.
    pub closed spec fn phase(&self) -> Phase {
        self.phase
    }

    /// Where the bridge stands.
    pub fn current_phase(&self) -> (phase: Phase)
        ensures
            phase == self.phase(),
    {
        self.phase
    }

    /// Takes what happened and says what to do next, by the rule `next`.
    pub fn step(&mut self, event: Event) -> (action: Action)
        ensures
            final(self).password() == old(self).password(),
            (final(self).phase(), action@) == next(old(self).phase(), old(self).password(), event@),
            old(self).phase() == Phase::Stopped ==> action@ == ActionView::Finish(Outcome::Stopped),
            action is Call ==> old(self).phase() == Phase::Connecting || old(self).phase()
                == Phase::Idle,
    {
        match (self.phase, event) {
            (Phase::Stopped, _) => Action::Finish(Outcome::Stopped),
            (Phase::Lost, _) => Action::Finish(Outcome::ConnectionLost),
            (Phase::Connecting, Event::Connected) => {
                self.phase = Phase::Calling;
                Action::Call(self.call(&ClientRequest::ListRequest))
            },
            (Phase::Calling, Event::Replied(text)) => {
                self.phase = Phase::Publishing;
                Action::Publish(text)
            },
            (Phase::Publishing, Event::Published) => {
                self.phase = Phase::Idle;
                Action::Receive
            },
            (Phase::Idle, Event::Command(Command::Request(request))) => {
                self.phase = Phase::Calling;
                Action::Call(self.call(&request))
            },
            (Phase::Idle, Event::Command(Command::Stop)) => {
                self.phase = Phase::Stopped;
                Action::Finish(Outcome::Stopped)
            },
            (Phase::Idle, Event::QueueClosed) => {
                self.phase = Phase::Stopped;
                Action::Finish(Outcome::Stopped)
            },
            _ => {
                self.phase = Phase::Lost;
                Action::Finish(Outcome::ConnectionLost)
            },
        }
    }

    /// The envelope of one call.
    fn call(&self, request: &ClientRequest) -> (envelope: HostRequest)
        ensures
            envelope.serialized_request@ == encode_request(request@),
            envelope.password@ == self.password(),
    {
        HostRequest { serialized_request: request.serialize(), password: self.password.clone() }
    }
}

/// Starts a bridge to the host at `ip`: the bridge, and the address to dial.
pub fn connect(ip: String, password: String) -> (started: (Bridge, Action))
    ensures
        started.0.password() == password@,
        started.0.phase() == Phase::Connecting,
        started.1@ == ActionView::Dial(address_of(ip@)),
{
    let address = String::from_str("http://").concat(ip.as_str());
    (Bridge { password, phase: Phase::Connecting }, Action::Dial(address))
}

/// How far an action is from the next wait for a command.
pub open spec fn rank(action: ActionView) -> nat {
    match action {
        ActionView::Dial(_) => 3,
        ActionView::Call { .. } => 2,
        ActionView::Publish(_) => 1,
        ActionView::Receive => 0,
        ActionView::Finish(_) => 0,
    }
}

/// What a faithful driver hands to the user side. The driver does what the
/// bridge says and nothing fails: it dials, answers each call with what the
/// host `respond`s to its payload and password, hands each answer over, and
/// feeds the commands in their order. The result lists the answers handed
/// over, in the order in which they were.
pub open spec fn drive(
    phase: Phase,
    password: Seq<char>,
    pending: ActionView,
    commands: Seq<CommandView>,
    respond: spec_fn(Seq<char>, Seq<char>) -> Seq<char>,
) -> Seq<Seq<char>>
    decreases commands.len(), rank(pending),
{
    match pending {
        ActionView::Dial(_) => {
            let (after, action) = next(phase, password, EventView::Connected);
            drive(after, password, action, commands, respond)
        },
        ActionView::Call { payload, password: sent } => {
            let (after, action) = next(phase, password, EventView::Replied(respond(payload, sent)));
            drive(after, password, action, commands, respond)
        },
        ActionView::Publish(text) => {
            let (after, action) = next(phase, password, EventView::Published);
            seq![text] + drive(after, password, action, commands, respond)
        },
        ActionView::Receive => if commands.len() == 0 {
            Seq::empty()
        } else {
            let (after, action) = next(phase, password, EventView::Command(commands[0]));
            drive(after, password, action, commands.drop_first(), respond)
        },
        ActionView::Finish(_) => Seq::empty(),
    }
}

/// The whole session of a bridge started by `connect`, under a faithful
/// driver.
pub open spec fn session(
    ip: Seq<char>,
    password: Seq<char>,
    commands: Seq<CommandView>,
    respond: spec_fn(Seq<char>, Seq<char>) -> Seq<char>,
) -> Seq<Seq<char>> {
    drive(Phase::Connecting, password, ActionView::Dial(address_of(ip)), commands, respond)
}

/// The host's answers to the requests among `commands`, in their order, up
/// to the first stop command.
pub open spec fn answers(
    password: Seq<char>,
    commands: Seq<CommandView>,
    respond: spec_fn(Seq<char>, Seq<char>) -> Seq<char>,
) -> Seq<Seq<char>>
    decreases commands.len(),
{
    if commands.len() == 0 {
        Seq::empty()
    } else {
        match commands[0] {
            CommandView::Stop => Seq::empty(),
            CommandView::Request(request) => seq![respond(encode_request(request), password)]
                + answers(password, commands.drop_first(), respond),
        }
    }
}

/// The actions that a bridge gives for a run of events, one for each.
pub open spec fn replay(phase: Phase, password: Seq<char>, events: Seq<EventView>) -> Seq<
    ActionView,
>
    decreases events.len(),
{
    if events.len() == 0 {
        Seq::empty()
    } else {
        let (after, action) = next(phase, password, events[0]);
        seq![action] + replay(after, password, events.drop_first())
    }
}

} // verus!
