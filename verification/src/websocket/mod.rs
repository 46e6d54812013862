//! Messages on the connections that show what a container does.

use crate::number::{decimal, decimal_text};
use crate::outside::{json_array, json_chars, json_strings};
use crate::text::{cat2, cat5, joined, texts};
use vstd::prelude::*;

pub mod handler;
pub mod session;
pub mod streams;

pub use session::WebSocketHandler;

verus! {

/// What a message to a client is about.
#[derive(Debug, Clone, Copy, PartialEq, Eq, Structural)]
pub enum WsEvent {
    /// The connection is established.
    Init,
    /// A line of the output of the container.
    ConsoleOutput,
    /// A line of output that came before.
    DuplicateEvent,
    /// The state of the container.
    Status,
    /// What the container uses.
    Stats,
    /// What went wrong.
    Error,
    /// A message of the daemon.
    DaemonMessage,
    /// Something that the engine did with the container.
    DockerEvent,
    /// A command was sent.
    CommandSent,
}

impl DeepView for WsEvent {
    type V = WsEvent;

    open spec fn deep_view(&self) -> WsEvent {
        *self
    }
}

impl WsEvent {
    /// The name of the event in a message.
    pub open spec fn text(self) -> Seq<char> {
        match self {
            WsEvent::Init => "init"@,
            WsEvent::ConsoleOutput => "console_output"@,
            WsEvent::DuplicateEvent => "duplicate_event"@,
            WsEvent::Status => "status"@,
            WsEvent::Stats => "stats"@,
            WsEvent::Error => "error"@,
            WsEvent::DaemonMessage => "daemon_message"@,
            WsEvent::DockerEvent => "docker_event"@,
            WsEvent::CommandSent => "command_sent"@,
        }
    }

    /// The name of the event in a message.
    pub fn name(self) -> (r: &'static str)
        ensures
            r@ == self.text(),
    {
        match self {
            WsEvent::Init => "init",
            WsEvent::ConsoleOutput => "console_output",
            WsEvent::DuplicateEvent => "duplicate_event",
            WsEvent::Status => "status",
            WsEvent::Stats => "stats",
            WsEvent::Error => "error",
            WsEvent::DaemonMessage => "daemon_message",
            WsEvent::DockerEvent => "docker_event",
            WsEvent::CommandSent => "command_sent",
        }
    }
}

/// How a client speaks to a container.
#[derive(Debug, Clone, Copy, PartialEq, Eq, Structural)]
pub enum WsMode {
    /// With its main process.
    Attached,
    /// With a shell for each command.
    Exec,
}

impl DeepView for WsMode {
    type V = WsMode;

    open spec fn deep_view(&self) -> WsMode {
        *self
    }
}

impl WsMode {
    /// The name of the mode.
    pub open spec fn text(self) -> Seq<char> {
        match self {
            WsMode::Attached => "attached"@,
            WsMode::Exec => "exec"@,
        }
    }

    /// The name of the mode.
    pub fn name(self) -> (r: &'static str)
        ensures
            r@ == self.text(),
    {
        match self {
            WsMode::Attached => "attached",
            WsMode::Exec => "exec",
        }
    }
}

impl Default for WsMode {
    fn default() -> (r: Self)
        ensures
            r == WsMode::Attached,
    {
        WsMode::Attached
    }
}

/// What a client asks for.
#[derive(Debug, Clone)]
pub enum WsClientMessage {
    /// A command for the container.
    SendCommand(Vec<String>),
    /// Something to do to the power of the container.
    Power(Vec<String>),
    /// Another way to speak to the container.
    SetMode(Vec<String>),
    /// The last lines of the log, and how many of them.
    RequestLogs(Vec<String>),
    /// Nothing, to keep the connection alive.
    Ping,
}

/// What a [`WsClientMessage`] holds.
#[verifier::ext_equal]
pub enum WsClientMessageView {
    SendCommand(Seq<Seq<char>>),
    Power(Seq<Seq<char>>),
    SetMode(Seq<Seq<char>>),
    RequestLogs(Seq<Seq<char>>),
    Ping,
}

impl DeepView for WsClientMessage {
    type V = WsClientMessageView;

    open spec fn deep_view(&self) -> WsClientMessageView {
        match self {
            WsClientMessage::SendCommand(a) => WsClientMessageView::SendCommand(a.deep_view()),
            WsClientMessage::Power(a) => WsClientMessageView::Power(a.deep_view()),
            WsClientMessage::SetMode(a) => WsClientMessageView::SetMode(a.deep_view()),
            WsClientMessage::RequestLogs(a) => WsClientMessageView::RequestLogs(a.deep_view()),
            WsClientMessage::Ping => WsClientMessageView::Ping,
        }
    }
}

/// A message to a client.
#[derive(Debug, Clone)]
pub struct WsMessage {
    pub event: WsEvent,
    pub args: Vec<String>,
}

/// What a [`WsMessage`] holds.
#[verifier::ext_equal]
pub struct WsMessageView {
    pub event: WsEvent,
    pub args: Seq<Seq<char>>,
}

impl DeepView for WsMessage {
    type V = WsMessageView;

    open spec fn deep_view(&self) -> WsMessageView {
        WsMessageView {
            event: self.event,
            args: self.args.deep_view(),
        }
    }
}

/// A message with one argument.
pub open spec fn message(event: WsEvent, text: Seq<char>) -> WsMessageView {
    WsMessageView { event, args: seq![text] }
}

/// A line of output as a message.
pub open spec fn console_message(line: Seq<char>) -> WsMessageView {
    message(WsEvent::ConsoleOutput, "[container@pkg.lat]: "@ + line)
}

/// How often the last line of output came, as a message.
pub open spec fn duplicate_message(count: nat) -> WsMessageView {
    message(WsEvent::ConsoleOutput, "x"@ + decimal(count))
}

/// A state as a message.
pub open spec fn status_message(state: Seq<char>) -> WsMessageView {
    message(WsEvent::Status, state)
}

/// What went wrong, as a message.
pub open spec fn error_message(text: Seq<char>) -> WsMessageView {
    message(WsEvent::Error, text)
}

/// A message of the daemon.
pub open spec fn daemon_message(text: Seq<char>) -> WsMessageView {
    message(WsEvent::DaemonMessage, "[Lightd] "@ + text)
}

/// A new mode, as a message.
pub open spec fn mode_message(mode: Seq<char>) -> WsMessageView {
    message(WsEvent::DaemonMessage, "[Lightd] WebSocket mode changed to: "@ + mode)
}

/// The message with which a connection opens.
pub open spec fn init_message(
    container_id: Seq<char>,
    container_uuid: Seq<char>,
    status: Seq<char>,
) -> WsMessageView {
    WsMessageView { event: WsEvent::Init, args: seq![container_id, container_uuid, status] }
}

/// The message that tells what the engine did to the container, and its state.
pub open spec fn engine_message(action: Seq<char>, status: Seq<char>) -> WsMessageView {
    WsMessageView { event: WsEvent::DockerEvent, args: seq![action, status] }
}

/// The JSON text of a message.
pub open spec fn message_json(message: WsMessageView) -> Seq<char> {
    "{\"event\":\""@ + message.event.text() + "\",\"args\":"@ + json_array(message.args) + "}"@
}

fn one(event: WsEvent, text: String) -> (r: WsMessage)
    ensures
        r.deep_view() == message(event, text@),
{
    let mut args: Vec<String> = Vec::new();
    args.push(text);
    assert(args.deep_view() =~= seq![text@]);
    WsMessage { event, args }
}

impl WsMessage {
    /// The first message: the container, its UUID and its state.
    pub fn init(container_id: &str, container_uuid: &str, status: &str) -> (r: Self)
        ensures
            r.deep_view() == init_message(container_id@, container_uuid@, status@),
    {
        let mut args: Vec<String> = Vec::new();
        args.push(container_id.to_string());
        args.push(container_uuid.to_string());
        args.push(status.to_string());
        assert(args.deep_view() =~= seq![container_id@, container_uuid@, status@]);
        WsMessage { event: WsEvent::Init, args }
    }

    /// A line of output.
    pub fn console_output(line: &str) -> (r: Self)
        ensures
            r.deep_view() == console_message(line@),
    {
        one(WsEvent::ConsoleOutput, cat2("[container@pkg.lat]: ", line))
    }

    /// How often the last line of output came.
    pub fn console_duplicate(count: u32) -> (r: Self)
        ensures
            r.deep_view() == duplicate_message(count as nat),
    {
        one(WsEvent::ConsoleOutput, cat2("x", decimal_text(count as u64).as_str()))
    }

    /// A state.
    pub fn status(state: &str) -> (r: Self)
        ensures
            r.deep_view() == status_message(state@),
    {
        one(WsEvent::Status, state.to_string())
    }

    /// What went wrong.
    pub fn error(msg: &str) -> (r: Self)
        ensures
            r.deep_view() == error_message(msg@),
    {
        one(WsEvent::Error, msg.to_string())
    }

    /// A message of the daemon.
    pub fn daemon_message(msg: &str) -> (r: Self)
        ensures
            r.deep_view() == daemon_message(msg@),
    {
        one(WsEvent::DaemonMessage, cat2("[Lightd] ", msg))
    }

    /// A new mode.
    pub fn mode_changed(mode: &str) -> (r: Self)
        ensures
            r.deep_view() == mode_message(mode@),
    {
        one(WsEvent::DaemonMessage, cat2("[Lightd] WebSocket mode changed to: ", mode))
    }

    /// A line of output that came before.
    pub fn duplicate_event(line: &str) -> (r: Self)
        ensures
            r.deep_view() == message(WsEvent::DuplicateEvent, line@),
    {
        one(WsEvent::DuplicateEvent, line.to_string())
    }

    /// Something that the engine did with the container, and the state that follows.
    pub fn docker_event(action: &str, status: &str) -> (r: Self)
        ensures
            r.deep_view() == engine_message(action@, status@),
    {
        let mut args: Vec<String> = Vec::new();
        args.push(action.to_string());
        args.push(status.to_string());
        assert(args.deep_view() =~= seq![action@, status@]);
        WsMessage { event: WsEvent::DockerEvent, args }
    }

    /// A command that was sent.
    pub fn command_sent(command: &str) -> (r: Self)
        ensures
            r.deep_view() == message(WsEvent::CommandSent, command@),
    {
        one(WsEvent::CommandSent, command.to_string())
    }

    /// What the container uses, as JSON text.
    pub fn stats_json(stats_json: &str) -> (r: Self)
        ensures
            r.deep_view() == message(WsEvent::Stats, stats_json@),
    {
        one(WsEvent::Stats, stats_json.to_string())
    }

    /// The JSON text of the message.
    pub fn to_json(&self) -> (r: String)
        ensures
            r@ == message_json(self.deep_view()),
    {
        let args = json_strings(&self.args);
        assert(texts(self.args@) =~= self.args.deep_view());
        self.framed(args.as_str())
    }

    /// The JSON text of the message, given that of its arguments.
    pub fn framed(&self, args: &str) -> (r: String)
        ensures
            r@ == "{\"event\":\""@ + self.event.text() + "\",\"args\":"@ + args@ + "}"@,
    {
        cat5("{\"event\":\"", self.event.name(), "\",\"args\":", args, "}")
    }
}

/// Messages that hand something on carry it as it is: which container this is and how, what the
/// engine did to it, a repeated line, a command, and what the container uses.
pub proof fn law_messages_hand_on(a: Seq<char>, b: Seq<char>, c: Seq<char>)
    ensures
        init_message(a, b, c).event == WsEvent::Init,
        init_message(a, b, c).args == seq![a, b, c],
        engine_message(a, b).event == WsEvent::DockerEvent,
        engine_message(a, b).args == seq![a, b],
        message(WsEvent::DuplicateEvent, a).args == seq![a],
        message(WsEvent::CommandSent, a).event == WsEvent::CommandSent,
        message(WsEvent::Stats, a).args == seq![a],
{
}

/// The frame of a message is a JSON object with the name of its event and the list of its
/// arguments, each as a JSON string; no two events have the same name.
pub proof fn law_message_frame(event: WsEvent, other: WsEvent, text: Seq<char>)
    ensures
        message_json(message(event, text)) == "{\"event\":\""@ + event.text()
            + "\",\"args\":"@ + ("["@ + ("\""@ + json_chars(text) + "\""@) + "]"@) + "}"@,
        event.text() == other.text() <==> event == other,
{
    let one = Seq::new(1, |i: int| "\""@ + json_chars(seq![text][i]) + "\""@);
    assert(one.len() == 1);
    assert(joined(one, ","@) == one[0]);
    reveal_strlit("init");
    reveal_strlit("console_output");
    reveal_strlit("duplicate_event");
    reveal_strlit("status");
    reveal_strlit("stats");
    reveal_strlit("error");
    reveal_strlit("daemon_message");
    reveal_strlit("docker_event");
    reveal_strlit("command_sent");
    assert("init"@.len() == 4);
    assert("console_output"@.len() == 14);
    assert("duplicate_event"@.len() == 15);
    assert("status"@.len() == 6);
    assert("stats"@.len() == 5);
    assert("error"@.len() == 5);
    assert("daemon_message"@.len() == 14);
    assert("docker_event"@.len() == 12);
    assert("command_sent"@.len() == 12);
    assert("console_output"@[0] != "daemon_message"@[0]);
    assert("stats"@[0] != "error"@[0]);
    assert("docker_event"@[0] != "command_sent"@[0]);
}

/// What each message carries: the output of the container behind its mark, how often a line came
/// again, a state, an error, and what the daemon says behind its own mark.
pub proof fn law_messages(text: Seq<char>, count: nat)
    ensures
        console_message(text).event == WsEvent::ConsoleOutput,
        console_message(text).args == seq!["[container@pkg.lat]: "@ + text],
        duplicate_message(count).event == WsEvent::ConsoleOutput,
        duplicate_message(count).args == seq!["x"@ + decimal(count)],
        status_message(text).event == WsEvent::Status,
        status_message(text).args == seq![text],
        error_message(text).event == WsEvent::Error,
        error_message(text).args == seq![text],
        daemon_message(text).event == WsEvent::DaemonMessage,
        daemon_message(text).args == seq!["[Lightd] "@ + text],
        mode_message(text).event == WsEvent::DaemonMessage,
        mode_message(text).args == seq!["[Lightd] "@ + ("WebSocket mode changed to: "@ + text)],
        WsMode::Attached.text() == "attached"@,
        WsMode::Exec.text() == "exec"@,
{
    reveal_strlit("[Lightd] ");
    reveal_strlit("WebSocket mode changed to: ");
    reveal_strlit("[Lightd] WebSocket mode changed to: ");
    assert("[Lightd] WebSocket mode changed to: "@ + text =~= "[Lightd] "@ + (
    "WebSocket mode changed to: "@ + text));
}

} // verus!
