//! One connection that shows what a container does.

use super::handler::{
    in_operation, is_operation_state, is_streaming_state, now_epoch_secs, streams,
};
use super::{
    daemon_message, error_message, mode_message, status_message, WsClientMessage,
    WsClientMessageView, WsMessage, WsMessageView, WsMode,
};
use crate::duplicate::Duplicate;
use crate::number::{signed_decimal, signed_decimal_text};
use crate::outside::{lower_case, to_lower};
use crate::services::async_power::PowerAction;
use crate::state_manager::{ContainerState, ContainerStateView};
use crate::text::{cat2, cat3, cat4, is_empty_text, same_text};
use vstd::prelude::*;

verus! {

/// What a connection does.
#[derive(Debug, Clone)]
pub enum WsOutput {
    /// Sends a message; where that fails, the connection ends and nothing more is done.
    Send(WsMessage),
    /// Sends a message, if that succeeds.
    Offer(WsMessage),
    /// Begins to follow the output of the container.
    StartLogs(WsMode),
    /// Stops following it.
    StopLogs,
    /// Begins to follow what the container uses.
    StartStats,
    /// Stops following it.
    StopStats,
    /// Stops following what the engine does with the container.
    StopEvents,
    /// Stops listening to what happens to the container.
    Unsubscribe,
    /// Sends the last lines of the log since a time.
    SendLogs { tail: String, since: i64 },
    /// Sends the last lines of the log since the start of the container.
    AskLogs { tail: String },
    /// Hands a command to the main process; where that fails, a message is sent instead.
    Input { command: String, otherwise: WsMessage },
    /// Runs a command in a shell.
    Exec(String),
    /// Does something to the power of the container, by its name in lower case.
    Power(String),
    /// Sends a ping; where that fails, the connection ends.
    Ping,
}

/// What a [`WsOutput`] holds.
#[verifier::ext_equal]
pub enum WsOutputView {
    Send(WsMessageView),
    Offer(WsMessageView),
    StartLogs(WsMode),
    StopLogs,
    StartStats,
    StopStats,
    StopEvents,
    Unsubscribe,
    SendLogs { tail: Seq<char>, since: i64 },
    AskLogs { tail: Seq<char> },
    Input { command: Seq<char>, otherwise: WsMessageView },
    Exec(Seq<char>),
    Power(Seq<char>),
    Ping,
}

impl DeepView for WsOutput {
    type V = WsOutputView;

    open spec fn deep_view(&self) -> WsOutputView {
        match self {
            WsOutput::Send(a) => WsOutputView::Send(a.deep_view()),
            WsOutput::Offer(a) => WsOutputView::Offer(a.deep_view()),
            WsOutput::StartLogs(a) => WsOutputView::StartLogs(*a),
            WsOutput::StopLogs => WsOutputView::StopLogs,
            WsOutput::StartStats => WsOutputView::StartStats,
            WsOutput::StopStats => WsOutputView::StopStats,
            WsOutput::StopEvents => WsOutputView::StopEvents,
            WsOutput::Unsubscribe => WsOutputView::Unsubscribe,
            WsOutput::SendLogs { tail, since } => WsOutputView::SendLogs {
                tail: tail@,
                since: *since,
            },
            WsOutput::AskLogs { tail } => WsOutputView::AskLogs {
                tail: tail@,
            },
            WsOutput::Input { command, otherwise } => WsOutputView::Input {
                command: command@,
                otherwise: otherwise.deep_view(),
            },
            WsOutput::Exec(a) => WsOutputView::Exec(a@),
            WsOutput::Power(a) => WsOutputView::Power(a@),
            WsOutput::Ping => WsOutputView::Ping,
        }
    }
}

/// What a connection remembers.
#[derive(Debug, Clone)]
pub struct WebSocketHandler {
    pub container_id: String,
    pub container_uuid: String,
    pub mode: WsMode,
    /// Whether the container runs, as far as was told.
    pub running: bool,
    /// Whether its output is followed.
    pub streaming: bool,
    /// Whether commands can be handed to its main process.
    pub has_input: bool,
    /// The last state that was told.
    pub current_state: String,
    /// When the container was started last, where that is known.
    pub last_start_since: Option<i64>,
    /// Whether the log since the start is sent once the container runs.
    pub send_startup_tail: bool,
    /// The state at the last look.
    pub last_sm_state: String,
    pub last_lock_reason: Option<String>,
    pub last_operation: Option<String>,
    pub last_operation_id: Option<String>,
    pub last_operation_message: Option<String>,
    /// How long ago the last ping was, in milliseconds.
    pub since_ping_ms: u64,
}

/// What a [`WebSocketHandler`] holds.
#[verifier::ext_equal]
pub struct WebSocketHandlerView {
    pub container_id: Seq<char>,
    pub container_uuid: Seq<char>,
    pub mode: WsMode,
    pub running: bool,
    pub streaming: bool,
    pub has_input: bool,
    pub current_state: Seq<char>,
    pub last_start_since: Option<i64>,
    pub send_startup_tail: bool,
    pub last_sm_state: Seq<char>,
    pub last_lock_reason: Option<Seq<char>>,
    pub last_operation: Option<Seq<char>>,
    pub last_operation_id: Option<Seq<char>>,
    pub last_operation_message: Option<Seq<char>>,
    pub since_ping_ms: u64,
}

impl DeepView for WebSocketHandler {
    type V = WebSocketHandlerView;

    open spec fn deep_view(&self) -> WebSocketHandlerView {
        WebSocketHandlerView {
            container_id: self.container_id@,
            container_uuid: self.container_uuid@,
            mode: self.mode,
            running: self.running,
            streaming: self.streaming,
            has_input: self.has_input,
            current_state: self.current_state@,
            last_start_since: self.last_start_since.deep_view(),
            send_startup_tail: self.send_startup_tail,
            last_sm_state: self.last_sm_state@,
            last_lock_reason: self.last_lock_reason.deep_view(),
            last_operation: self.last_operation.deep_view(),
            last_operation_id: self.last_operation_id.deep_view(),
            last_operation_message: self.last_operation_message.deep_view(),
            since_ping_ms: self.since_ping_ms,
        }
    }
}

/// A change of state that is about to be told.
#[derive(Debug, Clone)]
pub struct StateChange {
    pub state: String,
    pub was_running: bool,
    pub was_streaming: bool,
}

/// What a [`StateChange`] holds.
#[verifier::ext_equal]
pub struct StateChangeView {
    pub state: Seq<char>,
    pub was_running: bool,
    pub was_streaming: bool,
}

impl DeepView for StateChange {
    type V = StateChangeView;

    open spec fn deep_view(&self) -> StateChangeView {
        StateChangeView {
            state: self.state@,
            was_running: self.was_running,
            was_streaming: self.was_streaming,
        }
    }
}

/// How a container ended, as the engine tells it.
#[derive(Debug, Clone)]
pub struct ExitInfo {
    pub exit_code: Option<i64>,
    pub error: Option<String>,
}

/// What a [`ExitInfo`] holds.
#[verifier::ext_equal]
pub struct ExitInfoView {
    pub exit_code: Option<i64>,
    pub error: Option<Seq<char>>,
}

impl DeepView for ExitInfo {
    type V = ExitInfoView;

    open spec fn deep_view(&self) -> ExitInfoView {
        ExitInfoView {
            exit_code: self.exit_code.deep_view(),
            error: self.error.deep_view(),
        }
    }
}

/// What a new connection remembers.
pub open spec fn opened(
    container_id: Seq<char>,
    container_uuid: Seq<char>,
    status: Seq<char>,
) -> WebSocketHandlerView {
    WebSocketHandlerView {
        container_id,
        container_uuid,
        mode: WsMode::Attached,
        running: status == "running"@,
        streaming: streams(status),
        has_input: streams(status),
        current_state: status,
        last_start_since: None,
        send_startup_tail: false,
        last_sm_state: status,
        last_lock_reason: None,
        last_operation: None,
        last_operation_id: None,
        last_operation_message: None,
        since_ping_ms: 0,
    }
}

/// What a new connection does: it tells the container, its state and the mode, and follows the
/// output of the container in states in which there is any.
pub open spec fn opening_outputs(
    container_id: Seq<char>,
    container_uuid: Seq<char>,
    status: Seq<char>,
) -> Seq<WsOutputView> {
    seq![
        WsOutputView::Send(
            WsMessageView {
                event: super::WsEvent::Init,
                args: seq![container_id, container_uuid, status],
            },
        ),
        WsOutputView::Offer(mode_message("attached"@)),
    ] + if streams(status) {
        seq![WsOutputView::StartLogs(WsMode::Attached), WsOutputView::StartStats]
    } else {
        seq![WsOutputView::Offer(daemon_message("Server is not running, start it!"@))]
    }
}

/// Whether a container that the engine says is in this state may be in another one.
pub open spec fn is_over(state: Seq<char>) -> bool {
    state == "stopped"@ || state == "exited"@
}

/// What a change of state does to a connection, given what the engine says and the state of the
/// container as the daemon knows it. That a container stopped is not told while an operation goes
/// on.
pub open spec fn state_begun(
    session: WebSocketHandlerView,
    told: Seq<char>,
    actual: Seq<char>,
) -> Option<(WebSocketHandlerView, StateChangeView)> {
    if is_over(told) && is_operation_state(actual) {
        None
    } else {
        let state = if is_over(told) {
            actual
        } else {
            told
        };
        Some(
            (
                WebSocketHandlerView {
                    running: state == "running"@,
                    streaming: streams(state),
                    current_state: state,
                    last_start_since: if is_over(state) {
                        None
                    } else {
                        session.last_start_since
                    },
                    send_startup_tail: !is_over(state) && session.send_startup_tail,
                    ..session
                },
                StateChangeView {
                    state,
                    was_running: session.running,
                    was_streaming: session.streaming,
                },
            ),
        )
    }
}

/// Whether a change of state is the end of a container that ran.
pub open spec fn is_exit(session: WebSocketHandlerView, change: StateChangeView) -> bool {
    change.was_running && !session.running && is_over(change.state)
}

/// What is said of the end of a container.
pub open spec fn exit_text(info: ExitInfoView) -> Seq<char> {
    let code = match info.exit_code {
        Some(code) => code as int,
        None => 0,
    };
    let error = match info.error {
        Some(error) => error,
        None => ""@,
    };
    if code == 0 {
        "Container exited normally"@
    } else if info.error is Some && info.error->0.len() > 0 {
        "Container exited with code "@ + signed_decimal(code) + " - "@ + error
    } else {
        "Container exited with code "@ + signed_decimal(code)
    }
}

/// What a connection does about a change of state, given how the container ended where that was
/// asked and told.
pub open spec fn state_finished(
    session: WebSocketHandlerView,
    change: StateChangeView,
    exit: Option<ExitInfoView>,
) -> (WebSocketHandlerView, Seq<WsOutputView>) {
    let farewell = match exit {
        Some(info) if is_exit(session, change) => seq![
            WsOutputView::Offer(daemon_message(exit_text(info))),
            WsOutputView::Offer(
                daemon_message("WebSocket will close - reconnect to see new logs"@),
            ),
        ],
        _ => Seq::empty(),
    };
    let told = farewell + seq![WsOutputView::Send(status_message(change.state))];
    if session.streaming && !change.was_streaming {
        (
            WebSocketHandlerView { has_input: session.mode == WsMode::Attached, ..session },
            told + seq![WsOutputView::StartLogs(session.mode), WsOutputView::StartStats],
        )
    } else if !session.streaming && change.was_streaming {
        (
            WebSocketHandlerView { has_input: false, ..session },
            told + seq![WsOutputView::StopLogs, WsOutputView::StopStats],
        )
    } else {
        (session, told)
    }
}

/// Whether the log since the start is sent after a change of state.
pub open spec fn wants_startup(session: WebSocketHandlerView, change: StateChangeView) -> bool {
    session.running && !change.was_running && session.send_startup_tail
}

/// The log since the start: since the engine says that the container was started, else since it
/// was asked to start, else since now.
pub open spec fn startup_sent(
    session: WebSocketHandlerView,
    started_at: Option<i64>,
    now: i64,
) -> (WebSocketHandlerView, WsOutputView) {
    let since = match (started_at, session.last_start_since) {
        (Some(since), _) => since,
        (None, Some(since)) => since,
        (None, None) => now,
    };
    (
        WebSocketHandlerView {
            last_start_since: Some(since),
            send_startup_tail: false,
            ..session
        },
        WsOutputView::SendLogs { tail: "200"@, since },
    )
}

/// What a connection remembers of an action that begins.
pub open spec fn power_begun(
    session: WebSocketHandlerView,
    action: Seq<char>,
    now: i64,
) -> WebSocketHandlerView {
    if action == "stop"@ || action == "kill"@ {
        WebSocketHandlerView { last_start_since: None, send_startup_tail: false, ..session }
    } else if action == "start"@ || action == "restart"@ {
        WebSocketHandlerView { last_start_since: Some(now), send_startup_tail: true, ..session }
    } else {
        session
    }
}

/// What a connection does with a command for the container.
pub open spec fn command_output(session: WebSocketHandlerView, command: Seq<char>) -> WsOutputView {
    match session.mode {
        WsMode::Attached => if session.has_input {
            WsOutputView::Input {
                command,
                otherwise: error_message("Failed to send command to attached session"@),
            }
        } else {
            WsOutputView::Offer(error_message("No attached session available"@))
        },
        WsMode::Exec => WsOutputView::Exec(command),
    }
}

/// The mode that a name, in lower case, stands for.
pub open spec fn mode_of(name: Seq<char>) -> Option<WsMode> {
    if name == "attached"@ {
        Some(WsMode::Attached)
    } else if name == "exec"@ {
        Some(WsMode::Exec)
    } else {
        None
    }
}

/// What a request for another mode, in lower case, does.
pub open spec fn mode_set(session: WebSocketHandlerView, name: Seq<char>) -> (
    WebSocketHandlerView,
    Seq<WsOutputView>,
) {
    match mode_of(name) {
        None => (
            session,
            seq![
                WsOutputView::Offer(
                    error_message("Invalid mode. Use 'attached' or 'exec'"@),
                ),
            ],
        ),
        Some(mode) => if mode == session.mode {
            (session, Seq::empty())
        } else {
            (
                WebSocketHandlerView {
                    mode,
                    has_input: session.streaming && mode == WsMode::Attached,
                    ..session
                },
                (if session.streaming {
                    seq![WsOutputView::StopLogs, WsOutputView::StartLogs(mode)]
                } else {
                    Seq::empty()
                }).push(WsOutputView::Offer(mode_message(mode.text()))),
            )
        },
    }
}

/// What a request for the log does: it is sent since the last start, where that is known.
pub open spec fn logs_requested(session: WebSocketHandlerView, args: Seq<Seq<char>>) -> WsOutputView {
    let tail = if args.len() > 0 {
        args[0]
    } else {
        "10"@
    };
    match session.last_start_since {
        Some(since) => WsOutputView::SendLogs { tail, since },
        None => WsOutputView::AskLogs { tail },
    }
}

/// What a message of a client does.
pub open spec fn client_asked(session: WebSocketHandlerView, message: WsClientMessageView) -> (
    WebSocketHandlerView,
    Seq<WsOutputView>,
) {
    match message {
        WsClientMessageView::SendCommand(args) => if args.len() > 0 {
            (session, seq![command_output(session, args[0])])
        } else {
            (session, Seq::empty())
        },
        WsClientMessageView::Power(args) => if args.len() > 0 {
            (session, seq![WsOutputView::Power(lower_case(args[0]))])
        } else {
            (session, Seq::empty())
        },
        WsClientMessageView::SetMode(args) => if args.len() > 0 {
            mode_set(session, lower_case(args[0]))
        } else {
            (session, Seq::empty())
        },
        WsClientMessageView::RequestLogs(args) => (session, seq![logs_requested(session, args)]),
        WsClientMessageView::Ping => (session, Seq::empty()),
    }
}

/// The action that a name, in lower case, stands for.
pub open spec fn named_action(name: Seq<char>) -> Option<PowerAction> {
    if name == "start"@ {
        Some(PowerAction::Start)
    } else if name == "stop"@ {
        Some(PowerAction::Stop)
    } else if name == "restart"@ {
        Some(PowerAction::Restart)
    } else if name == "kill"@ {
        Some(PowerAction::Kill)
    } else {
        None
    }
}

/// Whether what is remembered of an operation differs from what the state of a container shows.
pub open spec fn operation_changed(
    session: WebSocketHandlerView,
    state: ContainerStateView,
) -> bool {
    ||| state.lock_reason != session.last_lock_reason
    ||| state.operation != session.last_operation
    ||| state.operation_id != session.last_operation_id
    ||| state.operation_message != session.last_operation_message
}

/// What is said of an operation: its message, or why the container is locked, behind its name.
pub open spec fn operation_text(state: ContainerStateView) -> Option<Seq<char>> {
    let detail = match state.operation_message {
        Some(message) => Some(message),
        None => state.lock_reason,
    };
    match detail {
        None => None,
        Some(detail) => Some(
            match state.operation {
                Some(operation) => operation + " - "@ + detail,
                None => detail,
            },
        ),
    }
}

/// What a look at a container does: a new state is told, and what an operation does.
pub open spec fn looked(
    session: WebSocketHandlerView,
    state: ContainerStateView,
    actual: Seq<char>,
) -> (WebSocketHandlerView, Seq<WsOutputView>) {
    let (first, told) = if actual != session.last_sm_state {
        (
            WebSocketHandlerView { last_sm_state: actual, current_state: actual, ..session },
            seq![WsOutputView::Send(status_message(actual))],
        )
    } else {
        (session, Seq::empty())
    };
    if operation_changed(first, state) {
        (
            WebSocketHandlerView {
                last_lock_reason: state.lock_reason,
                last_operation: state.operation,
                last_operation_id: state.operation_id,
                last_operation_message: state.operation_message,
                ..first
            },
            match operation_text(state) {
                Some(text) => told.push(WsOutputView::Send(daemon_message(text))),
                None => told,
            },
        )
    } else {
        (first, told)
    }
}

/// The pause before a look at the container, in milliseconds, where nothing else happens.
pub const POLL_PAUSE_MS: u64 = 500;

/// How long after the last ping the next one is due, in milliseconds.
pub const PING_AFTER_MS: u64 = 30000;

/// What the passing of time does to a connection: a ping is sent where one is due.
pub open spec fn ticked(session: WebSocketHandlerView, elapsed_ms: u64) -> (
    WebSocketHandlerView,
    Seq<WsOutputView>,
) {
    if session.since_ping_ms + elapsed_ms >= PING_AFTER_MS {
        (WebSocketHandlerView { since_ping_ms: 0, ..session }, seq![WsOutputView::Ping])
    } else {
        (
            WebSocketHandlerView {
                since_ping_ms: (session.since_ping_ms + elapsed_ms) as u64,
                ..session
            },
            Seq::empty(),
        )
    }
}

/// What a connection does when it ends.
pub open spec fn closing_outputs() -> Seq<WsOutputView> {
    seq![
        WsOutputView::StopLogs,
        WsOutputView::StopStats,
        WsOutputView::StopEvents,
        WsOutputView::Unsubscribe,
    ]
}

fn same_optional(a: &Option<String>, b: &Option<String>) -> (r: bool)
    ensures
        r == (a.deep_view() == b.deep_view()),
{
    match (a, b) {
        (Some(x), Some(y)) => same_text(x.as_str(), y.as_str()),
        (None, None) => true,
        _ => false,
    }
}

fn over(state: &str) -> (r: bool)
    ensures
        r == is_over(state@),
{
    same_text(state, "stopped") || same_text(state, "exited")
}

fn exit_message(info: &ExitInfo) -> (r: String)
    ensures
        r@ == exit_text(info.deep_view()),
{
    let code: i64 = match info.exit_code {
        Some(code) => code,
        None => 0,
    };
    if code == 0 {
        return "Container exited normally".to_string();
    }
    let number = signed_decimal_text(code);
    match &info.error {
        Some(error) => if is_empty_text(error.as_str()) {
            cat2("Container exited with code ", number.as_str())
        } else {
            cat4("Container exited with code ", number.as_str(), " - ", error.as_str())
        },
        None => cat2("Container exited with code ", number.as_str()),
    }
}

/// The answer to what the engine did with a container, as a message.
pub fn engine_event_output(action: &str, state: &str) -> (r: WsOutput)
    ensures
        r.deep_view() == WsOutputView::Send(super::engine_message(action@, state@)),
{
    WsOutput::Send(WsMessage::docker_event(action, state))
}

/// The action that a name, in lower case, stands for, or that there is none.
pub fn power_action(name: &str) -> (r: Result<PowerAction, String>)
    ensures
        match r {
            Ok(action) => named_action(name@) == Some(action),
            Err(e) => named_action(name@) is None && e@ == "Invalid power action"@,
        },
{
    if same_text(name, "start") {
        Ok(PowerAction::Start)
    } else if same_text(name, "stop") {
        Ok(PowerAction::Stop)
    } else if same_text(name, "restart") {
        Ok(PowerAction::Restart)
    } else if same_text(name, "kill") {
        Ok(PowerAction::Kill)
    } else {
        Err("Invalid power action".to_string())
    }
}

/// What is said where a power action is over.
pub open spec fn power_over(action: Seq<char>, success: bool, message: Seq<char>) -> WsOutputView {
    WsOutputView::Send(
        daemon_message(
            "Power action "@ + action + (if success {
                ": completed - "@
            } else {
                ": failed - "@
            }) + message,
        ),
    )
}

/// What is said where a power action begins.
pub open spec fn power_told(action: Seq<char>) -> WsOutputView {
    WsOutputView::Send(daemon_message("Power action started: "@ + action))
}

/// What is told to all who listen to a container where an action could not begin.
pub fn power_failure(error: &str) -> (r: String)
    ensures
        r@ == "Power action failed: "@ + error@,
{
    cat2("Power action failed: ", error)
}

impl WebSocketHandler {
    /// Opens a connection to a container that is in a state.
    pub fn new(container_id: &str, container_uuid: &str, status: &str) -> (r: (Self, Vec<WsOutput>))
        ensures
            r.0.deep_view() == opened(container_id@, container_uuid@, status@),
            r.1.deep_view() == opening_outputs(container_id@, container_uuid@, status@),
    {
        let streaming = is_streaming_state(status);
        let session = WebSocketHandler {
            container_id: container_id.to_string(),
            container_uuid: container_uuid.to_string(),
            mode: WsMode::Attached,
            running: same_text(status, "running"),
            streaming,
            has_input: streaming,
            current_state: status.to_string(),
            last_start_since: None,
            send_startup_tail: false,
            last_sm_state: status.to_string(),
            last_lock_reason: None,
            last_operation: None,
            last_operation_id: None,
            last_operation_message: None,
            since_ping_ms: 0,
        };
        let mut outputs: Vec<WsOutput> = Vec::new();
        outputs.push(WsOutput::Send(WsMessage::init(container_id, container_uuid, status)));
        outputs.push(WsOutput::Offer(WsMessage::mode_changed("attached")));
        if streaming {
            outputs.push(WsOutput::StartLogs(WsMode::Attached));
            outputs.push(WsOutput::StartStats);
        } else {
            outputs.push(
                WsOutput::Offer(WsMessage::daemon_message("Server is not running, start it!")),
            );
        }
        assert(outputs.deep_view() =~= opening_outputs(
            container_id@,
            container_uuid@,
            status@,
        ));
        (session, outputs)
    }

    /// Whether the daemon is asked for the state of the container when the engine tells this one.
    pub fn needs_status(told: &str) -> (r: bool)
        ensures
            r == is_over(told@),
    {
        over(told)
    }

    /// Takes a state that was told, and the state as the daemon knows it. `None` where nothing is
    /// told to the client.
    pub fn begin_state_change(&mut self, told: &str, actual: &str) -> (r: Option<StateChange>)
        ensures
            match state_begun(old(self).deep_view(), told@, actual@) {
                None => r is None && final(self).deep_view() == old(self).deep_view(),
                Some((session, change)) => r.deep_view() == Some(change)
                    && final(self).deep_view() == session,
            },
    {
        if over(told) && in_operation(actual) {
            return None;
        }
        let state = if over(told) {
            actual
        } else {
            told
        };
        let change = StateChange {
            state: state.to_string(),
            was_running: self.running,
            was_streaming: self.streaming,
        };
        self.running = same_text(state, "running");
        self.streaming = is_streaming_state(state);
        self.current_state = state.to_string();
        if over(state) {
            self.last_start_since = None;
            self.send_startup_tail = false;
        }
        Some(change)
    }

    /// Whether the engine is asked how the container ended.
    pub fn needs_exit_info(&self, change: &StateChange) -> (r: bool)
        ensures
            r == is_exit(self.deep_view(), change.deep_view()),
    {
        change.was_running && !self.running && over(change.state.as_str())
    }

    /// Takes how the container ended, where that was asked and told, and says what is done about
    /// the change of state.
    pub fn finish_state_change(&mut self, change: &StateChange, exit: &Option<ExitInfo>) -> (r: Vec<
        WsOutput,
    >)
        ensures
            (final(self).deep_view(), r.deep_view()) == state_finished(
                old(self).deep_view(),
                change.deep_view(),
                exit.deep_view(),
            ),
    {
        let ghost before = self.deep_view();
        let mut outputs: Vec<WsOutput> = Vec::new();
        let is_exit = self.needs_exit_info(change);
        if is_exit {
            if let Some(info) = exit {
                let text = exit_message(info);
                outputs.push(WsOutput::Offer(WsMessage::daemon_message(text.as_str())));
                outputs.push(
                    WsOutput::Offer(
                        WsMessage::daemon_message(
                            "WebSocket will close - reconnect to see new logs",
                        ),
                    ),
                );
            }
        }
        outputs.push(WsOutput::Send(WsMessage::status(change.state.as_str())));
        if self.streaming && !change.was_streaming {
            outputs.push(WsOutput::StartLogs(self.mode));
            outputs.push(WsOutput::StartStats);
            self.has_input = self.mode == WsMode::Attached;
        } else if !self.streaming && change.was_streaming {
            outputs.push(WsOutput::StopLogs);
            outputs.push(WsOutput::StopStats);
            self.has_input = false;
        }
        assert(outputs.deep_view() =~= state_finished(
            before,
            change.deep_view(),
            exit.deep_view(),
        ).1);
        outputs
    }

    /// Whether the log since the start is sent after the change of state.
    pub fn needs_startup_logs(&self, change: &StateChange) -> (r: bool)
        ensures
            r == wants_startup(self.deep_view(), change.deep_view()),
    {
        self.running && !change.was_running && self.send_startup_tail
    }

    /// The log since the start, given when the engine says that it was, and the present time.
    pub fn startup_logs_at(&mut self, started_at: Option<i64>, now: i64) -> (r: WsOutput)
        ensures
            (final(self).deep_view(), r.deep_view()) == startup_sent(
                old(self).deep_view(),
                started_at,
                now,
            ),
    {
        let since: i64 = match started_at {
            Some(since) => since,
            None => match self.last_start_since {
                Some(since) => since,
                None => now,
            },
        };
        self.last_start_since = Some(since);
        self.send_startup_tail = false;
        WsOutput::SendLogs { tail: "200".to_string(), since }
    }

    /// The log since the start, given when the engine says that it was.
    pub fn startup_logs(&mut self, started_at: Option<i64>) -> (r: WsOutput)
        ensures
            exists|now: i64|
                (final(self).deep_view(), r.deep_view()) == #[trigger] startup_sent(
                    old(self).deep_view(),
                    started_at,
                    now,
                ),
    {
        let now = now_epoch_secs();
        self.startup_logs_at(started_at, now)
    }

    /// Takes a line of output.
    pub fn console_output(line: &str) -> (r: WsOutput)
        ensures
            r.deep_view() == WsOutputView::Send(super::console_message(line@)),
    {
        WsOutput::Send(WsMessage::console_output(line))
    }

    /// Takes how often the last line of output came.
    pub fn console_duplicate(count: u32) -> (r: WsOutput)
        ensures
            r.deep_view() == WsOutputView::Send(super::duplicate_message(count as nat)),
    {
        WsOutput::Send(WsMessage::console_duplicate(count))
    }

    /// Takes a message of the daemon.
    pub fn daemon_message(text: &str) -> (r: WsOutput)
        ensures
            r.deep_view() == WsOutputView::Send(daemon_message(text@)),
    {
        WsOutput::Send(WsMessage::daemon_message(text))
    }

    /// Takes that an action begins, at the time given.
    pub fn power_started_at(&mut self, action: &str, now: i64) -> (r: WsOutput)
        ensures
            final(self).deep_view() == power_begun(old(self).deep_view(), action@, now),
            r.deep_view() == power_told(action@),
    {
        if same_text(action, "stop") || same_text(action, "kill") {
            self.last_start_since = None;
            self.send_startup_tail = false;
        } else if same_text(action, "start") || same_text(action, "restart") {
            self.last_start_since = Some(now);
            self.send_startup_tail = true;
        }
        let text = cat2("Power action started: ", action);
        WsOutput::Send(WsMessage::daemon_message(text.as_str()))
    }

    /// Takes that an action begins.
    pub fn power_started(&mut self, action: &str) -> (r: WsOutput)
        ensures
            exists|now: i64|
                final(self).deep_view() == #[trigger] power_begun(
                    old(self).deep_view(),
                    action@,
                    now,
                ),
            r.deep_view() == power_told(action@),
    {
        let now = now_epoch_secs();
        self.power_started_at(action, now)
    }

    /// Takes that an action is over.
    pub fn power_completed(action: &str, success: bool, message: &str) -> (r: WsOutput)
        ensures
            r.deep_view() == power_over(action@, success, message@),
    {
        let status = if success {
            ": completed - "
        } else {
            ": failed - "
        };
        let text = cat4("Power action ", action, status, message);
        WsOutput::Send(WsMessage::daemon_message(text.as_str()))
    }

    /// Takes a request for another mode, by its name in lower case.
    pub fn set_mode(&mut self, name: &str) -> (r: Vec<WsOutput>)
        ensures
            (final(self).deep_view(), r.deep_view()) == mode_set(old(self).deep_view(), name@),
    {
        let ghost before = self.deep_view();
        let mut outputs: Vec<WsOutput> = Vec::new();
        let mode = if same_text(name, "attached") {
            WsMode::Attached
        } else if same_text(name, "exec") {
            WsMode::Exec
        } else {
            outputs.push(
                WsOutput::Offer(WsMessage::error("Invalid mode. Use 'attached' or 'exec'")),
            );
            assert(outputs.deep_view() =~= mode_set(before, name@).1);
            return outputs;
        };
        if mode == self.mode {
            assert(outputs.deep_view() =~= Seq::<WsOutputView>::empty());
            return outputs;
        }
        self.mode = mode;
        if self.streaming {
            outputs.push(WsOutput::StopLogs);
            outputs.push(WsOutput::StartLogs(mode));
            self.has_input = mode == WsMode::Attached;
        } else {
            self.has_input = false;
        }
        outputs.push(WsOutput::Offer(WsMessage::mode_changed(mode.name())));
        assert(outputs.deep_view() =~= mode_set(before, name@).1);
        outputs
    }

    /// Takes a command for the container.
    pub fn send_command(&self, command: &str) -> (r: WsOutput)
        ensures
            r.deep_view() == command_output(self.deep_view(), command@),
    {
        match self.mode {
            WsMode::Attached => if self.has_input {
                WsOutput::Input {
                    command: command.to_string(),
                    otherwise: WsMessage::error("Failed to send command to attached session"),
                }
            } else {
                WsOutput::Offer(WsMessage::error("No attached session available"))
            },
            WsMode::Exec => WsOutput::Exec(command.to_string()),
        }
    }

    /// Takes a request for the log.
    pub fn request_logs(&self, args: &Vec<String>) -> (r: WsOutput)
        ensures
            r.deep_view() == logs_requested(self.deep_view(), args.deep_view()),
    {
        let tail = if args.len() > 0 {
            args[0].clone()
        } else {
            "10".to_string()
        };
        match self.last_start_since {
            Some(since) => WsOutput::SendLogs { tail, since },
            None => WsOutput::AskLogs { tail },
        }
    }

    /// Takes a message of the client.
    pub fn client_message(&mut self, message: &WsClientMessage) -> (r: Vec<WsOutput>)
        ensures
            (final(self).deep_view(), r.deep_view()) == client_asked(
                old(self).deep_view(),
                message.deep_view(),
            ),
    {
        let ghost before = self.deep_view();
        let mut outputs: Vec<WsOutput> = Vec::new();
        match message {
            WsClientMessage::SendCommand(args) => {
                if args.len() > 0 {
                    outputs.push(self.send_command(args[0].as_str()));
                }
            },
            WsClientMessage::Power(args) => {
                if args.len() > 0 {
                    outputs.push(WsOutput::Power(to_lower(args[0].as_str())));
                }
            },
            WsClientMessage::SetMode(args) => {
                if args.len() > 0 {
                    let name = to_lower(args[0].as_str());
                    return self.set_mode(name.as_str());
                }
            },
            WsClientMessage::RequestLogs(args) => {
                outputs.push(self.request_logs(args));
            },
            WsClientMessage::Ping => {},
        }
        assert(outputs.deep_view() =~= client_asked(before, message.deep_view()).1);
        outputs
    }

    /// Takes a look at what the daemon remembers about the container, and its state.
    pub fn poll(&mut self, state: &ContainerState, actual: &str) -> (r: Vec<WsOutput>)
        ensures
            (final(self).deep_view(), r.deep_view()) == looked(
                old(self).deep_view(),
                state.deep_view(),
                actual@,
            ),
    {
        let ghost before = self.deep_view();
        let mut outputs: Vec<WsOutput> = Vec::new();
        if !same_text(actual, self.last_sm_state.as_str()) {
            self.last_sm_state = actual.to_string();
            self.current_state = actual.to_string();
            outputs.push(WsOutput::Send(WsMessage::status(actual)));
        }
        let unchanged = same_optional(&state.lock_reason, &self.last_lock_reason) && same_optional(
            &state.operation,
            &self.last_operation,
        ) && same_optional(&state.operation_id, &self.last_operation_id) && same_optional(
            &state.operation_message,
            &self.last_operation_message,
        );
        if !unchanged {
            self.last_lock_reason = state.lock_reason.duplicate();
            self.last_operation = state.operation.duplicate();
            self.last_operation_id = state.operation_id.duplicate();
            self.last_operation_message = state.operation_message.duplicate();
            let detail = match &state.operation_message {
                Some(message) => Some(message.clone()),
                None => state.lock_reason.duplicate(),
            };
            if let Some(detail) = detail {
                let text = match &state.operation {
                    Some(operation) => cat3(operation.as_str(), " - ", detail.as_str()),
                    None => detail,
                };
                outputs.push(WsOutput::Send(WsMessage::daemon_message(text.as_str())));
            }
        }
        assert(outputs.deep_view() =~= looked(before, state.deep_view(), actual@).1);
        outputs
    }

    /// Takes how much time has passed since it was told last, in milliseconds.
    pub fn tick(&mut self, elapsed_ms: u64) -> (r: Vec<WsOutput>)
        ensures
            (final(self).deep_view(), r.deep_view()) == ticked(old(self).deep_view(), elapsed_ms),
    {
        let ghost before = self.deep_view();
        let mut outputs: Vec<WsOutput> = Vec::new();
        if elapsed_ms >= PING_AFTER_MS || self.since_ping_ms >= PING_AFTER_MS - elapsed_ms {
            self.since_ping_ms = 0;
            outputs.push(WsOutput::Ping);
        } else {
            self.since_ping_ms = self.since_ping_ms + elapsed_ms;
        }
        assert(outputs.deep_view() =~= ticked(before, elapsed_ms).1);
        outputs
    }

    /// What the connection does when it ends.
    pub fn close(&self) -> (r: Vec<WsOutput>)
        ensures
            r.deep_view() == closing_outputs(),
    {
        let mut outputs: Vec<WsOutput> = Vec::new();
        outputs.push(WsOutput::StopLogs);
        outputs.push(WsOutput::StopStats);
        outputs.push(WsOutput::StopEvents);
        outputs.push(WsOutput::Unsubscribe);
        assert(outputs.deep_view() =~= closing_outputs());
        outputs
    }
}

/// Whether a connection is consistent: a container that runs is followed, and commands can be
/// handed to its main process only in attached mode while it is followed.
pub open spec fn is_consistent(session: WebSocketHandlerView) -> bool {
    &&& session.running ==> session.streaming
    &&& session.has_input == (session.streaming && session.mode == WsMode::Attached)
}

/// A connection is consistent from its beginning, and everything that it takes keeps it so.
pub proof fn law_connection_stays_consistent(
    session: WebSocketHandlerView,
    ids: (Seq<char>, Seq<char>, Seq<char>),
    told: Seq<char>,
    actual: Seq<char>,
    exit: Option<ExitInfoView>,
    message: WsClientMessageView,
    state: ContainerStateView,
    times: (Option<i64>, i64),
    elapsed_ms: u64,
)
    requires
        is_consistent(session),
    ensures
        is_consistent(opened(ids.0, ids.1, ids.2)),
        state_begun(session, told, actual) matches Some((begun, change)) ==> is_consistent(
            state_finished(begun, change, exit).0,
        ),
        is_consistent(client_asked(session, message).0),
        is_consistent(looked(session, state, actual).0),
        is_consistent(power_begun(session, told, times.1)),
        is_consistent(startup_sent(session, times.0, times.1).0),
        is_consistent(ticked(session, elapsed_ms).0),
{
}

/// The output of a container begins to be followed exactly when its state begins to be one in
/// which it is, and stops when it ceases to be one.
pub proof fn law_streams_follow_state(
    session: WebSocketHandlerView,
    told: Seq<char>,
    actual: Seq<char>,
    exit: Option<ExitInfoView>,
)
    ensures
        state_begun(session, told, actual) matches Some((begun, change)) ==> {
            let outputs = state_finished(begun, change, exit).1;
            &&& outputs.contains(WsOutputView::StartLogs(session.mode)) == (streams(change.state)
                && !session.streaming)
            &&& outputs.contains(WsOutputView::StopLogs) == (!streams(change.state)
                && session.streaming)
        },
{
    if let Some((begun, change)) = state_begun(session, told, actual) {
        let outputs = state_finished(begun, change, exit).1;
        let n = outputs.len() as int;
        if streams(change.state) && !session.streaming {
            assert(outputs[n - 2] == WsOutputView::StartLogs(session.mode));
        }
        if !streams(change.state) && session.streaming {
            assert(outputs[n - 2] == WsOutputView::StopLogs);
        }
    }
}

/// While an operation goes on, a client is not told that the container stopped.
pub proof fn law_stop_is_hidden_during_operation(
    session: WebSocketHandlerView,
    actual: Seq<char>,
)
    requires
        is_operation_state(actual),
    ensures
        state_begun(session, "stopped"@, actual) is None,
        state_begun(session, "exited"@, actual) is None,
{
}

/// What a connection remembers after ticks, and how many pings it sent, given how much time passed
/// from each tick to the next.
pub open spec fn after_ticks(session: WebSocketHandlerView, elapsed: Seq<u64>) -> (
    WebSocketHandlerView,
    nat,
)
    decreases elapsed.len(),
{
    if elapsed.len() == 0 {
        (session, 0)
    } else {
        let (before, pings) = after_ticks(session, elapsed.drop_last());
        let (after, outputs) = ticked(before, elapsed.last());
        (after, pings + outputs.len())
    }
}

/// The time that passes in all.
pub open spec fn total_ms(elapsed: Seq<u64>) -> nat
    decreases elapsed.len(),
{
    if elapsed.len() == 0 {
        0
    } else {
        total_ms(elapsed.drop_last()) + elapsed.last() as nat
    }
}

/// A connection is kept alive: when the next ping is due there is one, so that after every tick
/// the last ping is less than thirty seconds ago, and whenever thirty seconds have passed there
/// has been one.
pub proof fn law_pings_keep_coming(session: WebSocketHandlerView, elapsed: Seq<u64>)
    requires
        session.since_ping_ms < PING_AFTER_MS,
    ensures
        after_ticks(session, elapsed).0.since_ping_ms < PING_AFTER_MS,
        session.since_ping_ms + total_ms(elapsed) >= PING_AFTER_MS ==> after_ticks(
            session,
            elapsed,
        ).1 >= 1,
        after_ticks(session, elapsed).1 == 0 ==> after_ticks(session, elapsed).0.since_ping_ms
            == session.since_ping_ms + total_ms(elapsed),
    decreases elapsed.len(),
{
    if elapsed.len() > 0 {
        law_pings_keep_coming(session, elapsed.drop_last());
    }
}

/// A look at an unchanged container tells nothing, and a second look at a changed one neither.
pub proof fn law_look_tells_once(
    session: WebSocketHandlerView,
    state: ContainerStateView,
    actual: Seq<char>,
)
    ensures
        ({
            let after = looked(session, state, actual).0;
            looked(after, state, actual) == (after, Seq::<WsOutputView>::empty())
        }),
{
}

/// A connection opens attached, and with the streams of the container where its state has any;
/// the client is told which container it is and how it is, and where it does not run, that.
pub proof fn law_opened_connection(ids: (Seq<char>, Seq<char>), status: Seq<char>)
    ensures
        ({
            let session = opened(ids.0, ids.1, status);
            &&& session.container_id == ids.0
            &&& session.container_uuid == ids.1
            &&& session.mode == WsMode::Attached
            &&& session.running <==> status == "running"@
            &&& session.streaming == streams(status)
            &&& session.has_input == streams(status)
            &&& session.current_state == status
            &&& session.last_sm_state == status
            &&& session.last_start_since is None
            &&& !session.send_startup_tail
            &&& session.last_lock_reason is None
            &&& session.last_operation is None
            &&& session.last_operation_id is None
            &&& session.last_operation_message is None
            &&& session.since_ping_ms == 0
        }),
        ({
            let outputs = opening_outputs(ids.0, ids.1, status);
            &&& outputs[0] matches WsOutputView::Send(first) && {
                &&& first.event == super::WsEvent::Init
                &&& first.args == seq![ids.0, ids.1, status]
            }
            &&& outputs[1] == WsOutputView::Offer(mode_message("attached"@))
            &&& streams(status) ==> {
                &&& outputs.len() == 4
                &&& outputs[2] == WsOutputView::StartLogs(WsMode::Attached)
                &&& outputs[3] == WsOutputView::StartStats
            }
            &&& !streams(status) ==> {
                &&& outputs.len() == 3
                &&& outputs[2] == WsOutputView::Offer(
                    daemon_message("Server is not running, start it!"@),
                )
            }
        }),
{
}

/// What is told is taken for the state, except that an end is checked against what the daemon
/// knows. A container that is over forgets when it was last started; nothing else is forgotten.
pub proof fn law_state_is_taken(
    session: WebSocketHandlerView,
    told: Seq<char>,
    actual: Seq<char>,
)
    ensures
        ({
            let over = told == "stopped"@ || told == "exited"@;
            let state = if over {
                actual
            } else {
                told
            };
            &&& state_begun(session, told, actual) is None <==> over && is_operation_state(actual)
            &&& state_begun(session, told, actual) matches Some((begun, change)) ==> {
                &&& change.state == state
                &&& change.was_running == session.running
                &&& change.was_streaming == session.streaming
                &&& begun.current_state == state
                &&& begun.running <==> state == "running"@
                &&& begun.streaming == streams(state)
                &&& state == "stopped"@ || state == "exited"@ ==> begun.last_start_since is None
                    && !begun.send_startup_tail
                &&& state != "stopped"@ && state != "exited"@ ==> {
                    &&& begun.last_start_since == session.last_start_since
                    &&& begun.send_startup_tail == session.send_startup_tail
                }
                &&& begun.mode == session.mode
                &&& begun.container_id == session.container_id
                &&& begun.container_uuid == session.container_uuid
                &&& begun.has_input == session.has_input
                &&& begun.last_sm_state == session.last_sm_state
                &&& begun.last_lock_reason == session.last_lock_reason
                &&& begun.since_ping_ms == session.since_ping_ms
            }
        }),
{
}

/// A new state is told to the client, whatever it is. Where the container ran and is over, why
/// it ended is told first. Its streams, both of them, begin where they are due and end where not.
pub proof fn law_state_is_told(
    session: WebSocketHandlerView,
    change: StateChangeView,
    exit: Option<ExitInfoView>,
)
    ensures
        ({
            let (after, outputs) = state_finished(session, change, exit);
            let ended = change.was_running && !session.running && (change.state == "stopped"@
                || change.state == "exited"@);
            let starts = session.streaming && !change.was_streaming;
            let stops = !session.streaming && change.was_streaming;
            let n: int = if ended && exit is Some {
                2
            } else {
                0
            };
            &&& outputs.len() == n + 1 + (if starts || stops {
                2int
            } else {
                0
            })
            &&& n == 2 ==> {
                &&& outputs[0] == WsOutputView::Offer(daemon_message(exit_text(exit->0)))
                &&& outputs[1] == WsOutputView::Offer(
                    daemon_message("WebSocket will close - reconnect to see new logs"@),
                )
            }
            &&& outputs[n] == WsOutputView::Send(status_message(change.state))
            &&& starts ==> {
                &&& outputs[n + 1] == WsOutputView::StartLogs(session.mode)
                &&& outputs[n + 2] == WsOutputView::StartStats
                &&& after.has_input <==> session.mode == WsMode::Attached
            }
            &&& stops ==> {
                &&& outputs[n + 1] == WsOutputView::StopLogs
                &&& outputs[n + 2] == WsOutputView::StopStats
                &&& !after.has_input
            }
            &&& !starts && !stops ==> after == session
            &&& (WebSocketHandlerView { has_input: session.has_input, ..after }) == session
        }),
{
}

/// How a container ended, in words: normally where its code is zero or unknown, and else with
/// the code, and with what the engine says of it where it says something.
pub proof fn law_exit_text(info: ExitInfoView, code: i64, error: Seq<char>)
    ensures
        info.exit_code is None || info.exit_code == Some(0i64) ==> exit_text(info)
            == "Container exited normally"@,
        info.exit_code == Some(code) && code != 0 && info.error == Some(error) && error.len() > 0
            ==> exit_text(info) == "Container exited with code "@ + signed_decimal(code as int)
            + " - "@ + error,
        info.exit_code == Some(code) && code != 0 && (info.error is None || info.error
            == Some(Seq::<char>::empty())) ==> exit_text(info) == "Container exited with code "@
            + signed_decimal(code as int),
{
}

/// The log of a start is sent once: it is due where the container has just begun to run and a
/// start was asked for, and not any more once it was sent. It goes back to when the container was
/// started, or else to when the start was asked for, or else to now.
pub proof fn law_startup_log(
    session: WebSocketHandlerView,
    change: StateChangeView,
    started_at: Option<i64>,
    now: i64,
)
    ensures
        wants_startup(session, change) <==> session.running && !change.was_running
            && session.send_startup_tail,
        ({
            let (after, output) = startup_sent(session, started_at, now);
            &&& !wants_startup(after, change)
            &&& output matches WsOutputView::SendLogs { tail, since } && {
                &&& tail == "200"@
                &&& started_at matches Some(at) ==> since == at
                &&& started_at is None ==> (session.last_start_since matches Some(at) ==> since
                    == at)
                &&& started_at is None && session.last_start_since is None ==> since == now
                &&& after.last_start_since == Some(since)
            }
            &&& (WebSocketHandlerView {
                last_start_since: session.last_start_since,
                send_startup_tail: session.send_startup_tail,
                ..after
            }) == session
        }),
{
}

/// A start or restart that is asked for is remembered with its time, so that its log is sent; a
/// stop or kill forgets it; anything else changes nothing.
pub proof fn law_power_is_remembered(session: WebSocketHandlerView, action: Seq<char>, now: i64)
    ensures
        ({
            let after = power_begun(session, action, now);
            &&& action == "start"@ || action == "restart"@ ==> after == (WebSocketHandlerView {
                last_start_since: Some(now),
                send_startup_tail: true,
                ..session
            })
            &&& action == "stop"@ || action == "kill"@ ==> after == (WebSocketHandlerView {
                last_start_since: None,
                send_startup_tail: false,
                ..session
            })
            &&& action != "start"@ && action != "restart"@ && action != "stop"@ && action
                != "kill"@ ==> after == session
        }),
{
    reveal_strlit("start");
    reveal_strlit("restart");
    reveal_strlit("stop");
    reveal_strlit("kill");
    assert("start"@.len() == 5);
    assert("restart"@.len() == 7);
    assert("stop"@.len() == 4);
    assert("kill"@.len() == 4);
    assert("stop"@[0] != "kill"@[0]);
}

/// A command goes to the main process of the container, or is run beside it, as the mode says.
/// It goes nowhere where the connection has no input, and the client is then told.
pub proof fn law_commands(session: WebSocketHandlerView, command: Seq<char>)
    ensures
        session.mode == WsMode::Exec ==> command_output(session, command) == WsOutputView::Exec(
            command,
        ),
        session.mode == WsMode::Attached && session.has_input ==> (command_output(session, command)
            matches WsOutputView::Input { command: sent, otherwise } && sent == command
            && otherwise == error_message("Failed to send command to attached session"@)),
        session.mode == WsMode::Attached && !session.has_input ==> command_output(session, command)
            == WsOutputView::Offer(error_message("No attached session available"@)),
{
}

/// A mode that is asked for is the mode from then on, and the client is told; the log is begun
/// anew in that mode where it is shown. The mode that is set already, and a name of none, change
/// nothing.
pub proof fn law_modes(session: WebSocketHandlerView, name: Seq<char>)
    ensures
        ({
            let (after, outputs) = mode_set(session, name);
            let named = if name == "attached"@ {
                Some(WsMode::Attached)
            } else if name == "exec"@ {
                Some(WsMode::Exec)
            } else {
                None
            };
            &&& named is None ==> after == session && outputs == seq![
                WsOutputView::Offer(error_message("Invalid mode. Use 'attached' or 'exec'"@)),
            ]
            &&& named == Some(session.mode) ==> after == session && outputs.len() == 0
            &&& named matches Some(mode) ==> (mode != session.mode ==> {
                &&& after.mode == mode
                &&& after.has_input <==> session.streaming && mode == WsMode::Attached
                &&& (WebSocketHandlerView {
                    mode: session.mode,
                    has_input: session.has_input,
                    ..after
                }) == session
                &&& outputs.last() == WsOutputView::Offer(mode_message(name))
                &&& session.streaming ==> outputs.len() == 3 && outputs[0] == WsOutputView::StopLogs
                    && outputs[1] == WsOutputView::StartLogs(mode)
                &&& !session.streaming ==> outputs.len() == 1
            })
        }),
{
    reveal_strlit("attached");
    reveal_strlit("exec");
    assert("attached"@.len() == 8);
    assert("exec"@.len() == 4);
}

/// What a client asks for: a command is handed on, a power action and a mode are taken without
/// regard to case, the log goes back as far as asked, ten lines where nothing is said, and since
/// the last start where one is known. Without an argument nothing is done.
pub proof fn law_client_requests(
    session: WebSocketHandlerView,
    word: Seq<char>,
    args: Seq<Seq<char>>,
)
    ensures
        args.len() > 0 && args[0] == word ==> {
            &&& client_asked(session, WsClientMessageView::SendCommand(args)) == (
                session,
                seq![command_output(session, word)],
            )
            &&& client_asked(session, WsClientMessageView::Power(args)) == (
                session,
                seq![WsOutputView::Power(lower_case(word))],
            )
            &&& client_asked(session, WsClientMessageView::SetMode(args)) == mode_set(
                session,
                lower_case(word),
            )
        },
        args.len() == 0 ==> {
            &&& client_asked(session, WsClientMessageView::SendCommand(args)) == (
                session,
                Seq::<WsOutputView>::empty(),
            )
            &&& client_asked(session, WsClientMessageView::Power(args)) == (
                session,
                Seq::<WsOutputView>::empty(),
            )
            &&& client_asked(session, WsClientMessageView::SetMode(args)) == (
                session,
                Seq::<WsOutputView>::empty(),
            )
        },
        client_asked(session, WsClientMessageView::Ping) == (session, Seq::<WsOutputView>::empty()),
        ({
            let (after, outputs) = client_asked(session, WsClientMessageView::RequestLogs(args));
            let tail = if args.len() > 0 {
                args[0]
            } else {
                "10"@
            };
            &&& after == session
            &&& outputs.len() == 1
            &&& session.last_start_since matches Some(since) ==> outputs[0]
                == (WsOutputView::SendLogs { tail, since })
            &&& session.last_start_since is None ==> outputs[0] == (WsOutputView::AskLogs { tail })
        }),
{
}

/// The names of the actions are their words, and nothing else names one.
pub proof fn law_named_actions(name: Seq<char>, action: PowerAction)
    ensures
        named_action(name) == Some(action) <==> name == action.text(),
        named_action(name) is None <==> (name != "start"@ && name != "stop"@ && name != "restart"@
            && name != "kill"@),
{
    reveal_strlit("start");
    reveal_strlit("restart");
    reveal_strlit("stop");
    reveal_strlit("kill");
    assert("start"@.len() == 5);
    assert("restart"@.len() == 7);
    assert("stop"@.len() == 4);
    assert("kill"@.len() == 4);
    assert("stop"@[0] != "kill"@[0]);
}

/// A look tells the state where it is another than the last one told, and what is being done
/// where that changed and there is something to say; it remembers both, and nothing else changes.
pub proof fn law_look_tells_changes(
    session: WebSocketHandlerView,
    state: ContainerStateView,
    actual: Seq<char>,
)
    ensures
        ({
            let (after, outputs) = looked(session, state, actual);
            let new_state = actual != session.last_sm_state;
            let detail = if state.operation_message is Some {
                state.operation_message
            } else {
                state.lock_reason
            };
            let changed = state.lock_reason != session.last_lock_reason || state.operation
                != session.last_operation || state.operation_id != session.last_operation_id
                || state.operation_message != session.last_operation_message;
            let text = if state.operation is Some {
                state.operation->0 + " - "@ + detail->0
            } else {
                detail->0
            };
            &&& after.last_sm_state == actual
            &&& new_state ==> after.current_state == actual
            &&& !new_state ==> after.current_state == session.current_state
            &&& after.last_lock_reason == state.lock_reason
            &&& after.last_operation == state.operation
            &&& after.last_operation_id == state.operation_id
            &&& after.last_operation_message == state.operation_message
            &&& after.running == session.running
            &&& after.streaming == session.streaming
            &&& after.mode == session.mode
            &&& outputs.len() == (if new_state {
                1int
            } else {
                0
            }) + (if changed && detail is Some {
                1int
            } else {
                0
            })
            &&& new_state ==> outputs[0] == WsOutputView::Send(status_message(actual))
            &&& changed && detail is Some ==> outputs.last() == WsOutputView::Send(
                daemon_message(text),
            )
        }),
{
}

/// A ping is due once thirty seconds have gone by since the last, and the count begins anew; till
/// then the time adds up.
pub proof fn law_pings(session: WebSocketHandlerView, elapsed_ms: u64)
    ensures
        session.since_ping_ms + elapsed_ms >= 30000 ==> ticked(session, elapsed_ms) == (
            WebSocketHandlerView { since_ping_ms: 0, ..session },
            seq![WsOutputView::Ping],
        ),
        session.since_ping_ms + elapsed_ms < 30000 ==> {
            let (after, outputs) = ticked(session, elapsed_ms);
            &&& outputs.len() == 0
            &&& after.since_ping_ms == session.since_ping_ms + elapsed_ms
            &&& (WebSocketHandlerView { since_ping_ms: session.since_ping_ms, ..after }) == session
        },
{
}

/// A connection that closes ends everything that it follows.
pub proof fn law_closed_connection()
    ensures
        closing_outputs().contains(WsOutputView::StopLogs),
        closing_outputs().contains(WsOutputView::StopStats),
        closing_outputs().contains(WsOutputView::StopEvents),
        closing_outputs().contains(WsOutputView::Unsubscribe),
{
    assert(closing_outputs()[0] == WsOutputView::StopLogs);
    assert(closing_outputs()[1] == WsOutputView::StopStats);
    assert(closing_outputs()[2] == WsOutputView::StopEvents);
    assert(closing_outputs()[3] == WsOutputView::Unsubscribe);
}

/// A power action is told when it begins and when it is over, by its name, and whether it went
/// well.
pub proof fn law_power_is_told(action: Seq<char>, message: Seq<char>)
    ensures
        power_told(action) == WsOutputView::Send(
            daemon_message("Power action started: "@ + action),
        ),
        power_over(action, true, message) == WsOutputView::Send(
            daemon_message("Power action "@ + action + ": completed - "@ + message),
        ),
        power_over(action, false, message) == WsOutputView::Send(
            daemon_message("Power action "@ + action + ": failed - "@ + message),
        ),
{
}

} // verus!
