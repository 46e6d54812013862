//! Starting, stopping, killing and restarting containers.
//!
//! - Start: the engine starts the container, the log is watched for the text that tells that
//!   the server runs, and then it counts as running.
//! - Stop: the stop command is written to the server, and its end is awaited for as long as it
//!   takes.
//! - Kill: the engine sends a signal. It is the only way to force a stop.
//! - Restart: stop, then start.

use super::exit_wait::EngineState;
use crate::duplicate::Duplicate;
use crate::outside::{lossy_text, regex_is_match, regex_match, utf8_lossy};
use crate::table::Table;
use crate::text::{
    cat3, chars_of, contains_text, has_part, is_empty_text, law_parts, same_text, trim, trim_of,
};
use vstd::prelude::*;

verus! {

/// What can be done to the power of a container.
#[derive(Debug, Clone, Copy, PartialEq, Eq, Structural)]
pub enum PowerAction {
    Start,
    Stop,
    Kill,
    Restart,
}

impl DeepView for PowerAction {
    type V = PowerAction;

    open spec fn deep_view(&self) -> PowerAction {
        *self
    }
}

impl Duplicate for PowerAction {
    fn duplicate(&self) -> (r: Self) {
        *self
    }
}

impl PowerAction {
    /// The name of the action.
    pub open spec fn text(self) -> Seq<char> {
        match self {
            PowerAction::Start => "start"@,
            PowerAction::Stop => "stop"@,
            PowerAction::Kill => "kill"@,
            PowerAction::Restart => "restart"@,
        }
    }

    /// The name of the action.
    pub fn to_string(self) -> (r: String)
        ensures
            r@ == self.text(),
    {
        match self {
            PowerAction::Start => "start".to_string(),
            PowerAction::Stop => "stop".to_string(),
            PowerAction::Kill => "kill".to_string(),
            PowerAction::Restart => "restart".to_string(),
        }
    }
}

/// How the server in a container announces that it runs, and how it is asked to stop.
#[derive(Debug, Clone)]
pub struct ContainerRuntime {
    /// A regular expression, or a text, that its log holds once it runs.
    pub start_up: String,
    /// The command that asks it to stop.
    pub stop: String,
}

/// What a [`ContainerRuntime`] holds.
#[verifier::ext_equal]
pub struct ContainerRuntimeView {
    pub start_up: Seq<char>,
    pub stop: Seq<char>,
}

impl DeepView for ContainerRuntime {
    type V = ContainerRuntimeView;

    open spec fn deep_view(&self) -> ContainerRuntimeView {
        ContainerRuntimeView {
            start_up: self.start_up@,
            stop: self.stop@,
        }
    }
}

impl Duplicate for ContainerRuntime {
    fn duplicate(&self) -> (r: Self) {
        ContainerRuntime {
            start_up: self.start_up.duplicate(),
            stop: self.stop.duplicate(),
        }
    }
}

impl Default for ContainerRuntime {
    fn default() -> (r: Self)
        ensures
            r.start_up@.len() == 0,
            r.stop@.len() == 0,
    {
        ContainerRuntime { start_up: String::new(), stop: String::new() }
    }
}

/// The actions that are under way, and what is known of the servers, for each container of the
/// engine.
#[derive(Debug, Clone)]
pub struct ActionTracker {
    pub actions: Table<PowerAction>,
    pub runtimes: Table<ContainerRuntime>,
}

/// What an [`ActionTracker`] holds.
#[verifier::ext_equal]
pub struct ActionTrackerView {
    pub actions: Map<Seq<char>, PowerAction>,
    pub runtimes: Map<Seq<char>, ContainerRuntimeView>,
}

impl View for ActionTracker {
    type V = ActionTrackerView;

    open spec fn view(&self) -> ActionTrackerView {
        ActionTrackerView { actions: self.actions@, runtimes: self.runtimes@ }
    }
}

impl ActionTrackerView {
    /// The action that is under way for a container.
    pub open spec fn current(self, id: Seq<char>) -> Option<PowerAction> {
        if self.actions.contains_key(id) {
            Some(self.actions[id])
        } else {
            None
        }
    }

    /// What is known of the server in a container.
    pub open spec fn runtime(self, id: Seq<char>) -> Option<ContainerRuntimeView> {
        if self.runtimes.contains_key(id) {
            Some(self.runtimes[id])
        } else {
            None
        }
    }

    /// Whether an action may begin: none is under way, or it is a kill, which may begin at any
    /// time.
    pub open spec fn allows(self, id: Seq<char>, action: PowerAction) -> bool {
        self.current(id) is None || action == PowerAction::Kill
    }

    /// With an action under way, where it may begin.
    pub open spec fn begun(self, id: Seq<char>, action: PowerAction) -> ActionTrackerView {
        if self.allows(id, action) {
            ActionTrackerView { actions: self.actions.insert(id, action), ..self }
        } else {
            self
        }
    }

    /// Without an action under way for a container.
    pub open spec fn finished(self, id: Seq<char>) -> ActionTrackerView {
        ActionTrackerView { actions: self.actions.remove(id), ..self }
    }
}

impl ActionTracker {
    /// A tracker that knows of nothing.
    pub fn new() -> (r: Self)
        ensures
            r@ == (ActionTrackerView { actions: Map::empty(), runtimes: Map::empty() }),
    {
        ActionTracker { actions: Table::new(), runtimes: Table::new() }
    }

    /// Begins an action where it may begin, and says whether it did.
    pub fn try_start(&mut self, container_id: &str, action: PowerAction) -> (r: bool)
        ensures
            r == old(self)@.allows(container_id@, action),
            final(self)@ == old(self)@.begun(container_id@, action),
    {
        if self.actions.contains_key(container_id) {
            if action == PowerAction::Kill {
                self.actions.insert(container_id.to_string(), action);
                true
            } else {
                false
            }
        } else {
            self.actions.insert(container_id.to_string(), action);
            true
        }
    }

    /// Ends the action of a container.
    pub fn finish(&mut self, container_id: &str)
        ensures
            final(self)@ == old(self)@.finished(container_id@),
    {
        self.actions.remove(container_id);
    }

    /// The action that is under way for a container.
    pub fn current_action(&self, container_id: &str) -> (r: Option<PowerAction>)
        ensures
            r == self@.current(container_id@),
    {
        match self.actions.get(container_id) {
            Some(action) => Some(*action),
            None => None,
        }
    }

    /// Keeps what is known of the server in a container.
    pub fn set_runtime(&mut self, container_id: &str, runtime: ContainerRuntime)
        ensures
            final(self)@ == (ActionTrackerView {
                runtimes: old(self)@.runtimes.insert(container_id@, runtime.deep_view()),
                ..old(self)@
            }),
    {
        self.runtimes.insert(container_id.to_string(), runtime);
    }

    /// What is known of the server in a container.
    pub fn get_runtime(&self, container_id: &str) -> (r: Option<ContainerRuntime>)
        ensures
            r.deep_view() == self@.runtime(container_id@),
    {
        match self.runtimes.get(container_id) {
            Some(runtime) => Some(runtime.duplicate()),
            None => None,
        }
    }
}

/// What is told to the listeners of a container, or done, during an action.
#[derive(Debug, Clone)]
pub enum Signal {
    /// The action begins.
    Started(PowerAction),
    /// The container is in another state; the panel is told too.
    State(String),
    /// A line for whoever looks on.
    Message(String),
    /// The action is over.
    Completed { action: PowerAction, success: bool, message: String },
    /// Waits that many milliseconds.
    Pause(u64),
    /// The container is free for other actions.
    Finish,
}

/// What a [`Signal`] holds.
#[verifier::ext_equal]
pub enum SignalView {
    Started(PowerAction),
    State(Seq<char>),
    Message(Seq<char>),
    Completed { action: PowerAction, success: bool, message: Seq<char> },
    Pause(u64),
    Finish,
}

impl DeepView for Signal {
    type V = SignalView;

    open spec fn deep_view(&self) -> SignalView {
        match self {
            Signal::Started(a) => SignalView::Started(*a),
            Signal::State(a) => SignalView::State(a@),
            Signal::Message(a) => SignalView::Message(a@),
            Signal::Completed { action, success, message } => SignalView::Completed {
                action: *action,
                success: *success,
                message: message@,
            },
            Signal::Pause(a) => SignalView::Pause(*a),
            Signal::Finish => SignalView::Finish,
        }
    }
}

/// What came of a call of the engine that may take too long.
#[derive(Debug, Clone)]
pub enum CallReply {
    Done,
    Failed(String),
    TimedOut,
}

/// Why a start is a failure; `None` where the container runs. One that ran already does.
pub open spec fn start_failure(reply: CallReply) -> Option<Seq<char>> {
    match reply {
        CallReply::Done => None,
        CallReply::Failed(e) => if has_part(e@, "already started"@) || has_part(
            e@,
            "is already running"@,
        ) {
            None
        } else {
            Some(e@)
        },
        CallReply::TimedOut => Some("Timeout starting container"@),
    }
}

/// Why a kill is a failure; `None` where the container does not run. One that did not run, or
/// is not there, does not.
pub open spec fn kill_failure(reply: CallReply) -> Option<Seq<char>> {
    match reply {
        CallReply::Done => None,
        CallReply::Failed(e) => if has_part(e@, "is not running"@) || has_part(
            e@,
            "No such container"@,
        ) {
            None
        } else {
            Some(e@)
        },
        CallReply::TimedOut => Some("Timeout killing container"@),
    }
}

/// The result of a start.
pub fn do_start(reply: &CallReply) -> (r: Result<(), String>)
    ensures
        match r {
            Ok(_) => start_failure(*reply) is None,
            Err(e) => start_failure(*reply) == Some(e@),
        },
{
    match reply {
        CallReply::Done => Ok(()),
        CallReply::Failed(e) => if contains_text(e.as_str(), "already started") || contains_text(
            e.as_str(),
            "is already running",
        ) {
            Ok(())
        } else {
            Err(e.clone())
        },
        CallReply::TimedOut => Err("Timeout starting container".to_string()),
    }
}

/// The result of a kill.
pub fn do_docker_kill(reply: &CallReply) -> (r: Result<(), String>)
    ensures
        match r {
            Ok(_) => kill_failure(*reply) is None,
            Err(e) => kill_failure(*reply) == Some(e@),
        },
{
    match reply {
        CallReply::Done => Ok(()),
        CallReply::Failed(e) => if contains_text(e.as_str(), "is not running") || contains_text(
            e.as_str(),
            "No such container",
        ) {
            Ok(())
        } else {
            Err(e.clone())
        },
        CallReply::TimedOut => Err("Timeout killing container".to_string()),
    }
}

/// The signal that a kill sends.
pub fn kill_signal() -> (r: &'static str)
    ensures
        r@ == "SIGTERM"@,
{
    "SIGTERM"
}

/// Whether a stop command stands for the key that interrupts.
pub open spec fn is_interrupt(command: Seq<char>) -> bool {
    let t = trim_of(command);
    t == "^c"@ || t == "^C"@ || t == "^^c"@ || t == "^^C"@
}

/// What is written to a server so that it stops: the command and a line feed, or the character of
/// the key that interrupts.
pub open spec fn stop_text(command: Seq<char>) -> Seq<char> {
    if is_interrupt(command) {
        seq!['\u{3}']
    } else {
        command.push('\n')
    }
}

/// What is written to a server so that it stops.
pub fn stop_input(command: &str) -> (r: String)
    ensures
        r@ == stop_text(command@),
{
    let trimmed = trim(command);
    let t = trimmed.as_str();
    if same_text(t, "^c") || same_text(t, "^C") || same_text(t, "^^c") || same_text(t, "^^C") {
        let mut r = String::new();
        r.push('\u{3}');
        assert(r@ =~= seq!['\u{3}']);
        r
    } else {
        let mut r = command.to_string();
        r.push('\n');
        r
    }
}

/// Whether a look at a container shows that it does not run: the engine says so, or says that it
/// is not there.
pub open spec fn shows_exit(look: Result<Option<EngineState>, String>) -> bool {
    match look {
        Ok(Some(state)) => state.running != Some(true),
        Ok(None) => false,
        Err(e) => has_part(e@, "No such container"@),
    }
}

/// Whether a look at a container shows that it does not run.
pub fn has_exited(look: &Result<Option<EngineState>, String>) -> (r: bool)
    ensures
        r == shows_exit(*look),
{
    match look {
        Ok(Some(state)) => match state.running {
            Some(running) => !running,
            None => true,
        },
        Ok(None) => false,
        Err(e) => contains_text(e.as_str(), "No such container"),
    }
}

/// Whether `c` is a letter of ASCII.
pub open spec fn is_letter(c: char) -> bool {
    'a' <= c <= 'z' || 'A' <= c <= 'Z'
}

/// What stands behind the first letter of `s`.
pub open spec fn after_letter(s: Seq<char>) -> Seq<char>
    decreases s.len(),
{
    if s.len() == 0 {
        s
    } else if is_letter(s[0]) {
        s.drop_first()
    } else {
        after_letter(s.drop_first())
    }
}

/// No more stands behind the first letter than in all.
pub proof fn lemma_after_letter_shorter(s: Seq<char>)
    ensures
        after_letter(s).len() <= s.len(),
    decreases s.len(),
{
    if s.len() > 0 && !is_letter(s[0]) {
        lemma_after_letter_shorter(s.drop_first());
    }
}

/// `s` without the sequences that control a terminal: each begins with an escape character and a
/// bracket and ends with a letter.
pub open spec fn without_ansi(s: Seq<char>) -> Seq<char>
    decreases s.len(),
{
    if s.len() == 0 {
        s
    } else if s.len() > 1 && s[0] == '\u{1b}' && s[1] == '[' {
        proof {
            lemma_after_letter_shorter(s.skip(2));
        }
        without_ansi(after_letter(s.skip(2)))
    } else {
        seq![s[0]] + without_ansi(s.drop_first())
    }
}

/// The text without the sequences that control a terminal.
pub fn strip_ansi(input: &str) -> (r: String)
    ensures
        r@ == without_ansi(input@),
{
    let v = chars_of(input);
    let mut out = String::new();
    let mut i: usize = 0;
    assert(v@.skip(0) =~= input@);
    assert(out@ + without_ansi(input@) =~= without_ansi(input@));
    while i < v.len()
        invariant
            i <= v.len(),
            v@ == input@,
            out@ + without_ansi(v@.skip(i as int)) == without_ansi(input@),
        decreases v.len() - i,
    {
        let ghost rest = v@.skip(i as int);
        if v[i] == '\u{1b}' && i + 1 < v.len() && v[i + 1] == '[' {
            let mut j: usize = i + 2;
            let mut ended = false;
            assert(rest.skip(2) =~= v@.skip(j as int));
            while j < v.len() && !ended
                invariant
                    i + 2 <= j <= v.len(),
                    ended ==> after_letter(rest.skip(2)) == v@.skip(j as int),
                    !ended ==> after_letter(rest.skip(2)) == after_letter(v@.skip(j as int)),
                decreases v.len() - j,
            {
                let c = v[j];
                assert(v@.skip(j as int).drop_first() =~= v@.skip(j + 1));
                if ('a' <= c && c <= 'z') || ('A' <= c && c <= 'Z') {
                    ended = true;
                }
                j += 1;
            }
            assert(after_letter(rest.skip(2)) =~= v@.skip(j as int));
            i = j;
        } else {
            let ghost before = out@;
            out.push(v[i]);
            proof {
                assert(rest.drop_first() =~= v@.skip(i + 1));
                assert(out@ + without_ansi(v@.skip(i + 1)) =~= before + without_ansi(rest));
            }
            i += 1;
        }
    }
    assert(v@.skip(i as int) =~= Seq::<char>::empty());
    assert(out@ + Seq::<char>::empty() =~= out@);
    out
}

/// Whether a piece of log tells that the server runs. The pattern is a regular expression; one
/// that is none is looked for as it is.
pub open spec fn tells_start(pattern: Seq<char>, cleaned: Seq<char>, found: Option<bool>) -> bool {
    match found {
        Some(found) => found,
        None => has_part(cleaned, pattern),
    }
}

/// Whether a piece of log tells that the server runs, given whether the pattern, as a regular
/// expression, matches it.
pub fn startup_found(pattern: &str, cleaned: &str, found: Option<bool>) -> (r: bool)
    ensures
        r == tells_start(pattern@, cleaned@, found),
{
    match found {
        Some(found) => found,
        None => contains_text(cleaned, pattern),
    }
}

/// Whether a piece of log tells that the server runs.
pub fn is_startup_message(pattern: &str, message: &Vec<u8>) -> (r: bool)
    ensures
        r == tells_start(
            pattern@,
            without_ansi(lossy_text(message@)),
            regex_match(pattern@, without_ansi(lossy_text(message@))),
        ),
{
    let text = utf8_lossy(message.as_slice());
    let cleaned = strip_ansi(text.as_str());
    let found = regex_is_match(pattern, cleaned.as_str());
    startup_found(pattern, cleaned.as_str(), found)
}

/// What the watch of a log comes upon.
#[derive(Debug, Clone)]
pub enum LogEvent {
    /// The time is over.
    Deadline,
    Message(Vec<u8>),
    Failed,
    Ended,
}

/// How long the engine may take to start a container, in seconds.
pub const START_TIMEOUT_SECS: u64 = 30;

/// How long the engine may take for each call of a kill, in seconds.
pub const KILL_TIMEOUT_SECS: u64 = 5;

/// The pause before each look whether a container has exited, in milliseconds.
pub const EXIT_PAUSE_MS: u64 = 1000;

/// How long a log is watched for a start, in seconds.
pub const STARTUP_TIMEOUT_SECS: u64 = 300;

/// Whether what came of a log ends the watch, and if so whether a start was seen.
pub open spec fn watch_end(pattern: Seq<char>, event: LogEvent) -> Option<bool> {
    match event {
        LogEvent::Message(message) => {
            let cleaned = without_ansi(lossy_text(message@));
            if tells_start(pattern, cleaned, regex_match(pattern, cleaned)) {
                Some(true)
            } else {
                None
            }
        },
        _ => Some(false),
    }
}

/// Whether the watch of a log is over, and if so whether a start was seen.
pub fn wait_for_startup_log(pattern: &str, event: &LogEvent) -> (r: Option<bool>)
    ensures
        r == watch_end(pattern@, *event),
{
    match event {
        LogEvent::Message(message) => if is_startup_message(pattern, message) {
            Some(true)
        } else {
            None
        },
        _ => Some(false),
    }
}

/// An action that is about to start a container.
#[derive(Debug, Clone)]
pub struct StartJob {
    /// The whole action, of which the start may be a part.
    pub action: PowerAction,
    pub container_id: String,
    pub uuid: String,
    pub runtime: Option<ContainerRuntime>,
}

/// What a [`StartJob`] holds.
#[verifier::ext_equal]
pub struct StartJobView {
    pub action: PowerAction,
    pub container_id: Seq<char>,
    pub uuid: Seq<char>,
    pub runtime: Option<ContainerRuntimeView>,
}

impl DeepView for StartJob {
    type V = StartJobView;

    open spec fn deep_view(&self) -> StartJobView {
        StartJobView {
            action: self.action,
            container_id: self.container_id@,
            uuid: self.uuid@,
            runtime: self.runtime.deep_view(),
        }
    }
}

/// An action that is about to stop a container.
#[derive(Debug, Clone)]
pub struct StopJob {
    /// The whole action, of which the stop may be a part.
    pub action: PowerAction,
    pub container_id: String,
    pub uuid: String,
    pub runtime: Option<ContainerRuntime>,
}

/// What a [`StopJob`] holds.
#[verifier::ext_equal]
pub struct StopJobView {
    pub action: PowerAction,
    pub container_id: Seq<char>,
    pub uuid: Seq<char>,
    pub runtime: Option<ContainerRuntimeView>,
}

impl DeepView for StopJob {
    type V = StopJobView;

    open spec fn deep_view(&self) -> StopJobView {
        StopJobView {
            action: self.action,
            container_id: self.container_id@,
            uuid: self.uuid@,
            runtime: self.runtime.deep_view(),
        }
    }
}

/// An action that is about to kill a container.
#[derive(Debug, Clone)]
pub struct KillJob {
    pub container_id: String,
    pub uuid: String,
}

/// What a [`KillJob`] holds.
#[verifier::ext_equal]
pub struct KillJobView {
    pub container_id: Seq<char>,
    pub uuid: Seq<char>,
}

impl DeepView for KillJob {
    type V = KillJobView;

    open spec fn deep_view(&self) -> KillJobView {
        KillJobView {
            container_id: self.container_id@,
            uuid: self.uuid@,
        }
    }
}

/// What follows the start of a container.
#[derive(Debug)]
pub enum AfterStart {
    /// The log is watched for the pattern, and then these signals follow, whatever it showed.
    Watch(String, Vec<Signal>),
    /// These signals follow at once.
    Done(Vec<Signal>),
}

/// What an [`AfterStart`] holds.
#[verifier::ext_equal]
pub enum AfterStartView {
    Watch(Seq<char>, Seq<SignalView>),
    Done(Seq<SignalView>),
}

impl DeepView for AfterStart {
    type V = AfterStartView;

    open spec fn deep_view(&self) -> AfterStartView {
        match self {
            AfterStart::Watch(pattern, signals) => AfterStartView::Watch(
                pattern@,
                signals.deep_view(),
            ),
            AfterStart::Done(signals) => AfterStartView::Done(signals.deep_view()),
        }
    }
}

/// The signals with which an action begins.
pub open spec fn opening(action: PowerAction) -> Seq<SignalView> {
    match action {
        PowerAction::Start => seq![
            SignalView::Started(action),
            SignalView::State("starting"@),
        ],
        PowerAction::Restart => seq![
            SignalView::Started(action),
            SignalView::State("stopping"@),
            SignalView::Message("Stopping container..."@),
        ],
        _ => seq![SignalView::Started(action), SignalView::State("stopping"@)],
    }
}

/// What is said of an action that succeeded.
pub open spec fn past(action: PowerAction) -> Seq<char> {
    match action {
        PowerAction::Start => "started"@,
        PowerAction::Stop => "stopped"@,
        PowerAction::Kill => "killed"@,
        PowerAction::Restart => "restarted"@,
    }
}

/// The signals with which an action ends, given the state in which it leaves the container and
/// why it failed, if it did.
pub open spec fn closing(
    action: PowerAction,
    state: Seq<char>,
    failure: Option<Seq<char>>,
) -> Seq<SignalView> {
    seq![
        SignalView::State(state),
        SignalView::Completed {
            action,
            success: failure is None,
            message: match failure {
                Some(e) => e,
                None => past(action),
            },
        },
        SignalView::Finish,
    ]
}

/// The signals between the stop and the start of a restart.
pub open spec fn turning() -> Seq<SignalView> {
    seq![
        SignalView::State("stopped"@),
        SignalView::Pause(500),
        SignalView::State("starting"@),
        SignalView::Message("Starting container..."@),
    ]
}

/// What follows the start of a container: where the start succeeded and there is a pattern, the
/// log is watched first.
pub open spec fn after_start(job: StartJobView, reply: CallReply) -> AfterStartView {
    match start_failure(reply) {
        Some(e) => AfterStartView::Done(closing(job.action, "stopped"@, Some(e))),
        None => {
            let signals = closing(job.action, "running"@, None);
            match job.runtime {
                Some(runtime) if runtime.start_up.len() > 0 => AfterStartView::Watch(
                    runtime.start_up,
                    signals,
                ),
                _ => AfterStartView::Done(signals),
            }
        },
    }
}

/// What is written to a server so that it stops, where that is known; its end is awaited anyway.
pub open spec fn stop_request(runtime: Option<ContainerRuntimeView>) -> Option<Seq<char>> {
    match runtime {
        Some(runtime) if runtime.stop.len() > 0 => Some(stop_text(runtime.stop)),
        _ => None,
    }
}

/// What follows once a container does not run any more: a stop is over, and a restart goes on
/// with a start.
pub open spec fn after_exit(job: StopJobView) -> (Seq<SignalView>, Option<StartJobView>) {
    if job.action == PowerAction::Restart {
        (
            turning(),
            Some(
                StartJobView {
                    action: job.action,
                    container_id: job.container_id,
                    uuid: job.uuid,
                    runtime: job.runtime,
                },
            ),
        )
    } else {
        (closing(job.action, "stopped"@, None), None)
    }
}

/// The start of a container, as part of an action.
pub open spec fn start_job(
    tracker: ActionTrackerView,
    action: PowerAction,
    container_id: Seq<char>,
    uuid: Seq<char>,
) -> StartJobView {
    StartJobView { action, container_id, uuid, runtime: tracker.runtime(container_id) }
}

/// The stop of a container, as part of an action.
pub open spec fn stop_job(
    tracker: ActionTrackerView,
    action: PowerAction,
    container_id: Seq<char>,
    uuid: Seq<char>,
) -> StopJobView {
    StopJobView { action, container_id, uuid, runtime: tracker.runtime(container_id) }
}

fn open(action: PowerAction) -> (r: Vec<Signal>)
    ensures
        r.deep_view() == opening(action),
{
    let mut r: Vec<Signal> = Vec::new();
    r.push(Signal::Started(action));
    match action {
        PowerAction::Start => {
            r.push(Signal::State("starting".to_string()));
        },
        PowerAction::Restart => {
            r.push(Signal::State("stopping".to_string()));
            r.push(Signal::Message("Stopping container...".to_string()));
        },
        _ => {
            r.push(Signal::State("stopping".to_string()));
        },
    }
    assert(r.deep_view() =~= opening(action));
    r
}

fn close(action: PowerAction, state: &str, result: Result<(), String>) -> (r: Vec<Signal>)
    ensures
        r.deep_view() == closing(
            action,
            state@,
            match result {
                Ok(_) => None,
                Err(e) => Some(e@),
            },
        ),
{
    let success = result.is_ok();
    let message = match result {
        Ok(_) => match action {
            PowerAction::Start => "started".to_string(),
            PowerAction::Stop => "stopped".to_string(),
            PowerAction::Kill => "killed".to_string(),
            PowerAction::Restart => "restarted".to_string(),
        },
        Err(e) => e,
    };
    let mut r: Vec<Signal> = Vec::new();
    r.push(Signal::State(state.to_string()));
    r.push(Signal::Completed { action, success, message });
    r.push(Signal::Finish);
    assert(r.deep_view() =~= closing(
        action,
        state@,
        match result {
            Ok(_) => None,
            Err(e) => Some(e@),
        },
    ));
    r
}

impl StartJob {
    /// Takes what came of the start.
    pub fn started(self, reply: &CallReply) -> (r: AfterStart)
        ensures
            r.deep_view() == after_start(self.deep_view(), *reply),
    {
        match do_start(reply) {
            Err(e) => AfterStart::Done(close(self.action, "stopped", Err(e))),
            Ok(_) => {
                let signals = close(self.action, "running", Ok(()));
                match self.runtime {
                    Some(runtime) => if is_empty_text(runtime.start_up.as_str()) {
                        AfterStart::Done(signals)
                    } else {
                        AfterStart::Watch(runtime.start_up, signals)
                    },
                    None => AfterStart::Done(signals),
                }
            },
        }
    }
}

impl StopJob {
    /// What is written to the server so that it stops.
    pub fn input(&self) -> (r: Option<String>)
        ensures
            r.deep_view() == stop_request(self.runtime.deep_view()),
    {
        match &self.runtime {
            Some(runtime) => if is_empty_text(runtime.stop.as_str()) {
                None
            } else {
                Some(stop_input(runtime.stop.as_str()))
            },
            None => None,
        }
    }

    /// Takes that the container does not run any more: a stop is over, and a restart goes on
    /// with a start.
    pub fn exited(self) -> (r: (Vec<Signal>, Option<StartJob>))
        ensures
            (r.0.deep_view(), r.1.deep_view()) == after_exit(self.deep_view()),
    {
        if self.action == PowerAction::Restart {
            let mut signals: Vec<Signal> = Vec::new();
            signals.push(Signal::State("stopped".to_string()));
            signals.push(Signal::Pause(500));
            signals.push(Signal::State("starting".to_string()));
            signals.push(Signal::Message("Starting container...".to_string()));
            assert(signals.deep_view() =~= turning());
            let job = StartJob {
                action: self.action,
                container_id: self.container_id,
                uuid: self.uuid,
                runtime: self.runtime,
            };
            (signals, Some(job))
        } else {
            (close(self.action, "stopped", Ok(())), None)
        }
    }
}

/// A call of the engine.
#[derive(Debug, Clone)]
pub enum EngineCall {
    /// Stops a container.
    Stop(String),
    /// Sends a signal to a container.
    Signal { container_id: String, signal: String },
}

/// What an [`EngineCall`] holds.
#[verifier::ext_equal]
pub enum EngineCallView {
    Stop(Seq<char>),
    Signal { container_id: Seq<char>, signal: Seq<char> },
}

impl DeepView for EngineCall {
    type V = EngineCallView;

    open spec fn deep_view(&self) -> EngineCallView {
        match self {
            EngineCall::Stop(a) => EngineCallView::Stop(a@),
            EngineCall::Signal { container_id, signal } => EngineCallView::Signal {
                container_id: container_id@,
                signal: signal@,
            },
        }
    }
}

/// The calls of the engine that a kill makes, in order.
pub open spec fn kill_calls(container_id: Seq<char>) -> Seq<EngineCallView> {
    seq![
        EngineCallView::Stop(container_id),
        EngineCallView::Signal { container_id, signal: "SIGTERM"@ },
    ]
}

impl KillJob {
    /// The calls of the engine that are due, in order. What comes of the last one counts.
    pub fn calls(&self) -> (r: Vec<EngineCall>)
        ensures
            r.deep_view() == kill_calls(self.container_id@),
    {
        let mut r: Vec<EngineCall> = Vec::new();
        r.push(EngineCall::Stop(self.container_id.clone()));
        r.push(
            EngineCall::Signal {
                container_id: self.container_id.clone(),
                signal: kill_signal().to_string(),
            },
        );
        assert(r.deep_view() =~= kill_calls(self.container_id@));
        r
    }

    /// Takes what came of the kill. The container counts as stopped either way.
    pub fn killed(self, reply: &CallReply) -> (r: Vec<Signal>)
        ensures
            r.deep_view() == closing(PowerAction::Kill, "stopped"@, kill_failure(*reply)),
    {
        close(PowerAction::Kill, "stopped", do_docker_kill(reply))
    }
}

/// What is said where an action may not begin.
pub open spec fn busy(id: Seq<char>) -> Seq<char> {
    "Container "@ + id + " already has an action in progress"@
}

/// Begins actions, and remembers those that are under way.
#[derive(Debug, Clone)]
pub struct AsyncPowerManager {
    pub tracker: ActionTracker,
}

impl AsyncPowerManager {
    /// A manager without actions under way.
    pub fn new() -> (r: Self)
        ensures
            r.tracker@ == (ActionTrackerView { actions: Map::empty(), runtimes: Map::empty() }),
    {
        AsyncPowerManager { tracker: ActionTracker::new() }
    }

    /// Keeps how the server in a container starts and stops.
    pub fn set_runtime(&mut self, container_id: &str, start_up: &str, stop: &str)
        ensures
            final(self).tracker@ == (ActionTrackerView {
                runtimes: old(self).tracker@.runtimes.insert(
                    container_id@,
                    ContainerRuntimeView { start_up: start_up@, stop: stop@ },
                ),
                ..old(self).tracker@
            }),
    {
        let runtime = ContainerRuntime { start_up: start_up.to_string(), stop: stop.to_string() };
        self.tracker.set_runtime(container_id, runtime);
    }

    /// The name of the action that is under way for a container.
    pub fn has_pending_action(&self, container_id: &str) -> (r: Option<String>)
        ensures
            match self.tracker@.current(container_id@) {
                Some(action) => r matches Some(text) && text@ == action.text(),
                None => r is None,
            },
    {
        match self.tracker.current_action(container_id) {
            Some(action) => Some(action.to_string()),
            None => None,
        }
    }

    /// Ends the action of a container.
    pub fn finish(&mut self, container_id: &str)
        ensures
            final(self).tracker@ == old(self).tracker@.finished(container_id@),
    {
        self.tracker.finish(container_id);
    }

    fn begin(&mut self, container_id: &str, action: PowerAction) -> (r: Result<Vec<Signal>, String>)
        ensures
            final(self).tracker@ == old(self).tracker@.begun(container_id@, action),
            match r {
                Ok(signals) => old(self).tracker@.allows(container_id@, action)
                    && signals.deep_view() == opening(action),
                Err(e) => !old(self).tracker@.allows(container_id@, action) && e@ == busy(
                    container_id@,
                ),
            },
    {
        if !self.tracker.try_start(container_id, action) {
            return Err(cat3("Container ", container_id, " already has an action in progress"));
        }
        Ok(open(action))
    }

    /// Begins the start of a container, unless an action is under way.
    pub fn start(&mut self, container_id: String, uuid: String) -> (r: Result<
        (Vec<Signal>, StartJob),
        String,
    >)
        ensures
            final(self).tracker@ == old(self).tracker@.begun(container_id@, PowerAction::Start),
            match r {
                Ok((signals, job)) => {
                    &&& old(self).tracker@.allows(container_id@, PowerAction::Start)
                    &&& signals.deep_view() == opening(PowerAction::Start)
                    &&& job.deep_view() == start_job(
                        old(self).tracker@,
                        PowerAction::Start,
                        container_id@,
                        uuid@,
                    )
                },
                Err(e) => !old(self).tracker@.allows(container_id@, PowerAction::Start) && e@
                    == busy(container_id@),
            },
    {
        let signals = match self.begin(container_id.as_str(), PowerAction::Start) {
            Ok(signals) => signals,
            Err(e) => {
                return Err(e);
            },
        };
        let runtime = self.tracker.get_runtime(container_id.as_str());
        Ok((signals, StartJob { action: PowerAction::Start, container_id, uuid, runtime }))
    }

    /// Begins the stop of a container, unless an action is under way.
    pub fn stop(&mut self, container_id: String, uuid: String) -> (r: Result<
        (Vec<Signal>, StopJob),
        String,
    >)
        ensures
            final(self).tracker@ == old(self).tracker@.begun(container_id@, PowerAction::Stop),
            match r {
                Ok((signals, job)) => {
                    &&& old(self).tracker@.allows(container_id@, PowerAction::Stop)
                    &&& signals.deep_view() == opening(PowerAction::Stop)
                    &&& job.deep_view() == stop_job(
                        old(self).tracker@,
                        PowerAction::Stop,
                        container_id@,
                        uuid@,
                    )
                },
                Err(e) => !old(self).tracker@.allows(container_id@, PowerAction::Stop) && e@ == busy(
                    container_id@,
                ),
            },
    {
        let signals = match self.begin(container_id.as_str(), PowerAction::Stop) {
            Ok(signals) => signals,
            Err(e) => {
                return Err(e);
            },
        };
        let runtime = self.tracker.get_runtime(container_id.as_str());
        Ok((signals, StopJob { action: PowerAction::Stop, container_id, uuid, runtime }))
    }

    /// Begins the kill of a container. It may begin at any time.
    pub fn kill(&mut self, container_id: String, uuid: String) -> (r: Result<
        (Vec<Signal>, KillJob),
        String,
    >)
        ensures
            final(self).tracker@ == old(self).tracker@.begun(container_id@, PowerAction::Kill),
            r matches Ok((signals, job)) && signals.deep_view() == opening(PowerAction::Kill)
                && job.deep_view() == (KillJobView {
                container_id: container_id@,
                uuid: uuid@,
            }),
    {
        let signals = match self.begin(container_id.as_str(), PowerAction::Kill) {
            Ok(signals) => signals,
            Err(e) => {
                return Err(e);
            },
        };
        Ok((signals, KillJob { container_id, uuid }))
    }

    /// Begins the restart of a container, unless an action is under way.
    pub fn restart(&mut self, container_id: String, uuid: String) -> (r: Result<
        (Vec<Signal>, StopJob),
        String,
    >)
        ensures
            final(self).tracker@ == old(self).tracker@.begun(container_id@, PowerAction::Restart),
            match r {
                Ok((signals, job)) => {
                    &&& old(self).tracker@.allows(container_id@, PowerAction::Restart)
                    &&& signals.deep_view() == opening(PowerAction::Restart)
                    &&& job.deep_view() == stop_job(
                        old(self).tracker@,
                        PowerAction::Restart,
                        container_id@,
                        uuid@,
                    )
                },
                Err(e) => !old(self).tracker@.allows(container_id@, PowerAction::Restart) && e@
                    == busy(container_id@),
            },
    {
        let signals = match self.begin(container_id.as_str(), PowerAction::Restart) {
            Ok(signals) => signals,
            Err(e) => {
                return Err(e);
            },
        };
        let runtime = self.tracker.get_runtime(container_id.as_str());
        Ok((signals, StopJob { action: PowerAction::Restart, container_id, uuid, runtime }))
    }
}

/// While an action is under way no other one may begin but a kill; once it is finished, every one
/// may.
pub proof fn law_one_action_at_a_time(
    tracker: ActionTrackerView,
    id: Seq<char>,
    first: PowerAction,
    second: PowerAction,
)
    ensures
        tracker.allows(id, first) ==> {
            &&& tracker.begun(id, first).current(id) == Some(first)
            &&& tracker.begun(id, first).allows(id, second) == (second == PowerAction::Kill)
        },
        tracker.finished(id).allows(id, second),
        tracker.finished(id).current(id) is None,
{
}

/// What happens to one container changes nothing for another, and no action changes what is known
/// of a server.
pub proof fn law_containers_are_independent(
    tracker: ActionTrackerView,
    id: Seq<char>,
    other: Seq<char>,
    action: PowerAction,
)
    requires
        other != id,
    ensures
        tracker.begun(id, action).current(other) == tracker.current(other),
        tracker.finished(id).current(other) == tracker.current(other),
        tracker.begun(id, action).runtimes == tracker.runtimes,
        tracker.finished(id).runtimes == tracker.runtimes,
{
}

/// However an action ends, the container is free for other actions at last.
pub proof fn law_actions_finish(job: StartJobView, reply: CallReply, state: Seq<char>)
    ensures
        match after_start(job, reply) {
            AfterStartView::Watch(_, signals) => signals.last() == SignalView::Finish,
            AfterStartView::Done(signals) => signals.last() == SignalView::Finish,
        },
        closing(PowerAction::Stop, state, None).last() == SignalView::Finish,
        closing(PowerAction::Kill, state, kill_failure(reply)).last() == SignalView::Finish,
{
}

/// The states that signals tell, in order. The panel is told them all.
pub open spec fn states_told(signals: Seq<SignalView>) -> Seq<Seq<char>>
    decreases signals.len(),
{
    if signals.len() == 0 {
        Seq::empty()
    } else {
        match signals.last() {
            SignalView::State(state) => states_told(signals.drop_last()).push(state),
            _ => states_told(signals.drop_last()),
        }
    }
}

proof fn lemma_states_told_in_turn(first: Seq<SignalView>, second: Seq<SignalView>)
    ensures
        states_told(first + second) == states_told(first) + states_told(second),
    decreases second.len(),
{
    if second.len() == 0 {
        assert(first + second =~= first);
        assert(states_told(first) + states_told(second) =~= states_told(first));
    } else {
        lemma_states_told_in_turn(first, second.drop_last());
        assert((first + second).drop_last() =~= first + second.drop_last());
    }
}

proof fn lemma_states_told_at_the_ends(action: PowerAction, state: Seq<char>, e: Option<Seq<char>>)
    ensures
        states_told(opening(action)) == if action == PowerAction::Start {
            seq!["starting"@]
        } else {
            seq!["stopping"@]
        },
        states_told(turning()) == seq!["stopped"@, "starting"@],
        states_told(closing(action, state, e)) == seq![state],
{
    reveal_with_fuel(states_told, 5);
    let end = closing(action, state, e);
    assert(end.drop_last().drop_last() =~= seq![SignalView::State(state)]);
    assert(seq![SignalView::State(state)].drop_last() =~= Seq::<SignalView>::empty());
    assert(states_told(end) =~= seq![state]);
    let turn = turning();
    assert(turn.drop_last().last() == SignalView::State("starting"@));
    assert(turn.drop_last().drop_last().drop_last() =~= seq![SignalView::State("stopped"@)]);
    assert(seq![SignalView::State("stopped"@)].drop_last() =~= Seq::<SignalView>::empty());
    assert(states_told(turn) =~= seq!["stopped"@, "starting"@]);
    let begin = opening(action);
    let first = if action == PowerAction::Start {
        "starting"@
    } else {
        "stopping"@
    };
    assert(begin.take(1).drop_last() =~= Seq::<SignalView>::empty());
    assert(states_told(begin.take(1)) =~= Seq::<Seq<char>>::empty());
    assert(begin.take(2).drop_last() =~= begin.take(1));
    assert(begin.take(2).last() == SignalView::State(first));
    assert(states_told(begin.take(2)) =~= seq![first]);
    if begin.len() == 3 {
        assert(begin.drop_last() =~= begin.take(2));
    } else {
        assert(begin =~= begin.take(2));
    }
}

/// The states that an action tells: a start tells "starting" and then "running", a stop or a
/// kill "stopping" and then "stopped", and a restart the states of a stop and then those of a
/// start. A start that fails tells "stopped" in the end.
pub proof fn law_states_told(job: StartJobView, reply: CallReply, e: Option<Seq<char>>)
    ensures
        ({
            let signals = match after_start(job, reply) {
                AfterStartView::Watch(_, signals) => signals,
                AfterStartView::Done(signals) => signals,
            };
            let last = if start_failure(reply) is None {
                "running"@
            } else {
                "stopped"@
            };
            &&& states_told(opening(PowerAction::Start) + signals) == seq!["starting"@, last]
            &&& states_told(opening(PowerAction::Restart) + turning() + signals) == seq![
                "stopping"@,
                "stopped"@,
                "starting"@,
                last,
            ]
        }),
        states_told(
            opening(PowerAction::Stop) + closing(PowerAction::Stop, "stopped"@, None),
        ) == seq!["stopping"@, "stopped"@],
        states_told(opening(PowerAction::Kill) + closing(PowerAction::Kill, "stopped"@, e))
            == seq!["stopping"@, "stopped"@],
{
    let signals = match after_start(job, reply) {
        AfterStartView::Watch(_, signals) => signals,
        AfterStartView::Done(signals) => signals,
    };
    lemma_states_told_at_the_ends(job.action, "running"@, None);
    lemma_states_told_at_the_ends(job.action, "stopped"@, start_failure(reply));
    lemma_states_told_at_the_ends(PowerAction::Start, "stopped"@, None);
    lemma_states_told_at_the_ends(PowerAction::Restart, "stopped"@, None);
    lemma_states_told_at_the_ends(PowerAction::Stop, "stopped"@, None);
    lemma_states_told_at_the_ends(PowerAction::Kill, "stopped"@, e);
    lemma_states_told_in_turn(opening(PowerAction::Start), signals);
    lemma_states_told_in_turn(opening(PowerAction::Restart), turning());
    lemma_states_told_in_turn(opening(PowerAction::Restart) + turning(), signals);
    lemma_states_told_in_turn(
        opening(PowerAction::Stop),
        closing(PowerAction::Stop, "stopped"@, None),
    );
    lemma_states_told_in_turn(
        opening(PowerAction::Kill),
        closing(PowerAction::Kill, "stopped"@, e),
    );
}

/// A text without escape characters is left as it is.
pub proof fn law_plain_text_is_kept(s: Seq<char>)
    requires
        forall|i: int| 0 <= i < s.len() ==> #[trigger] s[i] != '\u{1b}',
    ensures
        without_ansi(s) == s,
    decreases s.len(),
{
    if s.len() > 0 {
        assert(s[0] != '\u{1b}');
        law_plain_text_is_kept(s.drop_first());
        assert(seq![s[0]] + s.drop_first() =~= s);
    } else {
        assert(without_ansi(s) =~= s);
    }
}

/// Whether the signals tell that `action` is done and went well, and in which words.
pub open spec fn tells_success(
    signals: Seq<SignalView>,
    action: PowerAction,
    message: Seq<char>,
) -> bool {
    signals.contains(SignalView::Completed { action, success: true, message })
}

/// Whether the signals tell that `action` failed, and why.
pub open spec fn tells_failure(
    signals: Seq<SignalView>,
    action: PowerAction,
    message: Seq<char>,
) -> bool {
    signals.contains(SignalView::Completed { action, success: false, message })
}

/// The signals that follow a start.
pub open spec fn signals_after(after: AfterStartView) -> Seq<SignalView> {
    match after {
        AfterStartView::Watch(_, signals) => signals,
        AfterStartView::Done(signals) => signals,
    }
}

/// A kill that the engine carried out is told as a success, and so is one of a container that
/// does not run or is not there. Every other error is told as a failure with that error, and so
/// is a kill that took too long. The container counts as stopped in every case.
pub proof fn law_kill_is_told(reply: CallReply, e: String)
    ensures
        kill_failure(CallReply::Done) is None,
        tells_success(
            closing(PowerAction::Kill, "stopped"@, kill_failure(CallReply::Done)),
            PowerAction::Kill,
            "killed"@,
        ),
        has_part(e@, "is not running"@) || has_part(e@, "No such container"@) ==> tells_success(
            closing(PowerAction::Kill, "stopped"@, kill_failure(CallReply::Failed(e))),
            PowerAction::Kill,
            "killed"@,
        ),
        !has_part(e@, "is not running"@) && !has_part(e@, "No such container"@) ==> tells_failure(
            closing(PowerAction::Kill, "stopped"@, kill_failure(CallReply::Failed(e))),
            PowerAction::Kill,
            e@,
        ),
        tells_failure(
            closing(PowerAction::Kill, "stopped"@, kill_failure(CallReply::TimedOut)),
            PowerAction::Kill,
            "Timeout killing container"@,
        ),
        closing(PowerAction::Kill, "stopped"@, kill_failure(reply)).contains(
            SignalView::State("stopped"@),
        ),
{
    let done = closing(PowerAction::Kill, "stopped"@, kill_failure(CallReply::Done));
    assert(done[1] == (SignalView::Completed {
        action: PowerAction::Kill,
        success: true,
        message: "killed"@,
    }));
    let failed = closing(PowerAction::Kill, "stopped"@, kill_failure(CallReply::Failed(e)));
    if has_part(e@, "is not running"@) || has_part(e@, "No such container"@) {
        assert(failed[1] == done[1]);
    } else {
        assert(failed[1] == (SignalView::Completed {
            action: PowerAction::Kill,
            success: false,
            message: e@,
        }));
    }
    let late = closing(PowerAction::Kill, "stopped"@, kill_failure(CallReply::TimedOut));
    assert(late[1] == (SignalView::Completed {
        action: PowerAction::Kill,
        success: false,
        message: "Timeout killing container"@,
    }));
    assert(closing(PowerAction::Kill, "stopped"@, kill_failure(reply))[0] == SignalView::State(
        "stopped"@,
    ));
}

/// A start that the engine carried out is told as a success, as a start or as a restart, and so
/// is one of a container that runs already; the container then counts as running. Every other
/// error, and a start that took too long, is told as a failure, and it then counts as stopped.
pub proof fn law_start_is_told(job: StartJobView, e: String)
    ensures
        start_failure(CallReply::Done) is None,
        ({
            let word = match job.action {
                PowerAction::Start => "started"@,
                PowerAction::Stop => "stopped"@,
                PowerAction::Kill => "killed"@,
                PowerAction::Restart => "restarted"@,
            };
            let done = signals_after(after_start(job, CallReply::Done));
            let failed = signals_after(after_start(job, CallReply::Failed(e)));
            let late = signals_after(after_start(job, CallReply::TimedOut));
            &&& tells_success(done, job.action, word)
            &&& done.contains(SignalView::State("running"@))
            &&& has_part(e@, "already started"@) || has_part(e@, "is already running"@) ==> {
                &&& tells_success(failed, job.action, word)
                &&& failed.contains(SignalView::State("running"@))
            }
            &&& !has_part(e@, "already started"@) && !has_part(e@, "is already running"@) ==> {
                &&& tells_failure(failed, job.action, e@)
                &&& failed.contains(SignalView::State("stopped"@))
            }
            &&& tells_failure(late, job.action, "Timeout starting container"@)
            &&& late.contains(SignalView::State("stopped"@))
        }),
{
    let done = signals_after(after_start(job, CallReply::Done));
    let failed = signals_after(after_start(job, CallReply::Failed(e)));
    let late = signals_after(after_start(job, CallReply::TimedOut));
    assert(done[0] == SignalView::State("running"@));
    assert(done[1] is Completed);
    if has_part(e@, "already started"@) || has_part(e@, "is already running"@) {
        assert(failed[0] == SignalView::State("running"@));
    } else {
        assert(failed[0] == SignalView::State("stopped"@));
    }
    assert(failed[1] is Completed);
    assert(late[0] == SignalView::State("stopped"@));
    assert(late[1] is Completed);
}

/// The log is watched for a start exactly where the start went well and there is a text that
/// tells it, and for that text.
pub proof fn law_log_is_watched(job: StartJobView, reply: CallReply)
    ensures
        after_start(job, CallReply::Done) is Watch <==> (job.runtime is Some
            && job.runtime->0.start_up.len() > 0),
        after_start(job, reply) matches AfterStartView::Watch(pattern, _) ==> {
            &&& job.runtime matches Some(runtime) && pattern == runtime.start_up
            &&& start_failure(reply) is None
        },
{
}

/// A stop that is over is told as a success, and the container counts as stopped.
pub proof fn law_stop_is_told()
    ensures
        closing(PowerAction::Stop, "stopped"@, None).contains(SignalView::State("stopped"@)),
        tells_success(
            closing(PowerAction::Stop, "stopped"@, None),
            PowerAction::Stop,
            "stopped"@,
        ),
{
    let signals = closing(PowerAction::Stop, "stopped"@, None);
    assert(signals[0] == SignalView::State("stopped"@));
    assert(signals[1] is Completed);
}

/// Every action is announced before anything else; what is under way is shown as starting where
/// it is a start, and as stopping otherwise.
pub proof fn law_actions_are_announced(action: PowerAction)
    ensures
        opening(action)[0] == SignalView::Started(action),
        opening(action)[1] == SignalView::State(
            if action == PowerAction::Start {
                "starting"@
            } else {
                "stopping"@
            },
        ),
        opening(action).len() == if action == PowerAction::Restart {
            3nat
        } else {
            2nat
        },
        turning().contains(SignalView::Pause(500)),
{
    assert(turning()[1] == SignalView::Pause(500));
}

/// A server is asked to stop with its own command, as a line; a command that stands for the key
/// that interrupts is that key, whatever white space is around it. Without a command nothing is
/// written.
pub proof fn law_stop_command(runtime: ContainerRuntimeView)
    ensures
        stop_request(None) is None,
        runtime.stop.len() == 0 ==> stop_request(Some(runtime)) is None,
        runtime.stop.len() > 0 ==> (stop_request(Some(runtime)) matches Some(text) && {
            let t = trim_of(runtime.stop);
            if t == "^c"@ || t == "^C"@ || t == "^^c"@ || t == "^^C"@ {
                text == seq!['\u{3}']
            } else {
                text == runtime.stop + seq!['\n']
            }
        }),
{
    assert(runtime.stop.push('\n') =~= runtime.stop + seq!['\n']);
}

/// A container has exited where the engine has its state and does not say that it runs, or says
/// that there is no such container; an engine that says nothing, or fails otherwise, tells nothing.
pub proof fn law_exit_is_seen(state: EngineState, e: String)
    ensures
        shows_exit(Ok(Some(state))) <==> state.running != Some(true),
        !shows_exit(Ok(None)),
        shows_exit(Err(e)) <==> has_part(e@, "No such container"@),
{
}

/// A kill stops the container and then sends it the signal to end, and does both to that
/// container.
pub proof fn law_kill_calls(container_id: Seq<char>)
    ensures
        kill_calls(container_id).len() == 2,
        kill_calls(container_id)[0] == EngineCallView::Stop(container_id),
        kill_calls(container_id)[1] == (EngineCallView::Signal {
            container_id,
            signal: "SIGTERM"@,
        }),
{
}

proof fn lemma_after_letter(params: Seq<char>, letter: char, rest: Seq<char>)
    requires
        forall|i: int| 0 <= i < params.len() ==> !is_letter(#[trigger] params[i]),
        is_letter(letter),
    ensures
        after_letter(params + seq![letter] + rest) == rest,
    decreases params.len(),
{
    let s = params + seq![letter] + rest;
    if params.len() == 0 {
        assert(s.drop_first() =~= rest);
    } else {
        assert(!is_letter(params[0]));
        let tail = params.drop_first();
        assert(s.drop_first() =~= tail + seq![letter] + rest);
        assert forall|i: int| 0 <= i < tail.len() implies !is_letter(#[trigger] tail[i]) by {
            assert(tail[i] == params[i + 1]);
        }
        lemma_after_letter(tail, letter, rest);
    }
}

/// A sequence that controls a terminal disappears from a text, and what stands before and behind
/// it stays: the sequence is an escape character, a bracket, and everything up to a letter.
pub proof fn law_control_sequences_disappear(
    before: Seq<char>,
    params: Seq<char>,
    letter: char,
    rest: Seq<char>,
)
    requires
        forall|i: int| 0 <= i < before.len() ==> #[trigger] before[i] != '\u{1b}',
        forall|i: int| 0 <= i < params.len() ==> !is_letter(#[trigger] params[i]),
        'a' <= letter <= 'z' || 'A' <= letter <= 'Z',
    ensures
        without_ansi(before + (seq!['\u{1b}', '['] + params + seq![letter] + rest)) == before
            + without_ansi(rest),
    decreases before.len(),
{
    let tail = seq!['\u{1b}', '['] + params + seq![letter] + rest;
    let s = before + tail;
    if before.len() == 0 {
        assert(s =~= tail);
        assert(s.skip(2) =~= params + seq![letter] + rest);
        lemma_after_letter(params, letter, rest);
        assert(before + without_ansi(rest) =~= without_ansi(rest));
    } else {
        assert(before[0] != '\u{1b}');
        let less = before.drop_first();
        assert forall|i: int| 0 <= i < less.len() implies #[trigger] less[i] != '\u{1b}' by {
            assert(less[i] == before[i + 1]);
        }
        assert(s.drop_first() =~= less + tail);
        law_control_sequences_disappear(less, params, letter, rest);
        assert(seq![before[0]] + (less + without_ansi(rest)) =~= before + without_ansi(rest));
    }
}

/// Where the pattern could be held against a line as an expression, that decides; where not, the
/// pattern is looked for as it stands.
pub proof fn law_start_text(pattern: Seq<char>, before: Seq<char>, after: Seq<char>, found: bool)
    ensures
        tells_start(pattern, before, Some(found)) == found,
        tells_start(pattern, before + pattern + after, None),
        tells_start(pattern, before, None) == has_part(before, pattern),
{
    law_parts(before, pattern, before, after);
}

/// How the server in a container starts and stops is known once it is kept, and for other
/// containers nothing changes; the actions under way have names of their own.
pub proof fn law_actions_and_runtimes(
    tracker: ActionTrackerView,
    id: Seq<char>,
    runtime: ContainerRuntimeView,
    other: Seq<char>,
    actions: (PowerAction, PowerAction),
)
    ensures
        ({
            let after = ActionTrackerView {
                runtimes: tracker.runtimes.insert(id, runtime),
                ..tracker
            };
            &&& after.runtime(id) == Some(runtime)
            &&& other != id ==> after.runtime(other) == tracker.runtime(other)
            &&& after.current(other) == tracker.current(other)
        }),
        tracker.current(id) is None ==> tracker.allows(id, actions.0),
        tracker.current(id) is Some && actions.0 != PowerAction::Kill ==> {
            &&& !tracker.allows(id, actions.0)
            &&& tracker.begun(id, actions.0) == tracker
        },
        actions.0.text() == actions.1.text() <==> actions.0 == actions.1,
        PowerAction::Start.text() == "start"@,
        PowerAction::Stop.text() == "stop"@,
        PowerAction::Kill.text() == "kill"@,
        PowerAction::Restart.text() == "restart"@,
        busy(id) == "Container "@ + id + " already has an action in progress"@,
{
    reveal_strlit("start");
    reveal_strlit("stop");
    reveal_strlit("kill");
    reveal_strlit("restart");
    assert("start"@.len() == 5);
    assert("stop"@.len() == 4);
    assert("kill"@.len() == 4);
    assert("restart"@.len() == 7);
    assert("stop"@[0] != "kill"@[0]);
}

/// Once the container does not run any more a stop is told as done, and a restart goes on with a
/// start of the same container, with the same runtime, as the same action.
pub proof fn law_exit_goes_on(job: StopJobView)
    ensures
        job.action == PowerAction::Restart ==> {
            &&& after_exit(job).1 matches Some(start) && {
                &&& start.action == PowerAction::Restart
                &&& start.container_id == job.container_id
                &&& start.uuid == job.uuid
                &&& start.runtime == job.runtime
            }
            &&& after_exit(job).0.len() == 4
            &&& after_exit(job).0[0] == SignalView::State("stopped"@)
            &&& after_exit(job).0[1] == SignalView::Pause(500)
            &&& after_exit(job).0[2] == SignalView::State("starting"@)
            &&& after_exit(job).0[3] == SignalView::Message("Starting container..."@)
        },
        job.action == PowerAction::Stop ==> {
            &&& after_exit(job).1 is None
            &&& tells_success(after_exit(job).0, PowerAction::Stop, "stopped"@)
            &&& after_exit(job).0[0] == SignalView::State("stopped"@)
            &&& after_exit(job).0.last() == SignalView::Finish
        },
{
    if job.action == PowerAction::Stop {
        assert(after_exit(job).0[1] is Completed);
    }
}

/// What is begun is begun for the container that was asked for, and with the runtime that was
/// kept for it.
pub proof fn law_jobs(
    tracker: ActionTrackerView,
    action: PowerAction,
    id: Seq<char>,
    uuid: Seq<char>,
)
    ensures
        start_job(tracker, action, id, uuid).action == action,
        start_job(tracker, action, id, uuid).container_id == id,
        start_job(tracker, action, id, uuid).uuid == uuid,
        stop_job(tracker, action, id, uuid).action == action,
        stop_job(tracker, action, id, uuid).container_id == id,
        stop_job(tracker, action, id, uuid).uuid == uuid,
        tracker.runtimes.contains_key(id) ==> {
            &&& start_job(tracker, action, id, uuid).runtime == Some(tracker.runtimes[id])
            &&& stop_job(tracker, action, id, uuid).runtime == Some(tracker.runtimes[id])
        },
        !tracker.runtimes.contains_key(id) ==> {
            &&& start_job(tracker, action, id, uuid).runtime is None
            &&& stop_job(tracker, action, id, uuid).runtime is None
        },
{
}

/// A log is watched until a line tells the start, as an expression or as it stands, with what
/// controls a terminal left out; where the log ends first, no start was seen.
pub proof fn law_watch_ends(pattern: Seq<char>, message: Vec<u8>, event: LogEvent)
    ensures
        ({
            let line = without_ansi(lossy_text(message@));
            let told = match regex_match(pattern, line) {
                Some(found) => found,
                None => has_part(line, pattern),
            };
            &&& told ==> watch_end(pattern, LogEvent::Message(message)) == Some(true)
            &&& !told ==> watch_end(pattern, LogEvent::Message(message)) is None
        }),
        !(event is Message) ==> watch_end(pattern, event) == Some(false),
{
}

/// The engine has half a minute to start a container and five seconds for each call of a kill; a
/// stop is looked for every second, and a start for five minutes.
pub proof fn law_time_limits()
    ensures
        START_TIMEOUT_SECS == 30,
        KILL_TIMEOUT_SECS == 5,
        EXIT_PAUSE_MS == 1000,
        STARTUP_TIMEOUT_SECS == 5 * 60,
{
}

} // verus!
