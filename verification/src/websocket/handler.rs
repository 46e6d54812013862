//! What the engine tells about a container, as clients see it.

use crate::outside::{parse_rfc3339, rfc3339_seconds, since_epoch};
use crate::services::exit_wait::EngineState;
use crate::state_manager::{ContainerState, ContainerStateView};
use crate::text::{
    has_prefix, is_empty_text, law_split_at_first, same_text, split_at_first, split_once,
    starts_with_text, trim, trim_of,
};
use vstd::prelude::*;

verus! {

/// Whether a look at a container shows that it runs; `None` where the engine did not answer.
pub fn is_container_running(state: Option<EngineState>) -> (r: bool)
    ensures
        r == (state matches Some(s) && s.running == Some(true)),
{
    match state {
        Some(state) => match state.running {
            Some(running) => running,
            None => false,
        },
        None => false,
    }
}

/// A line of log without the time at its start, and the time, given what the first word of the
/// line is as one.
pub open spec fn timestamp_split(line: Seq<char>, time: Option<i64>) -> (Option<i64>, Seq<char>) {
    match (split_at_first(line, ' '), time) {
        (Some((_, rest)), Some(secs)) => (Some(secs), rest),
        _ => (None, line),
    }
}

/// The time that a line of log begins with, as far as it is one.
pub open spec fn line_time(line: Seq<char>) -> Option<i64> {
    match split_at_first(line, ' ') {
        Some((first, _)) => rfc3339_seconds(first),
        None => None,
    }
}

/// A line of log without the time at its start, given what its first word is as one.
pub fn split_timestamp(line: &str, time: Option<i64>) -> (r: (Option<i64>, String))
    ensures
        (r.0, r.1@) == timestamp_split(line@, time),
{
    match (split_once(line, ' '), time) {
        (Some((_, rest)), Some(secs)) => (Some(secs), rest),
        _ => (None, line.to_string()),
    }
}

/// The time that a line of log begins with, in seconds since the Unix epoch, and the rest of the
/// line. A line without a time is left as it is.
pub fn parse_docker_timestamp_prefix(line: &str) -> (r: (Option<i64>, String))
    ensures
        (r.0, r.1@) == timestamp_split(line@, line_time(line@)),
{
    let time = match split_once(line, ' ') {
        Some((first, _)) => parse_rfc3339(first.as_str()),
        None => None,
    };
    split_timestamp(line, time)
}

/// A time as seconds since the Unix epoch: the epoch itself where the clock stands before it.
pub open spec fn epoch_time(elapsed: Option<u64>) -> i64 {
    match elapsed {
        Some(secs) => secs as i64,
        None => 0,
    }
}

/// See [`epoch_time`].
pub fn epoch_secs(elapsed: Option<u64>) -> (r: i64)
    ensures
        r == epoch_time(elapsed),
{
    match elapsed {
        Some(secs) => #[verifier::truncate] (secs as i64),
        None => 0,
    }
}

/// The present time, in seconds since the Unix epoch.
pub fn now_epoch_secs() -> (r: i64)
    ensures
        exists|elapsed: Option<u64>| r == #[trigger] epoch_time(elapsed),
{
    let elapsed = since_epoch();
    epoch_secs(elapsed)
}

/// When a container was started, in seconds since the Unix epoch, as far as the engine tells it.
pub fn get_container_started_at(started_at: &Option<String>) -> (r: Option<i64>)
    ensures
        r == match started_at {
            Some(text) => rfc3339_seconds(text@),
            None => None,
        },
{
    match started_at {
        Some(text) => parse_rfc3339(text.as_str()),
        None => None,
    }
}

/// The state in which an action of the engine leaves a container, where it is one that matters.
pub open spec fn action_state(action: Seq<char>) -> Option<Seq<char>> {
    if action == "unpause"@ {
        Some("running"@)
    } else if action == "die"@ || action == "stop"@ || action == "kill"@ || action == "oom"@
        || action == "exited"@ {
        Some("stopped"@)
    } else if action == "restart"@ {
        Some("restarting"@)
    } else if action == "pause"@ {
        Some("paused"@)
    } else {
        None
    }
}

/// The state in which an action of the engine leaves a container.
pub fn docker_action_to_state(action: &str) -> (r: Option<&'static str>)
    ensures
        match r {
            Some(state) => action_state(action@) == Some(state@),
            None => action_state(action@) is None,
        },
{
    if same_text(action, "unpause") {
        Some("running")
    } else if same_text(action, "die") || same_text(action, "stop") || same_text(action, "kill")
        || same_text(action, "oom") || same_text(action, "exited") {
        Some("stopped")
    } else if same_text(action, "restart") {
        Some("restarting")
    } else if same_text(action, "pause") {
        Some("paused")
    } else {
        None
    }
}

/// States that an operation of the daemon gives a container while it goes on.
pub open spec fn is_operation_state(state: Seq<char>) -> bool {
    ||| state == "installing"@
    ||| state == "updating"@
    ||| state == "recreating"@
    ||| state == "restoring"@
    ||| state == "creating"@
}

/// Whether a state is one that an operation gives a container.
pub fn in_operation(state: &str) -> (r: bool)
    ensures
        r == is_operation_state(state@),
{
    same_text(state, "installing") || same_text(state, "updating") || same_text(
        state,
        "recreating",
    ) || same_text(state, "restoring") || same_text(state, "creating")
}

/// States in which the output of a container is followed.
pub open spec fn streams(state: Seq<char>) -> bool {
    state == "running"@ || state == "starting"@ || is_operation_state(state)
}

/// Whether the output of a container is followed in a state.
pub fn is_streaming_state(state: &str) -> (r: bool)
    ensures
        r == streams(state@),
{
    same_text(state, "running") || same_text(state, "starting") || in_operation(state)
}

/// States that only the daemon knows of.
pub open spec fn is_daemon_state(state: Seq<char>) -> bool {
    ||| state == "starting"@
    ||| state == "stopping"@
    ||| is_operation_state(state)
    ||| state == "suspended"@
    ||| state == "locked"@
    ||| state == "install_failed"@
    ||| state == "update_failed"@
    ||| state == "install_timeout"@
    ||| state == "update_timeout"@
    ||| state == "install_success"@
}

fn daemon_state(state: &str) -> (r: bool)
    ensures
        r == is_daemon_state(state@),
{
    same_text(state, "starting") || same_text(state, "stopping") || in_operation(state)
        || same_text(state, "suspended") || same_text(state, "locked") || same_text(
        state,
        "install_failed",
    ) || same_text(state, "update_failed") || same_text(state, "install_timeout") || same_text(
        state,
        "update_timeout",
    ) || same_text(state, "install_success")
}

/// What came of asking the engine about a container.
#[derive(Debug, Clone, Copy)]
pub enum EngineReply {
    State(EngineState),
    Nothing,
    Failed,
    TimedOut,
}

/// The state that the engine tells.
pub open spec fn engine_status(reply: EngineReply) -> Seq<char> {
    match reply {
        EngineReply::State(state) => if state.running == Some(true) {
            "running"@
        } else if state.paused == Some(true) {
            "paused"@
        } else if state.restarting == Some(true) {
            "restarting"@
        } else {
            "stopped"@
        },
        EngineReply::Nothing => "unknown"@,
        EngineReply::Failed => "offline"@,
        EngineReply::TimedOut => "timeout"@,
    }
}

fn is_true(flag: Option<bool>) -> (r: bool)
    ensures
        r == (flag == Some(true)),
{
    match flag {
        Some(b) => b,
        None => false,
    }
}

/// The state that the engine tells.
pub fn status_from_engine(reply: &EngineReply) -> (r: String)
    ensures
        r@ == engine_status(*reply),
{
    match reply {
        EngineReply::State(state) => if is_true(state.running) {
            "running".to_string()
        } else if is_true(state.paused) {
            "paused".to_string()
        } else if is_true(state.restarting) {
            "restarting".to_string()
        } else {
            "stopped".to_string()
        },
        EngineReply::Nothing => "unknown".to_string(),
        EngineReply::Failed => "offline".to_string(),
        EngineReply::TimedOut => "timeout".to_string(),
    }
}

/// The state that the daemon knows, for which the engine is not asked: that of the action under
/// way, or one that only the daemon knows of. Where the container of the engine is not the one
/// that is remembered any more, what is remembered counts.
pub open spec fn known_status(
    container_id: Seq<char>,
    pending: Option<Seq<char>>,
    by_container_id: Option<ContainerStateView>,
    by_uuid: Option<ContainerStateView>,
) -> Option<Seq<char>> {
    if pending == Some("start"@) || pending == Some("restart"@) {
        Some("starting"@)
    } else if pending == Some("stop"@) || pending == Some("kill"@) {
        Some("stopping"@)
    } else {
        match (by_container_id, by_uuid) {
            (Some(state), _) => if is_daemon_state(state.state) {
                Some(state.state)
            } else {
                None
            },
            (None, Some(state)) => if state.container_id != Some(container_id) || is_daemon_state(
                state.state,
            ) {
                Some(state.state)
            } else {
                None
            },
            (None, None) => None,
        }
    }
}

/// The state that the daemon knows, for which the engine is not asked.
pub fn status_from_daemon(
    container_id: &str,
    pending: &Option<String>,
    by_container_id: &Option<ContainerState>,
    by_uuid: &Option<ContainerState>,
) -> (r: Option<String>)
    ensures
        r.deep_view() == known_status(
            container_id@,
            pending.deep_view(),
            by_container_id.deep_view(),
            by_uuid.deep_view(),
        ),
{
    if let Some(action) = pending {
        let action = action.as_str();
        if same_text(action, "start") || same_text(action, "restart") {
            return Some("starting".to_string());
        }
        if same_text(action, "stop") || same_text(action, "kill") {
            return Some("stopping".to_string());
        }
    }
    match by_container_id {
        Some(state) => if daemon_state(state.state.as_str()) {
            Some(state.state.clone())
        } else {
            None
        },
        None => match by_uuid {
            Some(state) => {
                let same_id = match &state.container_id {
                    Some(id) => same_text(id.as_str(), container_id),
                    None => false,
                };
                if !same_id || daemon_state(state.state.as_str()) {
                    Some(state.state.clone())
                } else {
                    None
                }
            },
            None => None,
        },
    }
}

/// The status of a container: what the daemon knows of it, and else what the engine says.
pub open spec fn status_shown(
    container_id: Seq<char>,
    pending: Option<Seq<char>>,
    by_container_id: Option<ContainerStateView>,
    by_uuid: Option<ContainerStateView>,
    engine: EngineReply,
) -> Seq<char> {
    match known_status(container_id, pending, by_container_id, by_uuid) {
        Some(state) => state,
        None => engine_status(engine),
    }
}

/// The state of a container as clients see it, given what the daemon knows and what the engine
/// tells.
pub fn get_container_status(
    container_id: &str,
    pending: &Option<String>,
    by_container_id: &Option<ContainerState>,
    by_uuid: &Option<ContainerState>,
    engine: &EngineReply,
) -> (r: String)
    ensures
        r@ == status_shown(
            container_id@,
            pending.deep_view(),
            by_container_id.deep_view(),
            by_uuid.deep_view(),
            *engine,
        ),
{
    match status_from_daemon(container_id, pending, by_container_id, by_uuid) {
        Some(state) => state,
        None => status_from_engine(engine),
    }
}

/// An action of the engine that is passed on.
#[derive(Debug, Clone)]
pub struct EngineEvent {
    pub action: String,
    /// The state that follows; it is empty where none does.
    pub state: String,
    /// Whether clients are told the action itself.
    pub forward: bool,
}

/// What an [`EngineEvent`] holds.
#[verifier::ext_equal]
pub struct EngineEventView {
    pub action: Seq<char>,
    pub state: Seq<char>,
    pub forward: bool,
}

impl DeepView for EngineEvent {
    type V = EngineEventView;

    open spec fn deep_view(&self) -> EngineEventView {
        EngineEventView { action: self.action@, state: self.state@, forward: self.forward }
    }
}

/// The action that the engine tells: what stands before a colon.
pub open spec fn action_name(raw: Seq<char>) -> Seq<char> {
    trim_of(
        match split_at_first(raw, ':') {
            Some((first, _)) => first,
            None => raw,
        },
    )
}

/// Actions that clients are told.
pub open spec fn is_forwarded(action: Seq<char>) -> bool {
    ||| action == "start"@
    ||| action == "die"@
    ||| action == "stop"@
    ||| action == "kill"@
    ||| action == "restart"@
    ||| action == "pause"@
    ||| action == "unpause"@
    ||| action == "oom"@
    ||| action == "destroy"@
}

/// What is passed on of an action that the engine tells. Commands that run in the container, and
/// checks of its health, are not.
pub open spec fn engine_event(raw: Seq<char>) -> Option<EngineEventView> {
    let action = action_name(raw);
    if raw.len() == 0 || action.len() == 0 || has_prefix(action, "exec_"@) || has_prefix(
        action,
        "health_status"@,
    ) {
        None
    } else {
        Some(
            EngineEventView {
                action,
                state: match action_state(action) {
                    Some(state) => state,
                    None => ""@,
                },
                forward: is_forwarded(action),
            },
        )
    }
}

/// What is passed on of an action that the engine tells.
pub fn event_of_action(raw_action: &str) -> (r: Option<EngineEvent>)
    ensures
        r.deep_view() == engine_event(raw_action@),
{
    if is_empty_text(raw_action) {
        return None;
    }
    let first = match split_once(raw_action, ':') {
        Some((first, _)) => first,
        None => raw_action.to_string(),
    };
    let action = trim(first.as_str());
    let a = action.as_str();
    if is_empty_text(a) || starts_with_text(a, "exec_") || starts_with_text(a, "health_status") {
        return None;
    }
    let state = match docker_action_to_state(a) {
        Some(state) => state,
        None => "",
    };
    let forward = same_text(a, "start") || same_text(a, "die") || same_text(a, "stop") || same_text(
        a,
        "kill",
    ) || same_text(a, "restart") || same_text(a, "pause") || same_text(a, "unpause") || same_text(
        a,
        "oom",
    ) || same_text(a, "destroy");
    let state = state.to_string();
    Some(EngineEvent { action, state, forward })
}

/// A stopped container is shown as its operation while one goes on, whatever the engine tells.
pub proof fn law_operation_outranks_engine(
    container_id: Seq<char>,
    state: ContainerStateView,
    by_uuid: Option<ContainerStateView>,
)
    requires
        is_operation_state(state.state),
    ensures
        known_status(container_id, None, Some(state), by_uuid) == Some(state.state),
        streams(state.state),
{
}

/// A line that begins with a time, in a form that can be read, is that time and the rest behind
/// the blank; every other line has no time and stays as it is.
pub proof fn law_timestamped_line(stamp: Seq<char>, rest: Seq<char>, secs: i64)
    requires
        forall|i: int| 0 <= i < stamp.len() ==> #[trigger] stamp[i] != ' ',
    ensures
        line_time(stamp + seq![' '] + rest) == rfc3339_seconds(stamp),
        line_time(stamp) is None,
        timestamp_split(stamp + seq![' '] + rest, Some(secs)) == (Some(secs), rest),
        timestamp_split(stamp + seq![' '] + rest, None) == (None::<i64>, stamp + seq![' '] + rest),
        timestamp_split(stamp, Some(secs)) == (None::<i64>, stamp),
{
    law_split_at_first(stamp, rest, ' ');
}

/// What the engine did to a container says in which state it now is, where it says that at all.
pub proof fn law_engine_actions()
    ensures
        action_state("unpause"@) == Some("running"@),
        action_state("die"@) == Some("stopped"@),
        action_state("stop"@) == Some("stopped"@),
        action_state("kill"@) == Some("stopped"@),
        action_state("oom"@) == Some("stopped"@),
        action_state("exited"@) == Some("stopped"@),
        action_state("restart"@) == Some("restarting"@),
        action_state("pause"@) == Some("paused"@),
        action_state("start"@) is None,
        action_state("destroy"@) is None,
        is_forwarded("start"@) && is_forwarded("die"@) && is_forwarded("stop"@) && is_forwarded(
            "kill"@,
        ) && is_forwarded("restart"@) && is_forwarded("pause"@) && is_forwarded("unpause"@)
            && is_forwarded("oom"@) && is_forwarded("destroy"@),
        !is_forwarded("exited"@),
{
    reveal_strlit("unpause");
    reveal_strlit("die");
    reveal_strlit("stop");
    reveal_strlit("kill");
    reveal_strlit("oom");
    reveal_strlit("exited");
    reveal_strlit("restart");
    reveal_strlit("pause");
    reveal_strlit("start");
    reveal_strlit("destroy");
    assert("unpause"@.len() == 7);
    assert("die"@.len() == 3);
    assert("stop"@.len() == 4);
    assert("kill"@.len() == 4);
    assert("oom"@.len() == 3);
    assert("exited"@.len() == 6);
    assert("restart"@.len() == 7);
    assert("pause"@.len() == 5);
    assert("start"@.len() == 5);
    assert("destroy"@.len() == 7);
    assert("unpause"@[0] != "restart"@[0]);
    assert("unpause"@[0] != "destroy"@[0]);
    assert("die"@[0] != "oom"@[0]);
    assert("stop"@[0] != "kill"@[0]);
    assert("restart"@[0] != "destroy"@[0]);
    assert("pause"@[0] != "start"@[0]);
}

/// Only the actions that change a container are told to a client, and only those that leave it
/// in another state change what is shown; which state that is depends on the action alone.
pub proof fn law_known_actions_only(action: Seq<char>)
    ensures
        action_state(action) matches Some(state) ==> (state == "running"@ || state == "stopped"@
            || state == "restarting"@ || state == "paused"@),
        action_state(action) == Some("running"@) ==> action == "unpause"@,
        action_state(action) == Some("paused"@) ==> action == "pause"@,
        action_state(action) == Some("restarting"@) ==> action == "restart"@,
        action_state(action) is Some ==> is_forwarded(action) || action == "exited"@,
        is_forwarded(action) && action_state(action) is None ==> action == "start"@ || action
            == "destroy"@,
{
    reveal_strlit("running");
    reveal_strlit("stopped");
    reveal_strlit("restarting");
    reveal_strlit("paused");
    assert("running"@.len() == 7);
    assert("stopped"@.len() == 7);
    assert("restarting"@.len() == 10);
    assert("paused"@.len() == 6);
    assert("running"@[0] != "stopped"@[0]);
}

/// An event of the engine is its action before the first colon, without white space around it.
/// What is run in a container and its health are no events of it.
pub proof fn law_engine_event(action: Seq<char>, rest: Seq<char>)
    requires
        forall|i: int| 0 <= i < action.len() ==> #[trigger] action[i] != ':',
        trim_of(action) == action,
        action.len() > 0,
    ensures
        action_name(action) == action,
        action_name(action + seq![':'] + rest) == action,
        engine_event(Seq::empty()) is None,
        has_prefix(action, "exec_"@) || has_prefix(action, "health_status"@) ==> engine_event(action)
            is None && engine_event(action + seq![':'] + rest) is None,
        !has_prefix(action, "exec_"@) && !has_prefix(action, "health_status"@) ==> (engine_event(
            action + seq![':'] + rest,
        ) matches Some(event) && {
            &&& event.action == action
            &&& event.forward == is_forwarded(action)
            &&& action_state(action) matches Some(state) ==> event.state == state
            &&& action_state(action) is None ==> event.state.len() == 0
        }),
{
    law_split_at_first(action, rest, ':');
    reveal_strlit("");
}

/// What the engine says of a container, as a state: it runs before it is paused, and that before
/// it restarts; without a word from the engine the state says what is missing.
pub proof fn law_engine_status(state: EngineState)
    ensures
        state.running == Some(true) ==> engine_status(EngineReply::State(state)) == "running"@,
        state.running != Some(true) && state.paused == Some(true) ==> engine_status(
            EngineReply::State(state),
        ) == "paused"@,
        state.running != Some(true) && state.paused != Some(true) && state.restarting == Some(true)
            ==> engine_status(EngineReply::State(state)) == "restarting"@,
        state.running != Some(true) && state.paused != Some(true) && state.restarting != Some(true)
            ==> engine_status(EngineReply::State(state)) == "stopped"@,
        engine_status(EngineReply::Nothing) == "unknown"@,
        engine_status(EngineReply::Failed) == "offline"@,
        engine_status(EngineReply::TimedOut) == "timeout"@,
{
}

/// What is being done to a container is its status before anything else. Then comes what the
/// daemon does with it or made of it; where the daemon has nothing to say, the engine is asked. A
/// container that was made anew is shown as it is remembered.
pub proof fn law_known_status(
    container_id: Seq<char>,
    state: ContainerStateView,
    other: Option<ContainerStateView>,
)
    ensures
        known_status(container_id, Some("start"@), Some(state), other) == Some("starting"@),
        known_status(container_id, Some("restart"@), Some(state), other) == Some("starting"@),
        known_status(container_id, Some("stop"@), Some(state), other) == Some("stopping"@),
        known_status(container_id, Some("kill"@), Some(state), other) == Some("stopping"@),
        known_status(container_id, Some("start"@), None, other) == Some("starting"@),
        known_status(container_id, Some("stop"@), None, other) == Some("stopping"@),
        is_daemon_state(state.state) ==> known_status(container_id, None, Some(state), other)
            == Some(state.state),
        !is_daemon_state(state.state) ==> known_status(container_id, None, Some(state), other)
            is None,
        state.container_id != Some(container_id) ==> known_status(
            container_id,
            None,
            None,
            Some(state),
        ) == Some(state.state),
        state.container_id == Some(container_id) && !is_daemon_state(state.state) ==> known_status(
            container_id,
            None,
            None,
            Some(state),
        ) is None,
        known_status(container_id, None, None, None) is None,
        is_daemon_state("starting"@) && is_daemon_state("stopping"@) && is_daemon_state(
            "suspended"@,
        ) && is_daemon_state("locked"@) && is_daemon_state("install_failed"@) && is_daemon_state(
            "update_failed"@,
        ) && is_daemon_state("install_timeout"@) && is_daemon_state("update_timeout"@)
            && is_daemon_state("install_success"@) && is_daemon_state("installing"@)
            && is_daemon_state("updating"@) && is_daemon_state("recreating"@) && is_daemon_state(
            "restoring"@,
        ) && is_daemon_state("creating"@),
        !is_daemon_state("running"@) && !is_daemon_state("stopped"@),
        streams("running"@) && streams("starting"@) && streams("installing"@) && streams(
            "updating"@,
        ) && streams("recreating"@) && streams("restoring"@) && streams("creating"@),
        !streams("stopped"@) && !streams("stopping"@) && !streams("suspended"@),
{
    reveal_strlit("start");
    reveal_strlit("restart");
    reveal_strlit("stop");
    reveal_strlit("kill");
    assert("start"@.len() == 5);
    assert("restart"@.len() == 7);
    assert("stop"@.len() == 4);
    assert("kill"@.len() == 4);
    assert("stop"@[0] != "kill"@[0]);
    reveal_strlit("starting");
    reveal_strlit("stopping");
    reveal_strlit("suspended");
    reveal_strlit("locked");
    reveal_strlit("install_failed");
    reveal_strlit("update_failed");
    reveal_strlit("install_timeout");
    reveal_strlit("update_timeout");
    reveal_strlit("install_success");
    reveal_strlit("installing");
    reveal_strlit("updating");
    reveal_strlit("recreating");
    reveal_strlit("restoring");
    reveal_strlit("creating");
    reveal_strlit("running");
    reveal_strlit("stopped");
    assert("starting"@.len() == 8);
    assert("stopping"@.len() == 8);
    assert("suspended"@.len() == 9);
    assert("locked"@.len() == 6);
    assert("install_failed"@.len() == 14);
    assert("update_failed"@.len() == 13);
    assert("install_timeout"@.len() == 15);
    assert("update_timeout"@.len() == 14);
    assert("install_success"@.len() == 15);
    assert("installing"@.len() == 10);
    assert("updating"@.len() == 8);
    assert("recreating"@.len() == 10);
    assert("restoring"@.len() == 9);
    assert("creating"@.len() == 8);
    assert("running"@.len() == 7);
    assert("stopped"@.len() == 7);
    assert("starting"@[2] != "stopping"@[2]);
    assert("starting"@[0] != "updating"@[0]);
    assert("starting"@[0] != "creating"@[0]);
    assert("stopping"@[0] != "updating"@[0]);
    assert("stopping"@[0] != "creating"@[0]);
    assert("suspended"@[0] != "restoring"@[0]);
    assert("install_failed"@[0] != "update_timeout"@[0]);
    assert("install_timeout"@[8] != "install_success"@[8]);
    assert("installing"@[0] != "recreating"@[0]);
    assert("updating"@[0] != "creating"@[0]);
    assert("running"@[0] != "stopped"@[0]);
}

/// Where the daemon does something with a container, that is its status whatever the engine
/// says; else the engine decides.
pub proof fn law_engine_is_asked_last(
    container_id: Seq<char>,
    state: ContainerStateView,
    by_uuid: Option<ContainerStateView>,
    engine: EngineReply,
    running: EngineState,
)
    requires
        running.running == Some(true),
    ensures
        status_shown(container_id, Some("start"@), Some(state), by_uuid, engine) == "starting"@,
        status_shown(container_id, Some("stop"@), Some(state), by_uuid, engine) == "stopping"@,
        is_operation_state(state.state) ==> status_shown(
            container_id,
            None,
            Some(state),
            by_uuid,
            engine,
        ) == state.state,
        status_shown(container_id, None, None, None, EngineReply::State(running)) == "running"@,
        status_shown(container_id, None, None, None, EngineReply::Failed) == "offline"@,
        !is_daemon_state(state.state) ==> status_shown(
            container_id,
            None,
            Some(state),
            by_uuid,
            EngineReply::State(running),
        ) == "running"@,
{
    law_known_status(container_id, state, by_uuid);
}

/// The time since the epoch is counted in seconds, and is the epoch where the clock stands
/// before it.
pub proof fn law_epoch_time(secs: u64)
    requires
        secs <= i64::MAX,
    ensures
        epoch_time(Some(secs)) == secs,
        epoch_time(None) == 0,
{
}

} // verus!
