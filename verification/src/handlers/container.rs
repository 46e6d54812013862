//! Requests about containers: who may do what when, and what is answered.

use crate::duplicate::Duplicate;
use crate::models::{
    error_reply, success_reply, ApiResponse, ApiResponseView, AttachResponse, AttachResponseView,
    ContainerLookupResponse, ContainerLookupResponseView, ContainerTracker, ContainerTrackerView,
    InstallationStatus, InstallationStatusView, LogsRequest, ResourceLimits, ResourceLimitsView,
    RuntimeConfig, RuntimeConfigView, Timestamp, UpdateLimitsRequest,
};
use crate::outside::{rfc3339_text, write_rfc3339};
use crate::services::exit_wait::EngineState;
use crate::services::task::{
    attempt, has_action, result_view, Action, ActionView, Task, TaskView,
};
use crate::state_manager::{ContainerState, ContainerStateView};
use crate::text::{cat2, cat3, cat4, same_text};
use vstd::prelude::*;

verus! {

/// Which container an identifier stands for: its UUID, its state and the container of the engine.
/// It is looked up as a container of the engine first, and then as a UUID.
pub open spec fn resolved(
    identifier: Seq<char>,
    by_container_id: Option<(Seq<char>, ContainerStateView)>,
    by_uuid: Option<ContainerStateView>,
) -> Option<(Seq<char>, ContainerStateView, Seq<char>)> {
    match by_container_id {
        Some((uuid, state)) => Some((uuid, state, identifier)),
        None => match by_uuid {
            Some(state) => match state.container_id {
                Some(container_id) => Some((identifier, state, container_id)),
                None => None,
            },
            None => None,
        },
    }
}

/// Which container an identifier stands for, given what each of the two lookups found.
pub fn resolve_container_full(
    identifier: &str,
    by_container_id: Option<(String, ContainerState)>,
    by_uuid: Option<ContainerState>,
) -> (r: Option<(String, ContainerState, String)>)
    ensures
        r.deep_view() == resolved(
            identifier@,
            by_container_id.deep_view(),
            by_uuid.deep_view(),
        ),
{
    if let Some((uuid, state)) = by_container_id {
        return Some((uuid, state, identifier.to_string()));
    }
    match by_uuid {
        Some(state) => match &state.container_id {
            Some(container_id) => {
                let container_id = container_id.clone();
                Some((identifier.to_string(), state, container_id))
            },
            None => None,
        },
        None => None,
    }
}

/// Whether a container is suspended; `suspended` is `None` where the container is not known.
pub fn check_container_suspended(suspended: Option<bool>) -> (r: Result<bool, String>)
    ensures
        match suspended {
            Some(b) => r == Ok::<bool, String>(b),
            None => r matches Err(e) && e@ == "Container not found in daemon state"@,
        },
{
    match suspended {
        Some(b) => Ok(b),
        None => Err("Container not found in daemon state".to_string()),
    }
}

/// The container of the engine that an identifier stands for, or why there is none.
pub open spec fn resolved_id(
    identifier: Seq<char>,
    is_container_id: bool,
    by_uuid: Option<ContainerStateView>,
) -> Result<Seq<char>, Seq<char>> {
    if is_container_id {
        Ok(identifier)
    } else {
        match by_uuid {
            Some(state) => match state.container_id {
                Some(container_id) => Ok(container_id),
                None => Err("Container ID not found for this UUID"@),
            },
            None => Err("Container not found with this identifier"@),
        }
    }
}

/// The container of the engine that an identifier stands for, given whether it is one itself and
/// what was found under it as a UUID.
pub fn resolve_container_id(
    identifier: &str,
    is_container_id: bool,
    by_uuid: &Option<ContainerState>,
) -> (r: Result<String, String>)
    ensures
        result_view(r) == resolved_id(identifier@, is_container_id, by_uuid.deep_view()),
{
    if is_container_id {
        return Ok(identifier.to_string());
    }
    match by_uuid {
        Some(state) => match &state.container_id {
            Some(container_id) => Ok(container_id.clone()),
            None => Err("Container ID not found for this UUID".to_string()),
        },
        None => Err("Container not found with this identifier".to_string()),
    }
}

/// Whether a container counts as locked by its mark alone.
pub open spec fn is_locked(state: ContainerStateView) -> bool {
    state.locked == Some(true)
}

fn locked(state: &ContainerState) -> (r: bool)
    ensures
        r == is_locked(state.deep_view()),
{
    match state.locked {
        Some(b) => b,
        None => false,
    }
}

/// Why a container may not be touched now: it is locked, or it is being installed or updated.
pub open spec fn lock_message(state: Option<ContainerStateView>) -> Option<Seq<char>> {
    match state {
        Some(state) => if is_locked(state) {
            Some(
                "Container is currently locked: "@ + match state.lock_reason {
                    Some(reason) => reason,
                    None => "Container is locked"@,
                },
            )
        } else if state.state == "installing"@ || state.state == "updating"@ {
            Some("Container is currently "@ + state.state)
        } else {
            None
        },
        None => None,
    }
}

/// Why a container may not be touched now, given its state where it is known.
pub fn check_container_locked(state: &Option<ContainerState>) -> (r: Option<String>)
    ensures
        r.deep_view() == lock_message(state.deep_view()),
{
    match state {
        Some(state) => {
            if locked(state) {
                let message = match &state.lock_reason {
                    Some(reason) => cat2("Container is currently locked: ", reason.as_str()),
                    None => cat2("Container is currently locked: ", "Container is locked"),
                };
                Some(message)
            } else if same_text(state.state.as_str(), "installing") || same_text(
                state.state.as_str(),
                "updating",
            ) {
                Some(cat2("Container is currently ", state.state.as_str()))
            } else {
                None
            }
        },
        None => None,
    }
}

/// The reply for a result: its value, or what went wrong.
pub open spec fn reply_view<T>(result: Result<T, Seq<char>>) -> ApiResponseView<T> {
    match result {
        Ok(data) => success_reply(data),
        Err(e) => error_reply(e),
    }
}

/// The reply for a result.
pub fn reply<T: DeepView>(result: Result<T, String>) -> (r: ApiResponse<T>)
    ensures
        r.deep_view() == reply_view(result_view(result)),
{
    match result {
        Ok(data) => ApiResponse::success(data),
        Err(e) => ApiResponse::error(e),
    }
}

/// The UUID of a container, given that which was found for its identifier. An identifier that is
/// not known counts as a UUID.
pub fn uuid_or_id(id: &str, found: Option<String>) -> (r: String)
    ensures
        r@ == match found {
            Some(uuid) => uuid@,
            None => id@,
        },
{
    match found {
        Some(uuid) => uuid,
        None => id.to_string(),
    }
}

/// The answer to a request that is carried out unseen.
#[derive(Debug, Clone)]
pub struct ActionAccepted {
    pub status: String,
    pub message: String,
}

/// What a [`ActionAccepted`] holds.
#[verifier::ext_equal]
pub struct ActionAcceptedView {
    pub status: Seq<char>,
    pub message: Seq<char>,
}

impl DeepView for ActionAccepted {
    type V = ActionAcceptedView;

    open spec fn deep_view(&self) -> ActionAcceptedView {
        ActionAcceptedView {
            status: self.status@,
            message: self.message@,
        }
    }
}

/// What a request asks to be done to the power of a container.
#[derive(Debug, Clone, Copy, PartialEq, Eq, Structural)]
pub enum PowerRequest {
    Start,
    Stop,
    Kill,
    Restart,
    Recreate,
}

impl PowerRequest {
    /// The name of the request, as answers use it.
    pub open spec fn title(self) -> Seq<char> {
        match self {
            PowerRequest::Start => "Start"@,
            PowerRequest::Stop => "Stop"@,
            PowerRequest::Kill => "Kill"@,
            PowerRequest::Restart => "Restart"@,
            PowerRequest::Recreate => "Recreate"@,
        }
    }

    fn name(self) -> (r: &'static str)
        ensures
            r@ == self.title(),
    {
        match self {
            PowerRequest::Start => "Start",
            PowerRequest::Stop => "Stop",
            PowerRequest::Kill => "Kill",
            PowerRequest::Restart => "Restart",
            PowerRequest::Recreate => "Recreate",
        }
    }
}

/// Why a request may not be carried out. A locked container is left alone; a suspended one is not
/// started or restarted.
pub open spec fn power_refusal(
    request: PowerRequest,
    state: Option<ContainerStateView>,
    suspended: bool,
) -> Option<Seq<char>> {
    match lock_message(state) {
        Some(message) => Some(message),
        None => if suspended && request == PowerRequest::Start {
            Some("Cannot start suspended container. Unsuspend it first."@)
        } else if suspended && request == PowerRequest::Restart {
            Some("Cannot restart suspended container. Unsuspend it first."@)
        } else {
            None
        },
    }
}

/// Why a request may not be carried out, given the state of the container where it is known and
/// whether it is suspended.
pub fn refuse_power(
    request: PowerRequest,
    state: &Option<ContainerState>,
    suspended: bool,
) -> (r: Option<String>)
    ensures
        r.deep_view() == power_refusal(request, state.deep_view(), suspended),
{
    match check_container_locked(state) {
        Some(message) => Some(message),
        None => if suspended && request == PowerRequest::Start {
            Some("Cannot start suspended container. Unsuspend it first.".to_string())
        } else if suspended && request == PowerRequest::Restart {
            Some("Cannot restart suspended container. Unsuspend it first.".to_string())
        } else {
            None
        },
    }
}

/// The answer to a request that is carried out unseen.
pub open spec fn accepted(request: PowerRequest, id: Seq<char>) -> ActionAcceptedView {
    ActionAcceptedView {
        status: "accepted"@,
        message: request.title() + " action initiated for container "@ + id,
    }
}

/// The answer to a request, given whether it could begin.
pub fn power_reply(request: PowerRequest, id: &str, result: Result<(), String>) -> (r: ApiResponse<
    ActionAccepted,
>)
    ensures
        r.deep_view() == match result {
            Ok(_) => success_reply(accepted(request, id@)),
            Err(e) => error_reply(e@),
        },
{
    match result {
        Ok(_) => {
            let message = cat3(request.name(), " action initiated for container ", id);
            ApiResponse::success(ActionAccepted { status: "accepted".to_string(), message })
        },
        Err(e) => ApiResponse::error(e),
    }
}

/// How the server in a container starts and stops, as far as the tracker and the request say;
/// what the request says counts more.
pub open spec fn chosen_runtime(
    tracker: Option<ContainerTrackerView>,
    request: Option<RuntimeConfigView>,
) -> Option<RuntimeConfigView> {
    match request {
        Some(runtime) => Some(runtime),
        None => match tracker {
            Some(tracker) => tracker.runtime,
            None => None,
        },
    }
}

/// How the server in a container starts and stops.
pub fn choose_runtime(tracker: &Option<ContainerTracker>, request: Option<RuntimeConfig>) -> (r:
    Option<RuntimeConfig>)
    ensures
        r.deep_view() == chosen_runtime(tracker.deep_view(), request.deep_view()),
{
    match request {
        Some(runtime) => Some(runtime),
        None => match tracker {
            Some(tracker) => tracker.runtime.duplicate(),
            None => None,
        },
    }
}

/// How a request for the power of a container is carried out.
#[derive(Debug, Clone)]
pub struct PowerPlan {
    pub uuid: String,
    /// How the server starts and stops, where that is set first.
    pub runtime: Option<RuntimeConfig>,
}

/// What a [`PowerPlan`] holds.
#[verifier::ext_equal]
pub struct PowerPlanView {
    pub uuid: Seq<char>,
    pub runtime: Option<RuntimeConfigView>,
}

impl DeepView for PowerPlan {
    type V = PowerPlanView;

    open spec fn deep_view(&self) -> PowerPlanView {
        PowerPlanView {
            uuid: self.uuid@,
            runtime: self.runtime.deep_view(),
        }
    }
}

/// How a request for the power of a container is carried out, or why it is not. A kill takes no
/// notice of how the server stops.
pub open spec fn power_plan(
    request: PowerRequest,
    id: Seq<char>,
    state: Option<ContainerStateView>,
    suspended: bool,
    found: Option<Seq<char>>,
    tracker: Option<ContainerTrackerView>,
    body: Option<RuntimeConfigView>,
) -> Result<PowerPlanView, Seq<char>> {
    match power_refusal(request, state, suspended) {
        Some(message) => Err(message),
        None => Ok(
            PowerPlanView {
                uuid: match found {
                    Some(uuid) => uuid,
                    None => id,
                },
                runtime: match request {
                    PowerRequest::Start => chosen_runtime(tracker, body),
                    PowerRequest::Stop => chosen_runtime(tracker, body),
                    PowerRequest::Restart => chosen_runtime(tracker, None),
                    _ => None,
                },
            },
        ),
    }
}

/// What a start is to do, or why it is refused.
pub open spec fn start_plan(
    id: Seq<char>,
    state: Option<ContainerStateView>,
    suspended: bool,
    found: Option<Seq<char>>,
    tracker: Option<ContainerTrackerView>,
    body: Option<RuntimeConfigView>,
) -> Result<PowerPlanView, Seq<char>> {
    power_plan(PowerRequest::Start, id, state, suspended, found, tracker, body)
}

/// What a stop is to do, or why it is refused.
pub open spec fn stop_plan(
    id: Seq<char>,
    state: Option<ContainerStateView>,
    found: Option<Seq<char>>,
    tracker: Option<ContainerTrackerView>,
    body: Option<RuntimeConfigView>,
) -> Result<PowerPlanView, Seq<char>> {
    power_plan(PowerRequest::Stop, id, state, false, found, tracker, body)
}

/// What a kill is to do, or why it is refused.
pub open spec fn kill_plan(
    id: Seq<char>,
    state: Option<ContainerStateView>,
    found: Option<Seq<char>>,
) -> Result<PowerPlanView, Seq<char>> {
    power_plan(PowerRequest::Kill, id, state, false, found, None, None)
}

/// What a restart is to do, or why it is refused.
pub open spec fn restart_plan(
    id: Seq<char>,
    state: Option<ContainerStateView>,
    suspended: bool,
    found: Option<Seq<char>>,
    tracker: Option<ContainerTrackerView>,
) -> Result<PowerPlanView, Seq<char>> {
    power_plan(PowerRequest::Restart, id, state, suspended, found, tracker, None)
}

/// What a recreation is to do, or why it is refused.
pub open spec fn recreate_plan(
    id: Seq<char>,
    state: Option<ContainerStateView>,
    found: Option<Seq<char>>,
) -> Result<PowerPlanView, Seq<char>> {
    power_plan(PowerRequest::Recreate, id, state, false, found, None, None)
}

/// How the start of a container is carried out, given its state, whether it is suspended, its
/// UUID where it is known, its record, and what the request says of its server.
pub fn start_container(
    id: &str,
    state: &Option<ContainerState>,
    suspended: bool,
    found: Option<String>,
    tracker: &Option<ContainerTracker>,
    body: Option<RuntimeConfig>,
) -> (r: Result<PowerPlan, String>)
    ensures
        result_view(r) == start_plan(
            id@,
            state.deep_view(),
            suspended,
            found.deep_view(),
            tracker.deep_view(),
            body.deep_view(),
        ),
{
    if let Some(message) = refuse_power(PowerRequest::Start, state, suspended) {
        return Err(message);
    }
    Ok(PowerPlan { uuid: uuid_or_id(id, found), runtime: choose_runtime(tracker, body) })
}

/// How the stop of a container is carried out. A suspended container may be stopped.
pub fn stop_container(
    id: &str,
    state: &Option<ContainerState>,
    found: Option<String>,
    tracker: &Option<ContainerTracker>,
    body: Option<RuntimeConfig>,
) -> (r: Result<PowerPlan, String>)
    ensures
        result_view(r) == stop_plan(
            id@,
            state.deep_view(),
            found.deep_view(),
            tracker.deep_view(),
            body.deep_view(),
        ),
{
    if let Some(message) = refuse_power(PowerRequest::Stop, state, false) {
        return Err(message);
    }
    Ok(PowerPlan { uuid: uuid_or_id(id, found), runtime: choose_runtime(tracker, body) })
}

/// How the kill of a container is carried out.
pub fn kill_container(id: &str, state: &Option<ContainerState>, found: Option<String>) -> (r: Result<
    PowerPlan,
    String,
>)
    ensures
        result_view(r) == kill_plan(id@, state.deep_view(), found.deep_view()),
{
    if let Some(message) = refuse_power(PowerRequest::Kill, state, false) {
        return Err(message);
    }
    Ok(PowerPlan { uuid: uuid_or_id(id, found), runtime: None })
}

/// How the restart of a container is carried out.
pub fn restart_container(
    id: &str,
    state: &Option<ContainerState>,
    suspended: bool,
    found: Option<String>,
    tracker: &Option<ContainerTracker>,
) -> (r: Result<PowerPlan, String>)
    ensures
        result_view(r) == restart_plan(
            id@,
            state.deep_view(),
            suspended,
            found.deep_view(),
            tracker.deep_view(),
        ),
{
    if let Some(message) = refuse_power(PowerRequest::Restart, state, suspended) {
        return Err(message);
    }
    Ok(PowerPlan { uuid: uuid_or_id(id, found), runtime: choose_runtime(tracker, None) })
}

/// How the recreation of a container on request is carried out: the container is that of the
/// UUID, and the panel is told.
pub fn recreate_container(id: &str, state: &Option<ContainerState>, found: Option<String>) -> (r:
    Result<PowerPlan, String>)
    ensures
        result_view(r) == recreate_plan(id@, state.deep_view(), found.deep_view()),
{
    if let Some(message) = refuse_power(PowerRequest::Recreate, state, false) {
        return Err(message);
    }
    Ok(PowerPlan { uuid: uuid_or_id(id, found), runtime: None })
}

/// What the panel is told when work that went on unseen is over.
pub open spec fn outcome_notice(
    failure: Option<Seq<char>>,
    success: Option<Seq<char>>,
    prefix: Seq<char>,
) -> TaskView {
    attempt(
        match failure {
            None => ActionView::Notify { status: "install_success"@, message: success },
            Some(e) => ActionView::Notify { status: "install_failed"@, message: Some(prefix + e) },
        },
    )
}

/// Why a result is a failure, where it is one.
pub open spec fn failure_of<T>(result: Result<T, String>) -> Option<Seq<char>> {
    match result {
        Ok(_) => None,
        Err(e) => Some(e@),
    }
}

fn notice(result: &Result<String, String>, success: Option<String>, prefix: &str) -> (r: Task)
    ensures
        r.deep_view() == outcome_notice(failure_of(*result), success.deep_view(), prefix@),
{
    match result {
        Ok(_) => Task::attempt(
            Action::Notify { status: "install_success".to_string(), message: success },
        ),
        Err(e) => Task::attempt(
            Action::Notify {
                status: "install_failed".to_string(),
                message: Some(cat2(prefix, e.as_str())),
            },
        ),
    }
}

/// What the panel is told when the recreation of a container begins.
pub fn recreation_notice() -> (r: Task)
    ensures
        r.deep_view() == attempt(
            ActionView::Notify {
                status: "recreating"@,
                message: Some("Container recreation in progress"@),
            },
        ),
{
    Task::attempt(
        Action::Notify {
            status: "recreating".to_string(),
            message: Some("Container recreation in progress".to_string()),
        },
    )
}

/// What is told once a recreation is over.
pub open spec fn recreation_told(failure: Option<Seq<char>>) -> TaskView {
    outcome_notice(failure, Some("Container recreated successfully"@), "Recreation failed: "@)
}

/// What is told once a change of the configuration is over.
pub open spec fn config_update_told(failure: Option<Seq<char>>) -> TaskView {
    outcome_notice(
        failure,
        Some("Configuration updated successfully"@),
        "Config update failed: "@,
    )
}

/// What is told once an installation is over.
pub open spec fn installation_told(failure: Option<Seq<char>>) -> TaskView {
    outcome_notice(failure, None, ""@)
}

/// What the panel is told when a container was recreated on request.
pub fn recreation_over(result: &Result<String, String>) -> (r: Task)
    ensures
        r.deep_view() == recreation_told(failure_of(*result)),
{
    notice(
        result,
        Some("Container recreated successfully".to_string()),
        "Recreation failed: ",
    )
}

/// What the panel is told when the configuration of a container was changed.
pub fn config_update_over(result: &Result<String, String>) -> (r: Task)
    ensures
        r.deep_view() == config_update_told(failure_of(*result)),
{
    notice(
        result,
        Some("Configuration updated successfully".to_string()),
        "Config update failed: ",
    )
}

/// What the panel is told when a container was installed anew.
pub fn installation_over(result: &Result<String, String>) -> (r: Task)
    ensures
        r.deep_view() == installation_told(failure_of(*result)),
{
    notice(result, None, "")
}

/// The answer to a suspension.
#[derive(Debug, Clone)]
pub struct SuspendAccepted {
    pub status: String,
    pub action_id: String,
    pub reason: String,
    pub message: String,
}

/// What a [`SuspendAccepted`] holds.
#[verifier::ext_equal]
pub struct SuspendAcceptedView {
    pub status: Seq<char>,
    pub action_id: Seq<char>,
    pub reason: Seq<char>,
    pub message: Seq<char>,
}

impl DeepView for SuspendAccepted {
    type V = SuspendAcceptedView;

    open spec fn deep_view(&self) -> SuspendAcceptedView {
        SuspendAcceptedView {
            status: self.status@,
            action_id: self.action_id@,
            reason: self.reason@,
            message: self.message@,
        }
    }
}

/// Why a container is suspended, where nobody says.
pub open spec fn suspend_reason(message: Option<Seq<char>>) -> Seq<char> {
    match message {
        Some(reason) => reason,
        None => "Container suspended by administrator"@,
    }
}

/// Why a container is suspended, and its UUID, or why it may not be suspended.
pub open spec fn suspension(
    id: Seq<char>,
    message: Option<Seq<char>>,
    found: Option<(Seq<char>, bool)>,
) -> Result<(Seq<char>, Seq<char>), Seq<char>> {
    match found {
        Some((_, true)) => Err("Container is already suspended"@),
        Some((uuid, false)) => Ok((suspend_reason(message), uuid)),
        None => Ok((suspend_reason(message), id)),
    }
}

/// The reason and the UUID with which a container is suspended, or why it is not: it is suspended
/// already. `found` is the UUID under which it is known and whether it is suspended.
pub fn suspend_container(id: &str, message: Option<String>, found: Option<(String, bool)>) -> (r:
    Result<(String, String), String>)
    ensures
        result_view(r) == suspension(id@, message.deep_view(), found.deep_view()),
{
    let reason = match message {
        Some(reason) => reason,
        None => "Container suspended by administrator".to_string(),
    };
    match found {
        Some((uuid, suspended)) => if suspended {
            Err("Container is already suspended".to_string())
        } else {
            Ok((reason, uuid))
        },
        None => Ok((reason, id.to_string())),
    }
}

/// The answer to a suspension that was sent.
pub open spec fn suspend_answer(
    id: Seq<char>,
    action_id: Seq<char>,
    reason: Seq<char>,
) -> SuspendAcceptedView {
    SuspendAcceptedView {
        status: "accepted"@,
        action_id,
        reason,
        message: "Suspend action sent for container "@ + id,
    }
}

/// What follows a suspension that was sent: it is remembered, and what the container uses is not
/// counted any more.
pub open spec fn suspend_tasks(reason: Seq<char>) -> Seq<TaskView> {
    seq![attempt(ActionView::Suspend(reason)), attempt(ActionView::DisableBilling)]
}

/// What a suspension does, and what is answered, given the action that was sent or why not.
pub open spec fn suspension_sent(
    id: Seq<char>,
    reason: Seq<char>,
    sent: Result<Seq<char>, Seq<char>>,
) -> (Seq<TaskView>, ApiResponseView<SuspendAcceptedView>) {
    match sent {
        Ok(action_id) => (
            suspend_tasks(reason),
            success_reply(suspend_answer(id, action_id, reason)),
        ),
        Err(e) => (Seq::empty(), error_reply(e)),
    }
}

/// What follows a suspension and its answer, given what came of sending it.
pub fn suspend_reply(id: &str, reason: String, sent: Result<String, String>) -> (r: (
    Vec<Task>,
    ApiResponse<SuspendAccepted>,
))
    ensures
        (r.0.deep_view(), r.1.deep_view()) == suspension_sent(id@, reason@, result_view(sent)),
{
    let mut tasks: Vec<Task> = Vec::new();
    match sent {
        Ok(action_id) => {
            tasks.push(Task::attempt(Action::Suspend(reason.clone())));
            tasks.push(Task::attempt(Action::DisableBilling));
            assert(tasks.deep_view() =~= suspend_tasks(reason@));
            let answer = SuspendAccepted {
                status: "accepted".to_string(),
                action_id,
                reason,
                message: cat2("Suspend action sent for container ", id),
            };
            (tasks, ApiResponse::success(answer))
        },
        Err(e) => {
            assert(tasks.deep_view() =~= Seq::<TaskView>::empty());
            (tasks, ApiResponse::error(e))
        },
    }
}

/// What the end of a suspension does: it is remembered, the record says that the container is
/// stopped, and what it uses is counted again.
pub open spec fn unsuspend_tasks() -> Seq<TaskView> {
    seq![
        attempt(ActionView::Unsuspend),
        attempt(ActionView::TrackStatus("stopped"@)),
        attempt(ActionView::EnableBilling),
    ]
}

/// What ends a suspension does, and what is said of it, or why there is none to end.
pub open spec fn unsuspension(
    id: Seq<char>,
    message: Option<Seq<char>>,
    suspended: Option<bool>,
) -> Result<(Seq<TaskView>, Seq<char>), Seq<char>> {
    match suspended {
        None => Err("Container not found in daemon state"@),
        Some(false) => Err("Container is not suspended"@),
        Some(true) => Ok(
            (
                unsuspend_tasks(),
                "Container "@ + id + " unsuspended: "@ + (match message {
                    Some(reason) => reason,
                    None => "Container unsuspended by administrator"@,
                }) + ". Container is now stopped and can be started."@,
            ),
        ),
    }
}

/// What the end of a suspension does and its answer, or why it does not end. `suspended` is `None`
/// where the container is not known.
pub fn unsuspend_container(id: &str, message: Option<String>, suspended: Option<bool>) -> (r:
    Result<(Vec<Task>, String), String>)
    ensures
        result_view(r) == unsuspension(id@, message.deep_view(), suspended),
{
    let reason = match message {
        Some(reason) => reason,
        None => "Container unsuspended by administrator".to_string(),
    };
    match suspended {
        None => Err("Container not found in daemon state".to_string()),
        Some(false) => Err("Container is not suspended".to_string()),
        Some(true) => {
            let mut tasks: Vec<Task> = Vec::new();
            tasks.push(Task::attempt(Action::Unsuspend));
            tasks.push(Task::attempt(Action::TrackStatus("stopped".to_string())));
            tasks.push(Task::attempt(Action::EnableBilling));
            assert(tasks.deep_view() =~= unsuspend_tasks());
            let head = cat4("Container ", id, " unsuspended: ", reason.as_str());
            Ok((tasks, cat2(head.as_str(), ". Container is now stopped and can be started.")))
        },
    }
}

/// What a suspended container is spared.
#[derive(Debug, Clone, Copy, PartialEq, Eq, Structural)]
pub enum Access {
    Attach,
    Execute,
    Update,
    Install,
    Limits,
}

/// What is said to whoever asks for it.
pub open spec fn suspended_message(access: Access) -> Seq<char> {
    match access {
        Access::Attach => "Cannot attach to suspended container"@,
        Access::Execute => "Cannot execute commands in suspended container"@,
        Access::Update => "Cannot update suspended container"@,
        Access::Install => "Cannot install on suspended container"@,
        Access::Limits => "Cannot update limits of suspended container"@,
    }
}

/// Why a container may not be accessed: it is known, and suspended.
pub fn refuse_access(access: Access, suspended: Option<bool>) -> (r: Option<String>)
    ensures
        r.deep_view() == if suspended == Some(true) {
            Some(suspended_message(access))
        } else {
            None
        },
{
    match check_container_suspended(suspended) {
        Ok(true) => Some(
            match access {
                Access::Attach => "Cannot attach to suspended container".to_string(),
                Access::Execute => "Cannot execute commands in suspended container".to_string(),
                Access::Update => "Cannot update suspended container".to_string(),
                Access::Install => "Cannot install on suspended container".to_string(),
                Access::Limits => "Cannot update limits of suspended container".to_string(),
            },
        ),
        _ => None,
    }
}

/// Why a container may not be changed: it is suspended, not known, or locked.
pub open spec fn change_refusal(
    access: Access,
    suspended: Option<bool>,
    state: Option<ContainerStateView>,
) -> Option<Seq<char>> {
    if suspended == Some(true) {
        Some(suspended_message(access))
    } else {
        match state {
            None => Some("Container not found in daemon state"@),
            Some(state) => if is_locked(state) {
                Some("Container is currently locked (installing/updating)"@)
            } else {
                None
            },
        }
    }
}

/// Why a container may not be changed.
pub fn refuse_change(access: Access, suspended: Option<bool>, state: &Option<ContainerState>) -> (r:
    Option<String>)
    ensures
        r.deep_view() == change_refusal(access, suspended, state.deep_view()),
{
    match refuse_access(access, suspended) {
        Some(message) => Some(message),
        None => match state {
            None => Some("Container not found in daemon state".to_string()),
            Some(state) => if locked(state) {
                Some("Container is currently locked (installing/updating)".to_string())
            } else {
                None
            },
        },
    }
}

/// The answer to a request for a shell, given the session that was opened.
pub fn attach_container(id: &str, exec_id: String) -> (r: AttachResponse)
    ensures
        r.deep_view() == (AttachResponseView {
            exec_id: exec_id@,
            container_id: id@,
            status: "shell_session_created"@,
        }),
{
    AttachResponse {
        exec_id,
        container_id: id.to_string(),
        status: "shell_session_created".to_string(),
    }
}

/// What follows the removal of a container: its ports are given back, and what is remembered and
/// recorded of it is taken away, where there is any.
pub open spec fn removal_tasks(
    id: Seq<char>,
    remembered: Option<Seq<char>>,
    recorded: Option<Seq<char>>,
) -> Seq<TaskView> {
    seq![attempt(ActionView::ReleaseContainerPorts(id))] + (match remembered {
        Some(uuid) => seq![attempt(ActionView::RemoveState(uuid))],
        None => Seq::empty(),
    }) + (match recorded {
        Some(uuid) => seq![attempt(ActionView::RemoveTracker(uuid))],
        None => Seq::empty(),
    })
}

/// What follows the removal of a container by the engine, and what is answered.
pub open spec fn removal(
    id: Seq<char>,
    result: Result<(), Seq<char>>,
    remembered: Option<Seq<char>>,
    recorded: Option<Seq<char>>,
) -> (Seq<TaskView>, ApiResponseView<Seq<char>>) {
    match result {
        Ok(_) => (
            removal_tasks(id, remembered, recorded),
            success_reply("Container "@ + id + " removed"@),
        ),
        Err(e) => (Seq::empty(), error_reply(e)),
    }
}

/// What follows the removal of a container and its answer, given whether the engine removed it, and
/// the UUIDs under which it is remembered and recorded.
pub fn remove_container(
    id: &str,
    result: Result<(), String>,
    remembered: Option<String>,
    recorded: Option<String>,
) -> (r: (Vec<Task>, ApiResponse<String>))
    ensures
        (r.0.deep_view(), r.1.deep_view()) == removal(
            id@,
            result_view(result),
            remembered.deep_view(),
            recorded.deep_view(),
        ),
{
    let mut tasks: Vec<Task> = Vec::new();
    match result {
        Ok(_) => {
            let ghost known = (remembered.deep_view(), recorded.deep_view());
            tasks.push(Task::attempt(Action::ReleaseContainerPorts(id.to_string())));
            if let Some(uuid) = remembered {
                tasks.push(Task::attempt(Action::RemoveState(uuid)));
            }
            if let Some(uuid) = recorded {
                tasks.push(Task::attempt(Action::RemoveTracker(uuid)));
            }
            assert(tasks.deep_view() =~= removal_tasks(id@, known.0, known.1));
            (tasks, ApiResponse::success(cat3("Container ", id, " removed")))
        },
        Err(e) => {
            assert(tasks.deep_view() =~= Seq::<TaskView>::empty());
            (tasks, ApiResponse::error(e))
        },
    }
}

/// Whether the log of a container is followed, and how much of it is asked for. It is not followed
/// where nobody says.
pub fn get_container_logs(request: LogsRequest) -> (r: (bool, Option<String>))
    ensures
        r.0 == (request.follow == Some(true)),
        r.1.deep_view() == request.tail.deep_view(),
{
    let follow = match request.follow {
        Some(follow) => follow,
        None => false,
    };
    (follow, request.tail)
}

/// Whether a container is restarted for new limits. It is not where nobody says.
pub fn restarts_for_limits(request: &UpdateLimitsRequest) -> (r: bool)
    ensures
        r == (request.restart_container == Some(true)),
{
    match request.restart_container {
        Some(restart) => restart,
        None => false,
    }
}

/// What follows new limits that the engine took: the daemon remembers them, and they are written
/// into the record of the container where there is one.
pub open spec fn limits_tasks(
    limits: ResourceLimitsView,
    tracker: Option<ContainerTrackerView>,
) -> Seq<TaskView> {
    seq![attempt(ActionView::SetLimits(limits))] + match tracker {
        Some(tracker) => seq![
            attempt(ActionView::SaveTracker(ContainerTrackerView { limits, ..tracker })),
        ],
        None => Seq::empty(),
    }
}

/// What follows new limits that the engine took.
pub fn update_container_limits(limits: &ResourceLimits, tracker: Option<ContainerTracker>) -> (r:
    Vec<Task>)
    ensures
        r.deep_view() == limits_tasks(limits.deep_view(), tracker.deep_view()),
{
    let mut r: Vec<Task> = Vec::new();
    r.push(Task::attempt(Action::SetLimits(limits.duplicate())));
    match tracker {
        Some(tracker) => {
            let mut updated = tracker;
            updated.limits = limits.duplicate();
            r.push(Task::attempt(Action::SaveTracker(updated)));
        },
        None => {},
    }
    assert(r.deep_view() =~= limits_tasks(limits.deep_view(), tracker.deep_view()));
    r
}

/// How far the installation of a container has come, as its state shows it.
pub open spec fn status_of(state: ContainerStateView) -> InstallationStatusView {
    InstallationStatusView {
        status: state.state,
        progress: state.lock_reason,
        logs: None,
        container_id: state.container_id,
    }
}

/// The status of the container that either lookup found; the first counts.
pub open spec fn found_status(
    by_container_id: Option<ContainerStateView>,
    by_uuid: Option<ContainerStateView>,
) -> ApiResponseView<InstallationStatusView> {
    match (by_container_id, by_uuid) {
        (Some(state), _) => success_reply(status_of(state)),
        (None, Some(state)) => success_reply(status_of(state)),
        (None, None) => error_reply("Container not found in daemon state"@),
    }
}

/// How far the installation of a container has come. Its state is looked up by the container of
/// the engine first, and then by the UUID.
pub fn get_container_status(
    by_container_id: &Option<ContainerState>,
    by_uuid: &Option<ContainerState>,
) -> (r: ApiResponse<InstallationStatus>)
    ensures
        r.deep_view() == found_status(by_container_id.deep_view(), by_uuid.deep_view()),
{
    let found = match by_container_id {
        Some(state) => Some(state),
        None => match by_uuid {
            Some(state) => Some(state),
            None => None,
        },
    };
    match found {
        Some(state) => ApiResponse::success(
            InstallationStatus {
                status: state.state.clone(),
                progress: state.lock_reason.duplicate(),
                logs: None,
                container_id: state.container_id.duplicate(),
            },
        ),
        None => ApiResponse::error("Container not found in daemon state".to_string()),
    }
}

/// States that only the daemon knows of; the engine is not asked.
pub open spec fn is_special_state(state: Seq<char>) -> bool {
    ||| state == "install_failed"@
    ||| state == "installing"@
    ||| state == "suspended"@
    ||| state == "creating"@
    ||| state == "failed"@
}

/// Whether a state is one that only the daemon knows of.
pub fn is_special(state: &str) -> (r: bool)
    ensures
        r == is_special_state(state@),
{
    same_text(state, "install_failed") || same_text(state, "installing") || same_text(
        state,
        "suspended",
    ) || same_text(state, "creating") || same_text(state, "failed")
}

/// The state that the engine tells.
pub open spec fn engine_state_text(state: EngineState) -> Seq<char> {
    if state.oom_killed == Some(true) {
        "oom_killed"@
    } else if state.running == Some(true) {
        "running"@
    } else if state.paused == Some(true) {
        "paused"@
    } else if state.restarting == Some(true) {
        "restarting"@
    } else if state.dead == Some(true) {
        "dead"@
    } else if state.exit_code == Some(137i64) {
        "oom_killed"@
    } else {
        "stopped"@
    }
}

/// The state of a container while an action is under way.
pub open spec fn pending_state_text(action: Seq<char>, running: bool) -> Seq<char> {
    if action == "start"@ {
        "starting"@
    } else if action == "stop"@ || action == "kill"@ {
        "stopping"@
    } else if action == "restart"@ {
        if running {
            "stopping"@
        } else {
            "starting"@
        }
    } else {
        "unknown"@
    }
}

/// The state in which a container is shown: one that only the daemon knows of, else that of the
/// action under way, else what the engine tells, where it answers.
pub open spec fn shown_state(
    remembered: Seq<char>,
    pending: Option<Seq<char>>,
    engine: Option<EngineState>,
) -> Seq<char> {
    if is_special_state(remembered) {
        remembered
    } else {
        match pending {
            Some(action) => pending_state_text(
                action,
                engine is Some && engine->0.running == Some(true),
            ),
            None => match engine {
                Some(state) => engine_state_text(state),
                None => "unknown"@,
            },
        }
    }
}

fn is_true(flag: Option<bool>) -> (r: bool)
    ensures
        r == (flag == Some(true)),
{
    match flag {
        Some(b) => b,
        None => false,
    }
}

/// The state in which a container is shown.
pub fn show_state(
    remembered: &str,
    pending: &Option<String>,
    engine: &Option<EngineState>,
) -> (r: String)
    ensures
        r@ == shown_state(remembered@, pending.deep_view(), *engine),
{
    if is_special(remembered) {
        return remembered.to_string();
    }
    match pending {
        Some(action) => {
            let action = action.as_str();
            let running = match engine {
                Some(state) => is_true(state.running),
                None => false,
            };
            if same_text(action, "start") {
                "starting".to_string()
            } else if same_text(action, "stop") || same_text(action, "kill") {
                "stopping".to_string()
            } else if same_text(action, "restart") {
                if running {
                    "stopping".to_string()
                } else {
                    "starting".to_string()
                }
            } else {
                "unknown".to_string()
            }
        },
        None => match engine {
            Some(state) => {
                let killed_by_signal = match state.exit_code {
                    Some(code) => code == 137,
                    None => false,
                };
                if is_true(state.oom_killed) {
                    "oom_killed".to_string()
                } else if is_true(state.running) {
                    "running".to_string()
                } else if is_true(state.paused) {
                    "paused".to_string()
                } else if is_true(state.restarting) {
                    "restarting".to_string()
                } else if is_true(state.dead) {
                    "dead".to_string()
                } else if killed_by_signal {
                    "oom_killed".to_string()
                } else {
                    "stopped".to_string()
                }
            },
            None => "unknown".to_string(),
        },
    }
}

/// The container of which the engine is asked for the state, where it is asked at all.
pub open spec fn asked_of_engine(state: Option<ContainerStateView>) -> Option<Seq<char>> {
    match state {
        Some(state) if !is_special_state(state.state) => state.container_id,
        _ => None,
    }
}

/// The container of the engine that is asked about a container that is looked up: none where the
/// daemon alone knows its state, or where there is none.
pub fn engine_to_ask(state: &Option<ContainerState>) -> (r: Option<String>)
    ensures
        r.deep_view() == asked_of_engine(state.deep_view()),
{
    match state {
        Some(state) => if is_special(state.state.as_str()) {
            None
        } else {
            state.container_id.duplicate()
        },
        None => None,
    }
}

/// The container that a UUID stands for, given its state where it is known, the action under way
/// and what the engine tells.
pub open spec fn lookup_reply(
    uuid: Seq<char>,
    state: Option<ContainerStateView>,
    pending: Option<Seq<char>>,
    engine: Option<EngineState>,
) -> ApiResponseView<ContainerLookupResponseView> {
    match state {
        None => error_reply("Container not found with this UUID"@),
        Some(state) => match state.container_id {
            None => error_reply("Container ID not found for this UUID"@),
            Some(container_id) => success_reply(
                ContainerLookupResponseView {
                    uuid,
                    container_id,
                    name: state.name,
                    state: shown_state(state.state, pending, engine),
                    image: state.image,
                    locked: state.locked,
                    lock_reason: state.lock_reason,
                },
            ),
        },
    }
}

/// The container that a UUID stands for.
pub fn get_container_by_uuid(
    uuid: &str,
    state: &Option<ContainerState>,
    pending: &Option<String>,
    engine: &Option<EngineState>,
) -> (r: ApiResponse<ContainerLookupResponse>)
    ensures
        r.deep_view() == lookup_reply(
            uuid@,
            state.deep_view(),
            pending.deep_view(),
            *engine,
        ),
{
    match state {
        None => ApiResponse::error("Container not found with this UUID".to_string()),
        Some(state) => match &state.container_id {
            None => ApiResponse::error("Container ID not found for this UUID".to_string()),
            Some(container_id) => ApiResponse::success(
                ContainerLookupResponse {
                    uuid: uuid.to_string(),
                    container_id: container_id.clone(),
                    name: state.name.clone(),
                    state: show_state(state.state.as_str(), pending, engine),
                    image: state.image.clone(),
                    locked: state.locked,
                    lock_reason: state.lock_reason.duplicate(),
                },
            ),
        },
    }
}

/// An action on the power of a container that was sent to be executed.
#[derive(Debug, Clone)]
pub struct PowerActionRecord {
    pub action_id: String,
    pub container_id: String,
    pub container_uuid: String,
    pub action: String,
    pub status: String,
    pub message: Option<String>,
    pub started_at: Timestamp,
    pub completed_at: Option<Timestamp>,
}

/// What a [`PowerActionRecord`] holds.
#[verifier::ext_equal]
pub struct PowerActionRecordView {
    pub action_id: Seq<char>,
    pub container_id: Seq<char>,
    pub container_uuid: Seq<char>,
    pub action: Seq<char>,
    pub status: Seq<char>,
    pub message: Option<Seq<char>>,
    pub started_at: Timestamp,
    pub completed_at: Option<Timestamp>,
}

impl DeepView for PowerActionRecord {
    type V = PowerActionRecordView;

    open spec fn deep_view(&self) -> PowerActionRecordView {
        PowerActionRecordView {
            action_id: self.action_id@,
            container_id: self.container_id@,
            container_uuid: self.container_uuid@,
            action: self.action@,
            status: self.status@,
            message: self.message.deep_view(),
            started_at: self.started_at,
            completed_at: self.completed_at,
        }
    }
}

/// How such an action stands, as it is told: its times are texts.
#[derive(Debug, Clone)]
pub struct PowerActionStatus {
    pub action_id: String,
    pub container_id: String,
    pub container_uuid: String,
    pub action: String,
    pub status: String,
    pub message: Option<String>,
    pub started_at: String,
    pub completed_at: Option<String>,
}

/// What a [`PowerActionStatus`] holds.
#[verifier::ext_equal]
pub struct PowerActionStatusView {
    pub action_id: Seq<char>,
    pub container_id: Seq<char>,
    pub container_uuid: Seq<char>,
    pub action: Seq<char>,
    pub status: Seq<char>,
    pub message: Option<Seq<char>>,
    pub started_at: Seq<char>,
    pub completed_at: Option<Seq<char>>,
}

impl DeepView for PowerActionStatus {
    type V = PowerActionStatusView;

    open spec fn deep_view(&self) -> PowerActionStatusView {
        PowerActionStatusView {
            action_id: self.action_id@,
            container_id: self.container_id@,
            container_uuid: self.container_uuid@,
            action: self.action@,
            status: self.status@,
            message: self.message.deep_view(),
            started_at: self.started_at@,
            completed_at: self.completed_at.deep_view(),
        }
    }
}

/// How an action stands, given the texts of its times.
pub open spec fn action_status(
    record: PowerActionRecordView,
    started_at: Seq<char>,
    completed_at: Option<Seq<char>>,
) -> PowerActionStatusView {
    PowerActionStatusView {
        action_id: record.action_id,
        container_id: record.container_id,
        container_uuid: record.container_uuid,
        action: record.action,
        status: record.status,
        message: record.message,
        started_at,
        completed_at,
    }
}

/// How an action stands, given the texts of its times.
pub fn status_of_action(
    record: PowerActionRecord,
    started_at: String,
    completed_at: Option<String>,
) -> (r: PowerActionStatus)
    ensures
        r.deep_view() == action_status(
            record.deep_view(),
            started_at@,
            completed_at.deep_view(),
        ),
{
    PowerActionStatus {
        action_id: record.action_id,
        container_id: record.container_id,
        container_uuid: record.container_uuid,
        action: record.action,
        status: record.status,
        message: record.message,
        started_at,
        completed_at,
    }
}

/// The status of the action that was found under a name.
pub open spec fn found_action(
    action_id: Seq<char>,
    found: Option<PowerActionRecordView>,
) -> ApiResponseView<PowerActionStatusView> {
    match found {
        Some(record) => success_reply(
            action_status(
                record,
                rfc3339_text(record.started_at.secs, record.started_at.nanos),
                match record.completed_at {
                    Some(time) => Some(rfc3339_text(time.secs, time.nanos)),
                    None => None,
                },
            ),
        ),
        None => error_reply("Action "@ + action_id + " not found"@),
    }
}

/// How an action stands, or that it is not known.
pub fn get_power_action_status(action_id: &str, found: Option<PowerActionRecord>) -> (r:
    ApiResponse<PowerActionStatus>)
    ensures
        r.deep_view() == found_action(action_id@, found.deep_view()),
{
    match found {
        Some(record) => {
            let started_at = write_rfc3339(record.started_at);
            let completed_at = match record.completed_at {
                Some(time) => Some(write_rfc3339(time)),
                None => None,
            };
            ApiResponse::success(status_of_action(record, started_at, completed_at))
        },
        None => ApiResponse::error(cat3("Action ", action_id, " not found")),
    }
}

/// Whether an action is under way for a container.
#[derive(Debug, Clone)]
pub struct PendingAction {
    pub has_pending_action: bool,
    pub action_id: Option<String>,
    pub status: Option<String>,
}

/// What a [`PendingAction`] holds.
#[verifier::ext_equal]
pub struct PendingActionView {
    pub has_pending_action: bool,
    pub action_id: Option<Seq<char>>,
    pub status: Option<Seq<char>>,
}

impl DeepView for PendingAction {
    type V = PendingActionView;

    open spec fn deep_view(&self) -> PendingActionView {
        PendingActionView {
            has_pending_action: self.has_pending_action,
            action_id: self.action_id.deep_view(),
            status: self.status.deep_view(),
        }
    }
}

/// What is told of the action that is under way for a container.
pub open spec fn pending_action(found: Option<(Seq<char>, Option<Seq<char>>)>) -> PendingActionView {
    match found {
        Some((action_id, status)) => PendingActionView {
            has_pending_action: true,
            action_id: Some(action_id),
            status,
        },
        None => PendingActionView { has_pending_action: false, action_id: None, status: None },
    }
}

/// Whether an action is under way for a container, given its identifier and how it stands.
pub fn get_container_pending_action(found: Option<(String, Option<String>)>) -> (r: PendingAction)
    ensures
        r.deep_view() == pending_action(found.deep_view()),
{
    match found {
        Some((action_id, status)) => PendingAction {
            has_pending_action: true,
            action_id: Some(action_id),
            status,
        },
        None => PendingAction { has_pending_action: false, action_id: None, status: None },
    }
}

/// What is answered where a container was to be unlocked by force.
pub open spec fn unlock_reply(
    uuid: Seq<char>,
    known: bool,
    result: Result<(), Seq<char>>,
) -> ApiResponseView<ActionAcceptedView> {
    if !known {
        error_reply("Container not found"@)
    } else {
        match result {
            Ok(_) => success_reply(
                ActionAcceptedView {
                    status: "ok"@,
                    message: "Container "@ + uuid + " unlocked"@,
                },
            ),
            Err(e) => error_reply("Failed to unlock: "@ + e),
        }
    }
}

/// The answer to a request to unlock a container by force. `result` is what came of it; it is
/// only tried on a container that is known.
pub fn force_unlock_container(uuid: &str, known: bool, result: Result<(), String>) -> (r:
    ApiResponse<ActionAccepted>)
    ensures
        r.deep_view() == unlock_reply(uuid@, known, result_view(result)),
{
    if !known {
        return ApiResponse::error("Container not found".to_string());
    }
    match result {
        Ok(_) => ApiResponse::success(
            ActionAccepted {
                status: "ok".to_string(),
                message: cat3("Container ", uuid, " unlocked"),
            },
        ),
        Err(e) => ApiResponse::error(cat2("Failed to unlock: ", e.as_str())),
    }
}

/// The end of a suspension undoes what the suspension did.
pub proof fn law_unsuspend_undoes_suspend(reason: Seq<char>)
    ensures
        has_action(suspend_tasks(reason), ActionView::Suspend(reason)),
        has_action(unsuspend_tasks(), ActionView::Unsuspend),
        has_action(suspend_tasks(reason), ActionView::DisableBilling),
        has_action(unsuspend_tasks(), ActionView::EnableBilling),
{
    assert(suspend_tasks(reason)[0].action == ActionView::Suspend(reason));
    assert(suspend_tasks(reason)[1].action == ActionView::DisableBilling);
    assert(unsuspend_tasks()[0].action == ActionView::Unsuspend);
    assert(unsuspend_tasks()[2].action == ActionView::EnableBilling);
}

/// A container that is locked, or that is being installed or updated, is not touched by any
/// request for its power.
pub proof fn law_locked_is_left_alone(
    request: PowerRequest,
    state: ContainerStateView,
    suspended: bool,
)
    requires
        is_locked(state) || state.state == "installing"@ || state.state == "updating"@,
    ensures
        power_refusal(request, Some(state), suspended) is Some,
{
}

/// A suspended container is not started, restarted or changed.
pub proof fn law_suspended_is_not_started(state: Option<ContainerStateView>, access: Access)
    ensures
        power_refusal(PowerRequest::Start, state, true) is Some,
        power_refusal(PowerRequest::Restart, state, true) is Some,
        change_refusal(access, Some(true), state) is Some,
{
}

/// A container is found under the identifier that a lookup gave for it: the container of the
/// engine that a UUID stands for is found as one itself.
pub proof fn law_resolution_is_stable(
    identifier: Seq<char>,
    is_container_id: bool,
    by_uuid: Option<ContainerStateView>,
    other: Option<ContainerStateView>,
)
    requires
        resolved_id(identifier, is_container_id, by_uuid) is Ok,
    ensures
        ({
            let id = resolved_id(identifier, is_container_id, by_uuid)->Ok_0;
            resolved_id(id, true, other) == Ok::<Seq<char>, Seq<char>>(id)
        }),
{
}

/// A container is found by the name that the engine has for it and by its UUID, and comes out
/// the same: its UUID, what is remembered of it, and its name in the engine. One that the engine
/// does not have is not found by its UUID.
pub proof fn law_resolved_either_way(
    uuid: Seq<char>,
    container_id: Seq<char>,
    state: ContainerStateView,
    other: Option<ContainerStateView>,
)
    requires
        state.container_id == Some(container_id),
    ensures
        resolved(container_id, Some((uuid, state)), other) == Some((uuid, state, container_id)),
        resolved(uuid, None, Some(state)) == Some((uuid, state, container_id)),
        resolved(uuid, None, Some(ContainerStateView { container_id: None, ..state })) is None,
        resolved(uuid, None, None) is None,
        resolved_id(container_id, true, other) == Ok::<Seq<char>, Seq<char>>(container_id),
        resolved_id(uuid, false, Some(state)) == Ok::<Seq<char>, Seq<char>>(container_id),
        resolved_id(uuid, false, Some(ContainerStateView { container_id: None, ..state })) == Err::<
            Seq<char>,
            Seq<char>,
        >("Container ID not found for this UUID"@),
        resolved_id(uuid, false, None) == Err::<Seq<char>, Seq<char>>(
            "Container not found with this identifier"@,
        ),
{
}

/// Power is refused exactly to a container that is locked, being installed or being updated, and
/// a suspended one may be stopped, killed and made anew but not started or restarted. What is
/// not known to the daemon is not refused on that account.
pub proof fn law_power_refusals(
    request: PowerRequest,
    state: ContainerStateView,
    suspended: bool,
)
    ensures
        ({
            let busy = state.locked == Some(true) || state.state == "installing"@ || state.state
                == "updating"@;
            let starts = request == PowerRequest::Start || request == PowerRequest::Restart;
            &&& power_refusal(request, Some(state), suspended) is Some <==> busy || (suspended
                && starts)
            &&& power_refusal(request, None, suspended) is Some <==> suspended && starts
            &&& state.locked == Some(true) ==> (state.lock_reason matches Some(reason)
                ==> power_refusal(request, Some(state), suspended) == Some(
                "Container is currently locked: "@ + reason,
            ))
            &&& state.locked == Some(true) && state.lock_reason is None ==> power_refusal(
                request,
                Some(state),
                suspended,
            ) == Some("Container is currently locked: "@ + "Container is locked"@)
            &&& state.locked != Some(true) && busy ==> power_refusal(
                request,
                Some(state),
                suspended,
            ) == Some("Container is currently "@ + state.state)
        }),
        power_refusal(PowerRequest::Start, None, true) == Some(
            "Cannot start suspended container. Unsuspend it first."@,
        ),
        power_refusal(PowerRequest::Restart, None, true) == Some(
            "Cannot restart suspended container. Unsuspend it first."@,
        ),
{
}

/// What is refused is not planned. What is planned is for the UUID that was found, or the given
/// name; a start and a stop go by the runtime of the request, or else the recorded one, a restart
/// by the recorded one alone, and the others need none.
pub proof fn law_power_plans(
    request: PowerRequest,
    id: Seq<char>,
    state: Option<ContainerStateView>,
    suspended: bool,
    found: Option<Seq<char>>,
    tracker: Option<ContainerTrackerView>,
    body: Option<RuntimeConfigView>,
)
    ensures
        ({
            let plan = power_plan(request, id, state, suspended, found, tracker, body);
            let recorded = if tracker is Some {
                tracker->0.runtime
            } else {
                None
            };
            &&& power_refusal(request, state, suspended) matches Some(message) ==> plan == Err::<
                PowerPlanView,
                Seq<char>,
            >(message)
            &&& power_refusal(request, state, suspended) is None ==> (plan matches Ok(plan) && {
                &&& found matches Some(uuid) ==> plan.uuid == uuid
                &&& found is None ==> plan.uuid == id
                &&& request == PowerRequest::Start || request == PowerRequest::Stop ==> plan.runtime
                    == if body is Some {
                    body
                } else {
                    recorded
                }
                &&& request == PowerRequest::Restart ==> plan.runtime == recorded
                &&& request == PowerRequest::Kill || request == PowerRequest::Recreate
                    ==> plan.runtime is None
            })
        }),
{
}

/// An accepted request is answered with its own name and the container's.
pub proof fn law_accepted_request(id: Seq<char>)
    ensures
        accepted(PowerRequest::Start, id).status == "accepted"@,
        accepted(PowerRequest::Start, id).message == "Start"@ + " action initiated for container "@
            + id,
        accepted(PowerRequest::Stop, id).message == "Stop"@ + " action initiated for container "@
            + id,
        accepted(PowerRequest::Kill, id).message == "Kill"@ + " action initiated for container "@
            + id,
        accepted(PowerRequest::Restart, id).message == "Restart"@
            + " action initiated for container "@ + id,
        accepted(PowerRequest::Recreate, id).message == "Recreate"@
            + " action initiated for container "@ + id,
{
}

/// What went well is told as a success, with the words for that; what failed as a failure, with
/// the reason.
pub proof fn law_outcomes_are_told(success: Option<Seq<char>>, prefix: Seq<char>, e: Seq<char>)
    ensures
        outcome_notice(None, success, prefix).action == (ActionView::Notify {
            status: "install_success"@,
            message: success,
        }),
        outcome_notice(Some(e), success, prefix).action == (ActionView::Notify {
            status: "install_failed"@,
            message: Some(prefix + e),
        }),
        outcome_notice(None, success, prefix).failure is None,
        outcome_notice(Some(e), success, prefix).failure is None,
{
}

/// A suspension is for the reason that was given, or for that of the administrator, and the
/// answer names it; it suspends and stops the billing. Its end does the opposite, and leaves the
/// container stopped.
pub proof fn law_suspension(id: Seq<char>, action_id: Seq<char>, reason: Seq<char>)
    ensures
        suspend_reason(Some(reason)) == reason,
        suspend_reason(None) == "Container suspended by administrator"@,
        suspend_answer(id, action_id, reason).reason == reason,
        suspend_answer(id, action_id, reason).action_id == action_id,
        suspend_answer(id, action_id, reason).status == "accepted"@,
        suspend_answer(id, action_id, reason).message == "Suspend action sent for container "@ + id,
        suspend_tasks(reason).len() == 2,
        suspend_tasks(reason)[0].action == ActionView::Suspend(reason),
        suspend_tasks(reason)[1].action == ActionView::DisableBilling,
        unsuspend_tasks().len() == 3,
        unsuspend_tasks()[0].action == ActionView::Unsuspend,
        unsuspend_tasks()[1].action == ActionView::TrackStatus("stopped"@),
        unsuspend_tasks()[2].action == ActionView::EnableBilling,
{
}

/// A container may be changed exactly where it is not suspended, is known and is not locked.
pub proof fn law_change_refusals(
    access: Access,
    suspended: Option<bool>,
    state: ContainerStateView,
)
    ensures
        change_refusal(access, suspended, Some(state)) is None <==> (suspended != Some(true)
            && state.locked != Some(true)),
        change_refusal(access, suspended, None) is Some,
        suspended != Some(true) ==> change_refusal(access, suspended, None) == Some(
            "Container not found in daemon state"@,
        ),
        suspended != Some(true) && state.locked == Some(true) ==> change_refusal(
            access,
            suspended,
            Some(state),
        ) == Some("Container is currently locked (installing/updating)"@),
        suspended == Some(true) ==> change_refusal(access, suspended, Some(state)) == Some(
            match access {
                Access::Attach => "Cannot attach to suspended container"@,
                Access::Execute => "Cannot execute commands in suspended container"@,
                Access::Update => "Cannot update suspended container"@,
                Access::Install => "Cannot install on suspended container"@,
                Access::Limits => "Cannot update limits of suspended container"@,
            },
        ),
{
}

/// A removed container loses its ports, and what was remembered and recorded of it, each under
/// the UUID it was found by.
pub proof fn law_removal_forgets(
    id: Seq<char>,
    remembered: Option<Seq<char>>,
    recorded: Option<Seq<char>>,
    other: Seq<char>,
)
    ensures
        ({
            let tasks = removal_tasks(id, remembered, recorded);
            &&& has_action(tasks, ActionView::ReleaseContainerPorts(id))
            &&& has_action(tasks, ActionView::RemoveState(other)) <==> remembered == Some(other)
            &&& has_action(tasks, ActionView::RemoveTracker(other)) <==> recorded == Some(other)
        }),
{
    let tasks = removal_tasks(id, remembered, recorded);
    assert(tasks[0].action == ActionView::ReleaseContainerPorts(id));
    let second: int = if remembered is Some {
        2
    } else {
        1
    };
    if remembered is Some {
        assert(tasks[1].action == ActionView::RemoveState(remembered->0));
    }
    if recorded is Some {
        assert(tasks[second].action == ActionView::RemoveTracker(recorded->0));
    }
}

/// New limits are set in the daemon's state and, where the container is recorded, in its record,
/// of which everything else stays.
pub proof fn law_new_limits(limits: ResourceLimitsView, tracker: ContainerTrackerView)
    ensures
        limits_tasks(limits, None).len() == 1,
        limits_tasks(limits, None)[0].action == ActionView::SetLimits(limits),
        limits_tasks(limits, Some(tracker)).len() == 2,
        limits_tasks(limits, Some(tracker))[0].action == ActionView::SetLimits(limits),
        limits_tasks(limits, Some(tracker))[1].action matches ActionView::SaveTracker(saved) && {
            &&& saved.limits == limits
            &&& (ContainerTrackerView { limits: tracker.limits, ..saved }) == tracker
        },
{
}

/// The status of an installation is the state of the container, and what holds it up is why it
/// is locked.
pub proof fn law_installation_status(state: ContainerStateView)
    ensures
        status_of(state).status == state.state,
        status_of(state).progress == state.lock_reason,
        status_of(state).container_id == state.container_id,
        status_of(state).logs is None,
{
}

/// The state that is shown of a container. One that only the daemon knows of, a failed or running
/// installation, a suspension, a creation, comes first; then what is being done to it; then what
/// the engine says.
pub proof fn law_shown_state(
    remembered: Seq<char>,
    action: Seq<char>,
    state: EngineState,
    engine: Option<EngineState>,
)
    ensures
        ({
            let kept = remembered == "install_failed"@ || remembered == "installing"@ || remembered
                == "suspended"@ || remembered == "creating"@ || remembered == "failed"@;
            let up = engine is Some && engine->0.running == Some(true);
            &&& kept ==> shown_state(remembered, Some(action), engine) == remembered
                && shown_state(remembered, None, engine) == remembered
            &&& !kept ==> {
                &&& shown_state(remembered, None, None) == "unknown"@
                &&& shown_state(remembered, Some("start"@), engine) == "starting"@
                &&& shown_state(remembered, Some("stop"@), engine) == "stopping"@
                &&& shown_state(remembered, Some("kill"@), engine) == "stopping"@
                &&& up ==> shown_state(remembered, Some("restart"@), engine) == "stopping"@
                &&& !up ==> shown_state(remembered, Some("restart"@), engine) == "starting"@
                &&& state.oom_killed == Some(true) ==> shown_state(remembered, None, Some(state))
                    == "oom_killed"@
                &&& state.oom_killed != Some(true) && state.running == Some(true) ==> shown_state(
                    remembered,
                    None,
                    Some(state),
                ) == "running"@
                &&& state.oom_killed != Some(true) && state.running != Some(true) ==> {
                    &&& state.paused == Some(true) ==> shown_state(remembered, None, Some(state))
                        == "paused"@
                    &&& state.paused != Some(true) && state.restarting == Some(true) ==> shown_state(
                        remembered,
                        None,
                        Some(state),
                    ) == "restarting"@
                    &&& state.paused != Some(true) && state.restarting != Some(true) && state.dead
                        == Some(true) ==> shown_state(remembered, None, Some(state)) == "dead"@
                    &&& state.paused != Some(true) && state.restarting != Some(true) && state.dead
                        != Some(true) ==> shown_state(remembered, None, Some(state)) == (
                    if state.exit_code == Some(137i64) {
                        "oom_killed"@
                    } else {
                        "stopped"@
                    })
                }
            }
        }),
{
    reveal_strlit("start");
    reveal_strlit("stop");
    reveal_strlit("kill");
    reveal_strlit("restart");
    assert("start"@.len() == 5);
    assert("stop"@.len() == 4);
    assert("kill"@.len() == 4);
    assert("restart"@.len() == 7);
    assert("stop"@[0] != "kill"@[0]);
}

/// A container is looked up by its UUID where it is known and has been made, and comes with its
/// own name, image, lock and state.
pub proof fn law_lookup(
    uuid: Seq<char>,
    state: ContainerStateView,
    pending: Option<Seq<char>>,
    engine: Option<EngineState>,
)
    ensures
        !lookup_reply(uuid, None, pending, engine).success,
        lookup_reply(uuid, None, pending, engine).message == Some(
            "Container not found with this UUID"@,
        ),
        state.container_id is None ==> {
            let reply = lookup_reply(uuid, Some(state), pending, engine);
            !reply.success && reply.data is None && reply.message == Some(
                "Container ID not found for this UUID"@,
            )
        },
        state.container_id matches Some(id) ==> {
            let reply = lookup_reply(uuid, Some(state), pending, engine);
            reply.success && reply.message is None && (reply.data matches Some(found) && {
                &&& found.uuid == uuid
                &&& found.container_id == id
                &&& found.name == state.name
                &&& found.image == state.image
                &&& found.locked == state.locked
                &&& found.lock_reason == state.lock_reason
                &&& found.state == shown_state(state.state, pending, engine)
            })
        },
{
}

/// The status of an action is its record, with the times as they are written.
pub proof fn law_action_status(
    record: PowerActionRecordView,
    started_at: Seq<char>,
    completed_at: Option<Seq<char>>,
)
    ensures
        ({
            let status = action_status(record, started_at, completed_at);
            &&& status.action_id == record.action_id
            &&& status.container_id == record.container_id
            &&& status.container_uuid == record.container_uuid
            &&& status.action == record.action
            &&& status.status == record.status
            &&& status.message == record.message
            &&& status.started_at == started_at
            &&& status.completed_at == completed_at
        }),
{
}

/// A reply with what was asked for is a success without a message; one with an error is none,
/// and has the error as its message.
pub proof fn law_replies(data: int, e: Seq<char>)
    ensures
        reply_view(Ok::<int, Seq<char>>(data)).success,
        reply_view(Ok::<int, Seq<char>>(data)).data == Some(data),
        reply_view(Ok::<int, Seq<char>>(data)).message is None,
        !reply_view(Err::<int, Seq<char>>(e)).success,
        reply_view(Err::<int, Seq<char>>(e)).data is None,
        reply_view(Err::<int, Seq<char>>(e)).message == Some(e),
{
}

/// A container is suspended where it is not suspended already, for the reason that was given,
/// under the UUID that was found or the given name; what could not be sent changes nothing.
pub proof fn law_suspended_once(
    id: Seq<char>,
    uuid: Seq<char>,
    message: Option<Seq<char>>,
    reason: Seq<char>,
    action_id: Seq<char>,
    e: Seq<char>,
)
    ensures
        suspension(id, message, Some((uuid, true))) == Err::<(Seq<char>, Seq<char>), Seq<char>>(
            "Container is already suspended"@,
        ),
        suspension(id, Some(reason), Some((uuid, false))) == Ok::<
            (Seq<char>, Seq<char>),
            Seq<char>,
        >((reason, uuid)),
        suspension(id, Some(reason), None) == Ok::<(Seq<char>, Seq<char>), Seq<char>>((reason, id)),
        suspension(id, None, None) == Ok::<(Seq<char>, Seq<char>), Seq<char>>(
            ("Container suspended by administrator"@, id),
        ),
        ({
            let (tasks, reply) = suspension_sent(id, reason, Ok(action_id));
            &&& tasks.len() == 2
            &&& tasks[0].action == ActionView::Suspend(reason)
            &&& tasks[1].action == ActionView::DisableBilling
            &&& reply.success
            &&& reply.data matches Some(answer) && answer.action_id == action_id && answer.reason
                == reason
        }),
        ({
            let (tasks, reply) = suspension_sent(id, reason, Err(e));
            tasks.len() == 0 && !reply.success && reply.message == Some(e) && reply.data is None
        }),
{
}

/// A suspension ends where there is one; the words for it are those given, or the usual ones.
pub proof fn law_unsuspended_once(id: Seq<char>, message: Option<Seq<char>>, reason: Seq<char>)
    ensures
        unsuspension(id, message, None) == Err::<(Seq<TaskView>, Seq<char>), Seq<char>>(
            "Container not found in daemon state"@,
        ),
        unsuspension(id, message, Some(false)) == Err::<(Seq<TaskView>, Seq<char>), Seq<char>>(
            "Container is not suspended"@,
        ),
        unsuspension(id, Some(reason), Some(true)) matches Ok((tasks, text)) && {
            &&& tasks.len() == 3
            &&& tasks[0].action == ActionView::Unsuspend
            &&& tasks[1].action == ActionView::TrackStatus("stopped"@)
            &&& tasks[2].action == ActionView::EnableBilling
            &&& text == "Container "@ + id + " unsuspended: "@ + reason
                + ". Container is now stopped and can be started."@
        },
        unsuspension(id, None, Some(true)) == unsuspension(
            id,
            Some("Container unsuspended by administrator"@),
            Some(true),
        ),
{
}

/// What was kept of a container is removed only where the engine removed it.
pub proof fn law_removed_by_engine_first(
    id: Seq<char>,
    remembered: Option<Seq<char>>,
    recorded: Option<Seq<char>>,
    e: Seq<char>,
)
    ensures
        ({
            let (tasks, reply) = removal(id, Ok(()), remembered, recorded);
            &&& has_action(tasks, ActionView::ReleaseContainerPorts(id))
            &&& remembered matches Some(uuid) ==> has_action(tasks, ActionView::RemoveState(uuid))
            &&& recorded matches Some(uuid) ==> has_action(tasks, ActionView::RemoveTracker(uuid))
            &&& reply.success
            &&& reply.data == Some("Container "@ + id + " removed"@)
        }),
        ({
            let (tasks, reply) = removal(id, Err(e), remembered, recorded);
            tasks.len() == 0 && !reply.success && reply.data is None && reply.message == Some(e)
        }),
{
    law_removal_forgets(
        id,
        remembered,
        recorded,
        if remembered is Some {
            remembered->0
        } else {
            id
        },
    );
    law_removal_forgets(
        id,
        remembered,
        recorded,
        if recorded is Some {
            recorded->0
        } else {
            id
        },
    );
}

/// A container's status is found by either name, and the engine is asked only for a container
/// that it has and whose state is not the daemon's own.
pub proof fn law_found_status(state: ContainerStateView, other: Option<ContainerStateView>)
    ensures
        found_status(Some(state), other).data == Some(status_of(state)),
        found_status(Some(state), other).success,
        found_status(None, Some(state)) == found_status(Some(state), other),
        !found_status(None, None).success,
        found_status(None, None).message == Some("Container not found in daemon state"@),
        ({
            let kept = state.state == "install_failed"@ || state.state == "installing"@
                || state.state == "suspended"@ || state.state == "creating"@ || state.state
                == "failed"@;
            &&& !kept ==> asked_of_engine(Some(state)) == state.container_id
            &&& kept ==> asked_of_engine(Some(state)) is None
        }),
        asked_of_engine(None) is None,
{
}

/// An action is told with its times where it is known, and what is under way where something is.
pub proof fn law_found_actions(
    action_id: Seq<char>,
    record: PowerActionRecordView,
    status: Option<Seq<char>>,
)
    ensures
        found_action(action_id, Some(record)).success,
        found_action(action_id, Some(record)).data matches Some(told) && {
            &&& told.action_id == record.action_id
            &&& told.status == record.status
            &&& told.started_at == rfc3339_text(record.started_at.secs, record.started_at.nanos)
            &&& record.completed_at matches Some(time) ==> told.completed_at == Some(
                rfc3339_text(time.secs, time.nanos),
            )
            &&& record.completed_at is None ==> told.completed_at is None
        },
        !found_action(action_id, None).success,
        found_action(action_id, None).message == Some("Action "@ + action_id + " not found"@),
        pending_action(Some((action_id, status))).has_pending_action,
        pending_action(Some((action_id, status))).action_id == Some(action_id),
        pending_action(Some((action_id, status))).status == status,
        !pending_action(None).has_pending_action,
        pending_action(None).action_id is None,
        pending_action(None).status is None,
{
}

/// A container is unlocked by force where it is known and that succeeds.
pub proof fn law_forced_unlock(uuid: Seq<char>, result: Result<(), Seq<char>>)
    ensures
        unlock_reply(uuid, true, result).success <==> result is Ok,
        unlock_reply(uuid, true, result).data is Some <==> result is Ok,
        result matches Err(e) ==> unlock_reply(uuid, true, result).message == Some(
            "Failed to unlock: "@ + e,
        ),
        unlock_reply(uuid, true, Ok(())).data matches Some(answer) && answer.status == "ok"@
            && answer.message == "Container "@ + uuid + " unlocked"@,
        unlock_reply(uuid, false, result).message == Some("Container not found"@),
        !unlock_reply(uuid, false, result).success,
{
}

/// Work that ended well is told as a success, and work that failed as a failure with its error,
/// each in its own words.
pub proof fn law_work_is_told(id: String, e: String)
    ensures
        failure_of(Ok::<String, String>(id)) is None,
        failure_of(Err::<String, String>(e)) == Some(e@),
        recreation_told(None).action == (ActionView::Notify {
            status: "install_success"@,
            message: Some("Container recreated successfully"@),
        }),
        recreation_told(Some(e@)).action == (ActionView::Notify {
            status: "install_failed"@,
            message: Some("Recreation failed: "@ + e@),
        }),
        config_update_told(None).action == (ActionView::Notify {
            status: "install_success"@,
            message: Some("Configuration updated successfully"@),
        }),
        config_update_told(Some(e@)).action == (ActionView::Notify {
            status: "install_failed"@,
            message: Some("Config update failed: "@ + e@),
        }),
        installation_told(None).action == (ActionView::Notify {
            status: "install_success"@,
            message: None,
        }),
        installation_told(Some(e@)).action == (ActionView::Notify {
            status: "install_failed"@,
            message: Some(e@),
        }),
{
    reveal_strlit("");
    assert(""@ + e@ =~= e@);
}

/// A container that is not locked, being installed or being updated may be started and restarted
/// unless it is suspended, and stopped, killed and made anew in any case; one that is may not be
/// touched. A start and a stop go by the given runtime or the recorded one, and a restart by the
/// recorded one.
pub proof fn law_power_requests(
    id: Seq<char>,
    state: ContainerStateView,
    suspended: bool,
    uuid: Seq<char>,
    tracker: ContainerTrackerView,
    body: RuntimeConfigView,
)
    ensures
        ({
            let busy = state.locked == Some(true) || state.state == "installing"@ || state.state
                == "updating"@;
            let found = Some(uuid);
            let known = Some(state);
            let record = Some(tracker);
            &&& start_plan(id, known, suspended, found, record, Some(body)) is Err <==> busy
                || suspended
            &&& restart_plan(id, known, suspended, found, record) is Err <==> busy || suspended
            &&& stop_plan(id, known, found, record, Some(body)) is Err <==> busy
            &&& kill_plan(id, known, found) is Err <==> busy
            &&& recreate_plan(id, known, found) is Err <==> busy
            &&& !busy && !suspended ==> {
                &&& start_plan(id, known, suspended, found, record, Some(body)) matches Ok(plan)
                    && plan.uuid == uuid && plan.runtime == Some(body)
                &&& start_plan(id, known, suspended, found, record, None) matches Ok(plan)
                    && plan.runtime == tracker.runtime
                &&& restart_plan(id, known, suspended, found, record) matches Ok(plan) && plan.uuid
                    == uuid && plan.runtime == tracker.runtime
            }
            &&& !busy ==> {
                &&& stop_plan(id, known, found, record, Some(body)) matches Ok(plan) && plan.uuid
                    == uuid && plan.runtime == Some(body)
                &&& stop_plan(id, known, None, record, None) matches Ok(plan) && plan.uuid == id
                    && plan.runtime == tracker.runtime
                &&& kill_plan(id, known, found) matches Ok(plan) && plan.uuid == uuid
                    && plan.runtime is None
                &&& recreate_plan(id, known, found) matches Ok(plan) && plan.uuid == uuid
            }
        }),
{
}

} // verus!
