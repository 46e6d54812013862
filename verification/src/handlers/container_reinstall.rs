//! The request to install a container anew.
//!
//! The new container is made before the answer is given; its script runs unseen after that.

use super::container::is_locked;
use crate::docker::network::{PortAllocation, PortAllocationView};
use crate::duplicate::Duplicate;
use crate::models::{
    ContainerTracker, ContainerTrackerView, CreateContainerRequest, CreateContainerRequestView,
    ReinstallRequest, ReinstallRequestView,
};
use crate::number::parsed;
use crate::services::container_lifecycle::{succeed, succeeded_by};
use crate::services::exit_wait::{ExitWait, WaitEnd, SCRIPT_TIMEOUT_SECS};
use crate::services::recipe::{
    data_path, data_path_of, entrypoint_path, entrypoint_path_of, law_teardown_order, port_map,
    push_teardown, shell_line, shell_line_of, successor_request, successor_request_of, teardown,
};
use crate::services::task::{
    attempt, demand, has_action, result_view, Action, ActionView, Step, StepView, Task, TaskView,
};
use crate::state_manager::{ContainerState, ContainerStateView};
use crate::text::cat2;
use vstd::prelude::*;

verus! {

/// How long to wait between stopping and removing the old container, in milliseconds.
pub const REINSTALL_PAUSE_MS: u64 = 500;

/// A renewal that asks for the record of the container.
#[derive(Debug, Clone)]
pub struct RenewLoad {
    pub uuid: String,
    pub volumes_path: String,
    pub request: ReinstallRequest,
}

/// What a [`RenewLoad`] holds.
#[verifier::ext_equal]
pub struct RenewLoadView {
    pub uuid: Seq<char>,
    pub volumes_path: Seq<char>,
    pub request: ReinstallRequestView,
}

impl DeepView for RenewLoad {
    type V = RenewLoadView;

    open spec fn deep_view(&self) -> RenewLoadView {
        RenewLoadView {
            uuid: self.uuid@,
            volumes_path: self.volumes_path@,
            request: self.request.deep_view(),
        }
    }
}

/// A renewal that asks for a new container.
#[derive(Debug, Clone)]
pub struct RenewCreate {
    pub order: ReinstallRequest,
    pub request: CreateContainerRequest,
    pub tracker: ContainerTracker,
}

/// What a [`RenewCreate`] holds.
#[verifier::ext_equal]
pub struct RenewCreateView {
    pub order: ReinstallRequestView,
    pub request: CreateContainerRequestView,
    pub tracker: ContainerTrackerView,
}

impl DeepView for RenewCreate {
    type V = RenewCreateView;

    open spec fn deep_view(&self) -> RenewCreateView {
        RenewCreateView {
            order: self.order.deep_view(),
            request: self.request.deep_view(),
            tracker: self.tracker.deep_view(),
        }
    }
}

/// A renewal whose script is about to run unseen.
#[derive(Debug, Clone)]
pub struct RenewRun {
    pub container_id: String,
    /// The script that the container runs.
    pub entrypoint: String,
    /// What the script is to hold once all is installed.
    pub line: String,
    pub wait: ExitWait,
}

/// What a [`RenewRun`] holds.
#[verifier::ext_equal]
pub struct RenewRunView {
    pub container_id: Seq<char>,
    pub entrypoint: Seq<char>,
    pub line: Seq<char>,
    pub wait: ExitWait,
}

impl DeepView for RenewRun {
    type V = RenewRunView;

    open spec fn deep_view(&self) -> RenewRunView {
        RenewRunView {
            container_id: self.container_id@,
            entrypoint: self.entrypoint@,
            line: self.line@,
            wait: self.wait,
        }
    }
}

/// A renewal that asks for the start of what was installed.
#[derive(Debug, Clone)]
pub struct RenewStart {
    pub container_id: String,
}

/// What a [`RenewStart`] holds.
#[verifier::ext_equal]
pub struct RenewStartView {
    pub container_id: Seq<char>,
}

impl DeepView for RenewStart {
    type V = RenewStartView;

    open spec fn deep_view(&self) -> RenewStartView {
        RenewStartView {
            container_id: self.container_id@,
        }
    }
}

/// The answer to a renewal.
#[derive(Debug, Clone)]
pub struct ReinstallAccepted {
    pub status: String,
    pub message: String,
    pub uuid: String,
    pub new_container_id: String,
}

/// What a [`ReinstallAccepted`] holds.
#[verifier::ext_equal]
pub struct ReinstallAcceptedView {
    pub status: Seq<char>,
    pub message: Seq<char>,
    pub uuid: Seq<char>,
    pub new_container_id: Seq<char>,
}

impl DeepView for ReinstallAccepted {
    type V = ReinstallAcceptedView;

    open spec fn deep_view(&self) -> ReinstallAcceptedView {
        ReinstallAcceptedView {
            status: self.status@,
            message: self.message@,
            uuid: self.uuid@,
            new_container_id: self.new_container_id@,
        }
    }
}

/// Why a container may not be installed anew.
pub open spec fn renewal_refusal(
    state: Option<ContainerStateView>,
    suspended: bool,
) -> Option<Seq<char>> {
    match state {
        None => Some("Container not found"@),
        Some(state) => if is_locked(state) {
            Some("Container is currently locked"@)
        } else if suspended {
            Some("Cannot reinstall suspended container"@)
        } else {
            None
        },
    }
}

/// The tasks with which a renewal begins.
pub open spec fn renewal_begin() -> Seq<TaskView> {
    seq![
        demand(ActionView::Lock("Reinstalling"@), "Failed to lock: "@),
        attempt(ActionView::SetState("installing"@)),
        attempt(
            ActionView::Notify {
                status: "installing"@,
                message: Some("Reinstalling container"@),
            },
        ),
    ]
}

/// A renewal that asks for the record of the container.
pub open spec fn renewal_stage(
    uuid: Seq<char>,
    volumes: Seq<char>,
    request: ReinstallRequestView,
) -> RenewLoadView {
    RenewLoadView { uuid, volumes_path: volumes, request }
}

/// Begins to install a container anew, unless it may not be.
pub fn reinstall_container(
    uuid: &str,
    volumes_path: &str,
    request: ReinstallRequest,
    state: &Option<ContainerState>,
    suspended: bool,
) -> (r: Result<(Vec<Task>, RenewLoad), String>)
    ensures
        match r {
            Ok((tasks, stage)) => {
                &&& renewal_refusal(state.deep_view(), suspended) is None
                &&& tasks.deep_view() == renewal_begin()
                &&& stage.deep_view() == renewal_stage(uuid@, volumes_path@, request.deep_view())
            },
            Err(e) => renewal_refusal(state.deep_view(), suspended) == Some(e@),
        },
{
    match state {
        None => {
            return Err("Container not found".to_string());
        },
        Some(state) => {
            let locked = match state.locked {
                Some(b) => b,
                None => false,
            };
            if locked {
                return Err("Container is currently locked".to_string());
            }
            if suspended {
                return Err("Cannot reinstall suspended container".to_string());
            }
        },
    }
    let mut tasks: Vec<Task> = Vec::new();
    tasks.push(Task::demand(Action::Lock("Reinstalling".to_string()), "Failed to lock: "));
    tasks.push(Task::attempt(Action::SetState("installing".to_string())));
    tasks.push(
        Task::attempt(
            Action::Notify {
                status: "installing".to_string(),
                message: Some("Reinstalling container".to_string()),
            },
        ),
    );
    assert(tasks.deep_view() =~= renewal_begin());
    Ok(
        (
            tasks,
            RenewLoad { uuid: uuid.to_string(), volumes_path: volumes_path.to_string(), request },
        ),
    )
}

/// The request for the container that takes the place of the old one: it has the ports of the old
/// one where it had any, and what the request leaves open comes from the record.
pub open spec fn renewal_request(
    uuid: Seq<char>,
    order: ReinstallRequestView,
    tracker: ContainerTrackerView,
) -> CreateContainerRequestView {
    let base = successor_request(
        uuid,
        tracker,
        order.image,
        match order.env {
            Some(env) => Some(env),
            None => tracker.env,
        },
        None,
        match order.limits {
            Some(limits) => limits,
            None => tracker.limits,
        },
    );
    CreateContainerRequestView {
        ports: match base.ports {
            Some(ports) => Some(ports),
            None => order.ports,
        },
        runtime: order.runtime,
        ..base
    }
}

/// The tasks before a new container is asked for: the old one is taken away, the image is
/// fetched, and the script is written.
pub open spec fn renewal_tasks(stage: RenewLoadView, tracker: ContainerTrackerView) -> Seq<
    TaskView,
> {
    let entrypoint = entrypoint_path(stage.volumes_path, stage.uuid);
    teardown(tracker.container_id, REINSTALL_PAUSE_MS, tracker.allocated_ports) + seq![
        demand(ActionView::Pull(stage.request.image), "Failed to pull image: "@),
        demand(
            ActionView::MakeDirectory(data_path(stage.volumes_path, stage.uuid)),
            "Failed to create data dir: "@,
        ),
        demand(
            ActionView::WriteFile { path: entrypoint, content: stage.request.install_script },
            "Failed to write install script: "@,
        ),
        attempt(ActionView::MakeExecutable(entrypoint)),
    ]
}

/// What a renewal does with the record of the container.
pub open spec fn renewal_loaded(
    stage: RenewLoadView,
    reply: Result<Option<ContainerTrackerView>, Seq<char>>,
) -> Result<(Seq<TaskView>, RenewCreateView), Seq<char>> {
    match reply {
        Err(e) => Err(e),
        Ok(None) => Err("Container tracker not found"@),
        Ok(Some(tracker)) => Ok(
            (
                renewal_tasks(stage, tracker),
                RenewCreateView {
                    order: stage.request,
                    request: renewal_request(stage.uuid, stage.request, tracker),
                    tracker,
                },
            ),
        ),
    }
}

/// The record of the container that takes the place of the old one.
pub open spec fn renewed_tracker(
    stage: RenewCreateView,
    container_id: Seq<char>,
    ports: Seq<PortAllocationView>,
) -> ContainerTrackerView {
    ContainerTrackerView {
        image: stage.order.image,
        startup_command: Some(stage.order.startup_command),
        runtime: stage.order.runtime,
        ..succeeded_by(stage.tracker, container_id, ports)
    }
}

/// The tasks that record the new container.
pub open spec fn renewal_created(
    stage: RenewCreateView,
    container_id: Seq<char>,
    ports: Seq<PortAllocationView>,
) -> Seq<TaskView> {
    seq![
        attempt(ActionView::SaveTracker(renewed_tracker(stage, container_id, ports))),
        attempt(ActionView::SetContainerId(container_id)),
    ]
}

/// How a renewal ends that could not make the new container, for whatever reason.
pub open spec fn renewal_failed() -> Seq<TaskView> {
    seq![
        attempt(ActionView::SetState("install_failed"@)),
        attempt(ActionView::Unlock),
    ]
}

/// How a renewal ends whose script failed, for whatever reason.
pub open spec fn run_failed(error: Seq<char>) -> Seq<TaskView> {
    seq![
        attempt(ActionView::Unlock),
        attempt(ActionView::Notify { status: "install_failed"@, message: Some(error) }),
        attempt(ActionView::SetState("install_failed"@)),
        attempt(ActionView::Unlock),
    ]
}

/// The tasks that let the script run.
pub open spec fn run_begin(container_id: Seq<char>) -> Seq<TaskView> {
    seq![demand(ActionView::Start(container_id), "Failed to start container: "@)]
}

/// What a renewal does when the wait for its script has ended.
pub open spec fn run_waited(stage: RenewRunView, success: bool) -> StepView<RenewStartView> {
    if success {
        StepView::Go(
            seq![
                demand(
                    ActionView::WriteFile { path: stage.entrypoint, content: stage.line },
                    "Failed to write startup command: "@,
                ),
            ],
            RenewStartView { container_id: stage.container_id },
        )
    } else {
        StepView::Over(run_failed("Install script failed or timed out"@))
    }
}

/// How a renewal ends, given whether what was installed started.
pub open spec fn run_started(started: bool) -> Seq<TaskView> {
    seq![
        attempt(
            ActionView::SetState(
                if started {
                    "running"@
                } else {
                    "stopped"@
                },
            ),
        ),
        attempt(ActionView::Unlock),
        attempt(ActionView::Notify { status: "install_success"@, message: None }),
    ]
}

/// The tasks of a renewal that could not make the new container.
pub fn fail_renewal() -> (r: Vec<Task>)
    ensures
        r.deep_view() == renewal_failed(),
{
    let mut r: Vec<Task> = Vec::new();
    r.push(Task::attempt(Action::SetState("install_failed".to_string())));
    r.push(Task::attempt(Action::Unlock));
    assert(r.deep_view() =~= renewal_failed());
    r
}

/// The tasks of a renewal whose script failed.
pub fn fail_run(error: String) -> (r: Vec<Task>)
    ensures
        r.deep_view() == run_failed(error@),
{
    let mut r: Vec<Task> = Vec::new();
    r.push(Task::attempt(Action::Unlock));
    r.push(
        Task::attempt(
            Action::Notify { status: "install_failed".to_string(), message: Some(error) },
        ),
    );
    r.push(Task::attempt(Action::SetState("install_failed".to_string())));
    r.push(Task::attempt(Action::Unlock));
    assert(r.deep_view() =~= run_failed(error@));
    r
}

impl RenewLoad {
    /// Takes the record of the container.
    pub fn tracker_loaded(self, reply: Result<Option<ContainerTracker>, String>) -> (r: Result<
        (Vec<Task>, RenewCreate),
        String,
    >)
        ensures
            result_view(r) == renewal_loaded(self.deep_view(), result_view(reply)),
    {
        let tracker = match reply {
            Err(e) => {
                return Err(e);
            },
            Ok(None) => {
                return Err("Container tracker not found".to_string());
            },
            Ok(Some(tracker)) => tracker,
        };
        let volumes = self.volumes_path.as_str();
        let uuid = self.uuid.as_str();
        let entrypoint = entrypoint_path_of(volumes, uuid);
        let mut tasks: Vec<Task> = Vec::new();
        assert(tasks.deep_view() =~= Seq::<TaskView>::empty());
        push_teardown(&mut tasks, &tracker, REINSTALL_PAUSE_MS);
        tasks.push(
            Task::demand(Action::Pull(self.request.image.clone()), "Failed to pull image: "),
        );
        tasks.push(
            Task::demand(
                Action::MakeDirectory(data_path_of(volumes, uuid)),
                "Failed to create data dir: ",
            ),
        );
        tasks.push(
            Task::demand(
                Action::WriteFile {
                    path: entrypoint.clone(),
                    content: self.request.install_script.clone(),
                },
                "Failed to write install script: ",
            ),
        );
        tasks.push(Task::attempt(Action::MakeExecutable(entrypoint)));
        assert(tasks.deep_view() =~= renewal_tasks(self.deep_view(), tracker.deep_view()));
        let env = match &self.request.env {
            Some(env) => Some(env.duplicate()),
            None => tracker.env.duplicate(),
        };
        let limits = match &self.request.limits {
            Some(limits) => limits.duplicate(),
            None => tracker.limits.duplicate(),
        };
        let image = self.request.image.clone();
        let mut request = successor_request_of(uuid, &tracker, image, env, None, limits);
        if request.ports.is_none() {
            request.ports = self.request.ports.duplicate();
        }
        request.runtime = self.request.runtime.duplicate();
        Ok((tasks, RenewCreate { order: self.request, request, tracker }))
    }
}

/// A renewal asks for a container under the UUID; what it takes and gives is that of
/// [`RenewLoad::tracker_loaded`].
pub fn create_reinstall_container(
    uuid: &str,
    volumes_path: &str,
    request: ReinstallRequest,
    reply: Result<Option<ContainerTracker>, String>,
) -> (r: Result<(Vec<Task>, RenewCreate), String>)
    ensures
        result_view(r) == renewal_loaded(
            renewal_stage(uuid@, volumes_path@, request.deep_view()),
            result_view(reply),
        ),
{
    let stage = RenewLoad {
        uuid: uuid.to_string(),
        volumes_path: volumes_path.to_string(),
        request,
    };
    stage.tracker_loaded(reply)
}

/// What follows where the new container was made: it is recorded and run; or why it was not made.
pub open spec fn renewal_made(
    stage: RenewCreateView,
    reply: Result<(Seq<char>, Seq<PortAllocationView>), Seq<char>>,
) -> Result<(Seq<TaskView>, Seq<char>), Seq<char>> {
    match reply {
        Ok((container_id, ports)) => Ok(
            (renewal_created(stage, container_id, ports), container_id),
        ),
        Err(e) => Err("Failed to create container: "@ + e),
    }
}

/// A renewal whose new container runs the script.
pub open spec fn run_stage(
    uuid: Seq<char>,
    container_id: Seq<char>,
    words: Seq<Seq<char>>,
    volumes: Seq<char>,
) -> RenewRunView {
    RenewRunView {
        container_id,
        entrypoint: entrypoint_path(volumes, uuid),
        line: shell_line(words),
        wait: ExitWait { waited: 0, timeout_secs: SCRIPT_TIMEOUT_SECS },
    }
}

impl RenewCreate {
    /// Takes the new container and its ports.
    pub fn created(self, reply: Result<(String, Vec<PortAllocation>), String>) -> (r: Result<
        (Vec<Task>, String),
        String,
    >)
        ensures
            result_view(r) == renewal_made(self.deep_view(), result_view(reply)),
    {
        match reply {
            Err(e) => Err(cat2("Failed to create container: ", e.as_str())),
            Ok((container_id, ports)) => {
                let mut tracker = succeed(self.tracker, container_id.as_str(), ports);
                tracker.image = self.order.image;
                tracker.startup_command = Some(self.order.startup_command);
                tracker.runtime = self.order.runtime;
                let mut tasks: Vec<Task> = Vec::new();
                tasks.push(Task::attempt(Action::SaveTracker(tracker)));
                tasks.push(Task::attempt(Action::SetContainerId(container_id.clone())));
                assert(tasks.deep_view() =~= renewal_created(
                    self.deep_view(),
                    container_id@,
                    ports.deep_view(),
                ));
                Ok((tasks, container_id))
            },
        }
    }
}

/// The answer to a renewal whose new container is made.
pub fn reinstall_reply(uuid: &str, container_id: &str) -> (r: ReinstallAccepted)
    ensures
        r.deep_view() == (ReinstallAcceptedView {
            status: "installing"@,
            message: "Reinstall started for container "@ + uuid@,
            uuid: uuid@,
            new_container_id: container_id@,
        }),
{
    ReinstallAccepted {
        status: "installing".to_string(),
        message: cat2("Reinstall started for container ", uuid),
        uuid: uuid.to_string(),
        new_container_id: container_id.to_string(),
    }
}

/// Lets the script of a renewal run, and then the startup command.
pub fn run_install_and_startup(
    uuid: &str,
    container_id: &str,
    startup_command: &Vec<String>,
    volumes_path: &str,
) -> (r: (Vec<Task>, RenewRun))
    ensures
        r.0.deep_view() == run_begin(container_id@),
        r.1.deep_view() == run_stage(
            uuid@,
            container_id@,
            startup_command.deep_view(),
            volumes_path@,
        ),
{
    let mut tasks: Vec<Task> = Vec::new();
    tasks.push(
        Task::demand(Action::Start(container_id.to_string()), "Failed to start container: "),
    );
    assert(tasks.deep_view() =~= run_begin(container_id@));
    (
        tasks,
        RenewRun {
            container_id: container_id.to_string(),
            entrypoint: entrypoint_path_of(volumes_path, uuid),
            line: shell_line_of(startup_command),
            wait: ExitWait::new(SCRIPT_TIMEOUT_SECS),
        },
    )
}

impl RenewRun {
    /// Takes how the wait for the script ended.
    pub fn waited(self, end: WaitEnd) -> (r: Step<RenewStart>)
        ensures
            r.deep_view() == run_waited(self.deep_view(), end.succeeded()),
    {
        if !end.is_success() {
            return Step::Over(fail_run("Install script failed or timed out".to_string()));
        }
        let mut tasks: Vec<Task> = Vec::new();
        tasks.push(
            Task::demand(
                Action::WriteFile { path: self.entrypoint, content: self.line },
                "Failed to write startup command: ",
            ),
        );
        assert(tasks.deep_view() =~= run_waited(self.deep_view(), true)->Go_0);
        Step::Go(tasks, RenewStart { container_id: self.container_id })
    }
}

impl RenewStart {
    /// Takes whether what was installed started. It is installed either way.
    pub fn started(self, reply: &Result<(), String>) -> (r: Vec<Task>)
        ensures
            r.deep_view() == run_started(reply is Ok),
    {
        let state = if reply.is_ok() {
            "running"
        } else {
            "stopped"
        };
        let mut tasks: Vec<Task> = Vec::new();
        tasks.push(Task::attempt(Action::SetState(state.to_string())));
        tasks.push(Task::attempt(Action::Unlock));
        tasks.push(
            Task::attempt(
                Action::Notify { status: "install_success".to_string(), message: None },
            ),
        );
        assert(tasks.deep_view() =~= run_started(reply is Ok));
        tasks
    }
}

/// However a renewal ends, the container is unlocked.
pub proof fn law_renewal_unlocks(stage: RenewRunView, error: Seq<char>, success: bool, started: bool)
    ensures
        has_action(renewal_failed(), ActionView::Unlock),
        has_action(run_failed(error), ActionView::Unlock),
        run_waited(stage, success) matches StepView::Over(tasks) ==> has_action(
            tasks,
            ActionView::Unlock,
        ),
        has_action(run_started(started), ActionView::Unlock),
{
    assert(renewal_failed()[1].action == ActionView::Unlock);
    assert(run_failed(error)[0].action == ActionView::Unlock);
    if let StepView::Over(tasks) = run_waited(stage, success) {
        assert(tasks[0].action == ActionView::Unlock);
    }
    assert(run_started(started)[1].action == ActionView::Unlock);
}

/// A renewed container keeps its UUID, its name and the ports that it had.
pub proof fn law_renewal_keeps_identity(
    stage: RenewLoadView,
    tracker: ContainerTrackerView,
    container_id: Seq<char>,
    ports: Seq<PortAllocationView>,
)
    ensures
        renewal_loaded(stage, Ok(Some(tracker))) matches Ok((_, create)) && {
            let saved = renewed_tracker(create, container_id, ports);
            &&& create.request.custom_uuid == Some(stage.uuid)
            &&& create.request.name == Some(tracker.name)
            &&& port_map(tracker.allocated_ports) != Map::<Seq<char>, Seq<char>>::empty()
                ==> create.request.ports == Some(port_map(tracker.allocated_ports))
            &&& saved.custom_uuid == tracker.custom_uuid
            &&& saved.name == tracker.name
            &&& saved.created_at == tracker.created_at
            &&& saved.attached_volumes == tracker.attached_volumes
        },
{
}

/// A container that is installed anew is asked for with what was ordered: the image and the
/// runtime of the order, and its environment and limits where it has any. What the order leaves
/// open is as it was: the environment, the limits and the ports that the container had, its name
/// and its description; the ports of the order count where it had none.
pub proof fn law_renewal_request(stage: RenewLoadView, tracker: ContainerTrackerView)
    ensures
        renewal_loaded(stage, Ok(Some(tracker))) matches Ok((_, create)) && {
            let request = create.request;
            let had = port_map(tracker.allocated_ports);
            &&& request.image == stage.request.image
            &&& request.runtime == stage.request.runtime
            &&& stage.request.env is Some ==> request.env == stage.request.env
            &&& stage.request.env is None ==> request.env == tracker.env
            &&& stage.request.limits is Some ==> request.limits == stage.request.limits
            &&& stage.request.limits is None ==> request.limits == Some(tracker.limits)
            &&& had != Map::<Seq<char>, Seq<char>>::empty() ==> request.ports == Some(had)
            &&& had == Map::<Seq<char>, Seq<char>>::empty() ==> request.ports
                == stage.request.ports
            &&& request.name == Some(tracker.name)
            &&& request.description == tracker.description
            &&& request.custom_uuid == Some(stage.uuid)
            &&& request.startup_command == Some(seq!["/bin/sh"@, "/data/entrypoint.sh"@])
            &&& request.volumes is None
            &&& request.command is None
            &&& request.working_dir is None
            &&& request.restart_policy is None
            &&& request.install_content is None
            &&& request.request_id is None
            &&& create.order == stage.request
            &&& create.tracker == tracker
        },
{
}

/// The old container is gone, and the ordered image is there, before the script of the order is
/// written to the entrypoint.
pub proof fn law_renewal_order(stage: RenewLoadView, tracker: ContainerTrackerView, e: Seq<char>)
    ensures
        renewal_loaded(stage, Ok(Some(tracker))) matches Ok((tasks, _)) && {
            let n = tasks.len() as int;
            let data = stage.volumes_path + "/"@ + stage.uuid + "_data"@;
            &&& n >= 7
            &&& tasks[0].action == ActionView::Stop(tracker.container_id)
            &&& tasks[1].action == ActionView::Pause(500)
            &&& tasks[2].action == ActionView::Remove(tracker.container_id)
            &&& tasks[n - 4].action == ActionView::Pull(stage.request.image)
            &&& tasks[n - 4].failure == Some("Failed to pull image: "@)
            &&& tasks[n - 3].action == ActionView::MakeDirectory(data)
            &&& tasks[n - 3].failure == Some("Failed to create data dir: "@)
            &&& tasks[n - 2].action == (ActionView::WriteFile {
                path: data + "/entrypoint.sh"@,
                content: stage.request.install_script,
            })
            &&& tasks[n - 2].failure == Some("Failed to write install script: "@)
            &&& tasks[n - 1].action == ActionView::MakeExecutable(data + "/entrypoint.sh"@)
        },
        renewal_loaded(stage, Ok(None)) == Err::<(Seq<TaskView>, RenewCreateView), Seq<char>>(
            "Container tracker not found"@,
        ),
        renewal_loaded(stage, Err(e)) == Err::<(Seq<TaskView>, RenewCreateView), Seq<char>>(e),
{
}

/// The ports that a container had are released before it is made anew.
pub proof fn law_renewal_releases_ports(
    stage: RenewLoadView,
    tracker: ContainerTrackerView,
    i: int,
    port: nat,
)
    requires
        0 <= i < tracker.allocated_ports.len(),
        parsed(tracker.allocated_ports[i].host_port, u16::MAX as nat) == Some(port),
    ensures
        renewal_loaded(stage, Ok(Some(tracker))) matches Ok((tasks, _)) && has_action(
            tasks,
            ActionView::ReleasePort(port as u16),
        ),
{
    law_teardown_order(tracker.container_id, REINSTALL_PAUSE_MS, tracker.allocated_ports, i, port);
    let first = teardown(tracker.container_id, REINSTALL_PAUSE_MS, tracker.allocated_ports);
    let k = choose|k: int|
        3 <= k < first.len() && (#[trigger] first[k]).action == ActionView::ReleasePort(
            port as u16,
        );
    let tasks = renewal_tasks(stage, tracker);
    assert(tasks[k] == first[k]);
}

/// The record then holds what was ordered, and names the new container and its ports; the rest
/// is as it was.
pub proof fn law_renewal_is_recorded(
    stage: RenewCreateView,
    container_id: Seq<char>,
    ports: Seq<PortAllocationView>,
)
    ensures
        ({
            let tasks = renewal_created(stage, container_id, ports);
            &&& tasks.len() == 2
            &&& tasks[0].action matches ActionView::SaveTracker(saved) && {
                &&& saved.image == stage.order.image
                &&& saved.startup_command == Some(stage.order.startup_command)
                &&& saved.runtime == stage.order.runtime
                &&& saved.container_id == container_id
                &&& saved.allocated_ports == ports
                &&& saved == (ContainerTrackerView {
                    image: saved.image,
                    startup_command: saved.startup_command,
                    runtime: saved.runtime,
                    container_id,
                    allocated_ports: ports,
                    ..stage.tracker
                })
            }
            &&& tasks[1].action == ActionView::SetContainerId(container_id)
        }),
{
}

/// A container is installed anew where it is known, not locked and not suspended, and only then.
pub proof fn law_renewal_refusals(state: ContainerStateView, suspended: bool)
    ensures
        renewal_refusal(None, suspended) == Some("Container not found"@),
        state.locked == Some(true) ==> renewal_refusal(Some(state), suspended) == Some(
            "Container is currently locked"@,
        ),
        state.locked != Some(true) && suspended ==> renewal_refusal(Some(state), suspended) == Some(
            "Cannot reinstall suspended container"@,
        ),
        state.locked != Some(true) && !suspended ==> renewal_refusal(Some(state), suspended) is None,
{
}

/// The container is locked first, and then shown as being installed.
pub proof fn law_renewal_begins()
    ensures
        renewal_begin().len() == 3,
        renewal_begin()[0].action == ActionView::Lock("Reinstalling"@),
        renewal_begin()[0].failure == Some("Failed to lock: "@),
        renewal_begin()[1].action == ActionView::SetState("installing"@),
        renewal_begin()[2].action == (ActionView::Notify {
            status: "installing"@,
            message: Some("Reinstalling container"@),
        }),
{
}

/// The new container is started to run the script. After one that succeeded the entrypoint holds
/// the startup command, and the container runs, or is stopped where it could not be started, and
/// success is told; after one that failed it is marked as failed, and that is told.
pub proof fn law_renewal_ends(stage: RenewRunView, error: Seq<char>, started: bool)
    ensures
        run_begin(stage.container_id).len() == 1,
        run_begin(stage.container_id)[0].action == ActionView::Start(stage.container_id),
        run_begin(stage.container_id)[0].failure == Some("Failed to start container: "@),
        run_waited(stage, true) matches StepView::Go(tasks, next) && {
            &&& tasks.len() == 1
            &&& tasks[0].action == (ActionView::WriteFile {
                path: stage.entrypoint,
                content: stage.line,
            })
            &&& tasks[0].failure == Some("Failed to write startup command: "@)
            &&& next.container_id == stage.container_id
        },
        run_waited(stage, false) matches StepView::Over(tasks) && {
            &&& has_action(tasks, ActionView::SetState("install_failed"@))
            &&& has_action(
                tasks,
                ActionView::Notify {
                    status: "install_failed"@,
                    message: Some("Install script failed or timed out"@),
                },
            )
        },
        has_action(run_failed(error), ActionView::SetState("install_failed"@)),
        has_action(
            run_failed(error),
            ActionView::Notify { status: "install_failed"@, message: Some(error) },
        ),
        has_action(renewal_failed(), ActionView::SetState("install_failed"@)),
        run_started(started).len() == 3,
        started ==> run_started(started)[0].action == ActionView::SetState("running"@),
        !started ==> run_started(started)[0].action == ActionView::SetState("stopped"@),
        run_started(started)[1].action == ActionView::Unlock,
        run_started(started)[2].action == (ActionView::Notify {
            status: "install_success"@,
            message: None,
        }),
{
    let failed = run_failed(error);
    assert(failed[1].action == (ActionView::Notify {
        status: "install_failed"@,
        message: Some(error),
    }));
    assert(failed[2].action == ActionView::SetState("install_failed"@));
    assert(renewal_failed()[0].action == ActionView::SetState("install_failed"@));
    if let StepView::Over(tasks) = run_waited(stage, false) {
        assert(tasks[1].action is Notify);
        assert(tasks[2].action == ActionView::SetState("install_failed"@));
    }
}

/// The new container goes on to run the script, in its own entrypoint and for ten minutes at
/// most, and then the startup command, as one line.
pub proof fn law_renewal_runs(
    stage: RenewCreateView,
    uuid: Seq<char>,
    container_id: Seq<char>,
    ports: Seq<PortAllocationView>,
    words: Seq<Seq<char>>,
    volumes: Seq<char>,
    e: Seq<char>,
)
    ensures
        renewal_made(stage, Ok((container_id, ports))) matches Ok((tasks, id)) && {
            &&& id == container_id
            &&& tasks == renewal_created(stage, container_id, ports)
        },
        renewal_made(stage, Err(e)) == Err::<(Seq<TaskView>, Seq<char>), Seq<char>>(
            "Failed to create container: "@ + e,
        ),
        ({
            let run = run_stage(uuid, container_id, words, volumes);
            &&& run.container_id == container_id
            &&& run.entrypoint == volumes + "/"@ + uuid + "_data"@ + "/entrypoint.sh"@
            &&& run.line == shell_line(words)
            &&& run.wait.waited == 0
            &&& run.wait.timeout_secs == 600
        }),
{
}

/// A renewal is of the container that was asked for, with the image and the runtime of the order
/// and its script.
pub proof fn law_renewal_does_what_was_asked(
    uuid: Seq<char>,
    volumes: Seq<char>,
    order: ReinstallRequestView,
    tracker: ContainerTrackerView,
)
    ensures
        renewal_stage(uuid, volumes, order).uuid == uuid,
        renewal_stage(uuid, volumes, order).volumes_path == volumes,
        renewal_stage(uuid, volumes, order).request == order,
        renewal_loaded(renewal_stage(uuid, volumes, order), Ok(Some(tracker))) matches Ok(
            (tasks, create),
        ) && {
            &&& create.request.custom_uuid == Some(uuid)
            &&& create.request.image == order.image
            &&& create.request.runtime == order.runtime
            &&& tasks[tasks.len() - 2].action == (ActionView::WriteFile {
                path: volumes + "/"@ + uuid + "_data"@ + "/entrypoint.sh"@,
                content: order.install_script,
            })
        },
{
}

} // verus!
