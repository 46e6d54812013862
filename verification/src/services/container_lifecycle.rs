//! Making containers anew around the directories that last.
//!
//! The UUID of a container never changes; the container of the engine behind it may at any
//! time. Every change of its configuration takes the old container away and makes a new one,
//! under a lock.

use super::exit_wait::{ExitWait, WaitEnd, SCRIPT_TIMEOUT_SECS};
use super::recipe::{
    data_path, data_path_of, entrypoint_command, entrypoint_path, entrypoint_path_of,
    entrypoint_words, join_words, law_all_ports_released, law_teardown_cannot_fail, port_map,
    port_pairs, push_release_tasks, push_startup_change, push_teardown, release_tasks, shell_line,
    startup_change, successor_request, successor_request_of, tcp_allocations, tcp_allocations_of,
    teardown, unless_empty, volume_path, volume_path_of,
};
use super::task::{
    all_keep_lock, attempt, demand, has_action, insist, is_guarded, lemma_guarded, refuse, refused,
    release, released, result_view, Action, ActionView, Ending, EndingView, Next, NextView, Task,
    TaskView,
};
use crate::docker::engine::{EngineConfig, EngineConfigView};
use crate::docker::network::{PortAllocation, PortAllocationView};
use crate::duplicate::Duplicate;
use crate::models::{
    no_limits, ContainerTracker, ContainerTrackerView, CreateContainerRequest,
    CreateContainerRequestView, ResourceLimits, ResourceLimitsView, Timestamp, VolumeMount,
};
use crate::number::{parsed, signed_decimal, signed_decimal_text};
use crate::outside::utc_now;
use crate::table::Table;
use crate::text::{cat2, cat3, joined};
use vstd::prelude::*;

verus! {

/// What to change in a container that is made anew.
#[derive(Debug, Clone)]
pub struct ContainerUpdateRequest {
    pub env: Option<Table<String>>,
    pub limits: Option<ResourceLimits>,
    pub ports: Option<Table<String>>,
    pub image: Option<String>,
    pub startup_command: Option<Vec<String>>,
}

/// What a [`ContainerUpdateRequest`] holds.
#[verifier::ext_equal]
pub struct ContainerUpdateRequestView {
    pub env: Option<Map<Seq<char>, Seq<char>>>,
    pub limits: Option<ResourceLimitsView>,
    pub ports: Option<Map<Seq<char>, Seq<char>>>,
    pub image: Option<Seq<char>>,
    pub startup_command: Option<Seq<Seq<char>>>,
}

impl DeepView for ContainerUpdateRequest {
    type V = ContainerUpdateRequestView;

    open spec fn deep_view(&self) -> ContainerUpdateRequestView {
        ContainerUpdateRequestView {
            env: self.env.deep_view(),
            limits: self.limits.deep_view(),
            ports: self.ports.deep_view(),
            image: self.image.deep_view(),
            startup_command: self.startup_command.deep_view(),
        }
    }
}

impl Duplicate for ContainerUpdateRequest {
    fn duplicate(&self) -> (r: Self) {
        ContainerUpdateRequest {
            env: self.env.duplicate(),
            limits: self.limits.duplicate(),
            ports: self.ports.duplicate(),
            image: self.image.duplicate(),
            startup_command: self.startup_command.duplicate(),
        }
    }
}

/// How long to wait between stopping and removing an old container, in milliseconds.
pub const TEARDOWN_PAUSE_MS: u64 = 300;

/// Makes and replaces containers; `volumes_path` is where their directories are.
#[derive(Debug, Clone)]
pub struct ContainerLifecycleManager {
    pub volumes_path: String,
}

/// The tasks with which an operation begins: the container is locked and its state is set.
pub open spec fn begin_tasks(
    reason: Seq<char>,
    lock_failure: Seq<char>,
    state: Seq<char>,
) -> Seq<TaskView> {
    seq![
        demand(ActionView::Lock(reason), lock_failure),
        insist(ActionView::SetState(state), "Failed to update state: "@),
    ]
}

/// The tasks with which an operation begins.
pub fn begin(reason: &str, lock_failure: &str, state: &str) -> (r: Vec<Task>)
    ensures
        r.deep_view() == begin_tasks(reason@, lock_failure@, state@),
{
    let mut r: Vec<Task> = Vec::new();
    r.push(Task::demand(Action::Lock(reason.to_string()), lock_failure));
    r.push(Task::insist(Action::SetState(state.to_string()), "Failed to update state: "));
    assert(r.deep_view() =~= begin_tasks(reason@, lock_failure@, state@));
    r
}

/// The record of a container, or the end of an operation that cannot go on without it. The
/// container is unlocked then.
pub open spec fn loaded<T>(
    reply: Result<Option<ContainerTrackerView>, Seq<char>>,
) -> Result<ContainerTrackerView, EndingView<T>> {
    match reply {
        Ok(Some(tracker)) => Ok(tracker),
        Ok(None) => Err(released("Container tracker data not found"@)),
        Err(e) => Err(released("Failed to load container data: "@ + e)),
    }
}

/// The record of a container, or the end of an operation that cannot go on without it.
pub fn load(reply: Result<Option<ContainerTracker>, String>) -> (r: Result<
    ContainerTracker,
    Ending<String>,
>)
    ensures
        match r {
            Ok(tracker) => loaded::<Seq<char>>(result_view(reply)) == Ok::<
                ContainerTrackerView,
                EndingView<Seq<char>>,
            >(tracker.deep_view()),
            Err(ending) => loaded::<Seq<char>>(result_view(reply)) == Err::<
                ContainerTrackerView,
                EndingView<Seq<char>>,
            >(ending.deep_view()),
        },
{
    match reply {
        Ok(Some(tracker)) => Ok(tracker),
        Ok(None) => Err(release("Container tracker data not found".to_string())),
        Err(e) => Err(release(cat2("Failed to load container data: ", e.as_str()))),
    }
}

/// The end of an operation that could not make the new container: the state is set to failed
/// and the container is unlocked.
pub open spec fn failed_ending(error: Seq<char>) -> EndingView<Seq<char>> {
    EndingView {
        tasks: seq![
            attempt(ActionView::SetState("failed"@)),
            attempt(ActionView::Unlock),
        ],
        result: Err(error),
    }
}

/// The end of an operation that could not make the new container.
pub fn fail(error: String) -> (r: Ending<String>)
    ensures
        r.deep_view() == failed_ending(error@),
{
    let mut tasks: Vec<Task> = Vec::new();
    tasks.push(Task::attempt(Action::SetState("failed".to_string())));
    tasks.push(Task::attempt(Action::Unlock));
    assert(tasks.deep_view() =~= failed_ending(error@).tasks);
    Ending { tasks, result: Err(error) }
}

/// The same, and the panel is told why.
pub open spec fn reported_failure(error: Seq<char>, message: Seq<char>) -> EndingView<Seq<char>> {
    EndingView {
        tasks: failed_ending(error).tasks.push(
            attempt(ActionView::Report { status: "install_failed"@, message }),
        ),
        result: Err(error),
    }
}

fn report_failure(error: String, message: String) -> (r: Ending<String>)
    ensures
        r.deep_view() == reported_failure(error@, message@),
{
    let ending = fail(error);
    let ghost before = ending.tasks.deep_view();
    let mut tasks = ending.tasks;
    tasks.push(
        Task::attempt(Action::Report { status: "install_failed".to_string(), message }),
    );
    assert(tasks.deep_view() =~= before.push(
        attempt(ActionView::Report { status: "install_failed"@, message: message@ }),
    ));
    Ending { tasks, result: ending.result }
}

// Recreation.

/// A recreation that asks for the record of the container.
#[derive(Debug, Clone)]
pub struct RecreateLoad {
    pub uuid: String,
    pub volumes_path: String,
    pub update: Option<ContainerUpdateRequest>,
}

/// What a [`RecreateLoad`] holds.
#[verifier::ext_equal]
pub struct RecreateLoadView {
    pub uuid: Seq<char>,
    pub volumes_path: Seq<char>,
    pub update: Option<ContainerUpdateRequestView>,
}

impl DeepView for RecreateLoad {
    type V = RecreateLoadView;

    open spec fn deep_view(&self) -> RecreateLoadView {
        RecreateLoadView {
            uuid: self.uuid@,
            volumes_path: self.volumes_path@,
            update: self.update.deep_view(),
        }
    }
}

/// A recreation that asks for a new container.
#[derive(Debug, Clone)]
pub struct RecreateCreate {
    pub request: CreateContainerRequest,
    pub tracker: ContainerTracker,
}

/// What a [`RecreateCreate`] holds.
#[verifier::ext_equal]
pub struct RecreateCreateView {
    pub request: CreateContainerRequestView,
    pub tracker: ContainerTrackerView,
}

impl DeepView for RecreateCreate {
    type V = RecreateCreateView;

    open spec fn deep_view(&self) -> RecreateCreateView {
        RecreateCreateView {
            request: self.request.deep_view(),
            tracker: self.tracker.deep_view(),
        }
    }
}

/// A recreation that asks for the start of the new container.
#[derive(Debug, Clone)]
pub struct RecreateStart {
    pub container_id: String,
}

/// What a [`RecreateStart`] holds.
#[verifier::ext_equal]
pub struct RecreateStartView {
    pub container_id: Seq<char>,
}

impl DeepView for RecreateStart {
    type V = RecreateStartView;

    open spec fn deep_view(&self) -> RecreateStartView {
        RecreateStartView {
            container_id: self.container_id@,
        }
    }
}

/// The tasks with which a recreation begins.
pub open spec fn recreate_begin() -> Seq<TaskView> {
    begin_tasks("Recreating container"@, "Failed to lock container: "@, "recreating"@).push(
        attempt(
            ActionView::Report {
                status: "recreating"@,
                message: "Container recreation in progress"@,
            },
        ),
    )
}

/// The request for the new container: what is to be changed comes from the update, the rest from
/// the record.
pub open spec fn recreate_request(
    uuid: Seq<char>,
    update: Option<ContainerUpdateRequestView>,
    tracker: ContainerTrackerView,
) -> CreateContainerRequestView {
    let env = match update {
        Some(u) if u.env is Some => u.env,
        _ => tracker.env,
    };
    let limits = match update {
        Some(u) if u.limits is Some => u.limits->0,
        _ => tracker.limits,
    };
    let image = match update {
        Some(u) if u.image is Some => u.image->0,
        _ => tracker.image,
    };
    let request = successor_request(
        uuid,
        tracker,
        image,
        env,
        Some(tracker.attached_volumes),
        limits,
    );
    CreateContainerRequestView {
        ports: match update {
            Some(u) if u.ports is Some => u.ports,
            _ => request.ports,
        },
        ..request
    }
}

/// The startup command that an update names.
pub open spec fn new_startup(update: Option<ContainerUpdateRequestView>) -> Option<
    Seq<Seq<char>>,
> {
    match update {
        Some(u) => u.startup_command,
        None => None,
    }
}

/// The record with the startup command that an update names, where it names one.
pub open spec fn with_startup(
    tracker: ContainerTrackerView,
    update: Option<ContainerUpdateRequestView>,
) -> ContainerTrackerView {
    match new_startup(update) {
        Some(words) => ContainerTrackerView { startup_command: Some(words), ..tracker },
        None => tracker,
    }
}

/// The tasks of a recreation that write the startup command that an update names.
pub open spec fn recreate_startup(stage: RecreateLoadView) -> Seq<TaskView> {
    match new_startup(stage.update) {
        Some(words) => startup_change(stage.volumes_path, stage.uuid, words),
        None => Seq::empty(),
    }
}

/// What a recreation does with the record of the container.
pub open spec fn recreate_loaded(
    stage: RecreateLoadView,
    reply: Result<Option<ContainerTrackerView>, Seq<char>>,
) -> NextView<RecreateCreateView, Seq<char>> {
    match loaded(reply) {
        Err(ending) => NextView::End(ending),
        Ok(tracker) => NextView::Go(
            recreate_startup(stage) + teardown(
                tracker.container_id,
                TEARDOWN_PAUSE_MS,
                tracker.allocated_ports,
            ),
            RecreateCreateView {
                request: recreate_request(stage.uuid, stage.update, tracker),
                tracker: with_startup(tracker, stage.update),
            },
        ),
    }
}

/// The record with the new container of the engine and its ports.
pub open spec fn succeeded_by(
    tracker: ContainerTrackerView,
    container_id: Seq<char>,
    ports: Seq<PortAllocationView>,
) -> ContainerTrackerView {
    ContainerTrackerView { container_id, allocated_ports: ports, ..tracker }
}

/// The record with the new container of the engine and its ports.
pub fn succeed(tracker: ContainerTracker, container_id: &str, ports: Vec<PortAllocation>) -> (r:
    ContainerTracker)
    ensures
        r.deep_view() == succeeded_by(tracker.deep_view(), container_id@, ports.deep_view()),
{
    let mut r = tracker;
    r.container_id = container_id.to_string();
    r.allocated_ports = ports;
    r
}

/// What a recreation does with the new container.
pub open spec fn recreate_created(
    stage: RecreateCreateView,
    reply: Result<(Seq<char>, Seq<PortAllocationView>), Seq<char>>,
) -> NextView<RecreateStartView, Seq<char>> {
    match reply {
        Ok((container_id, ports)) => NextView::Go(
            seq![
                attempt(
                    ActionView::SaveTracker(succeeded_by(stage.tracker, container_id, ports)),
                ),
                attempt(ActionView::SetContainerId(container_id)),
            ],
            RecreateStartView { container_id },
        ),
        Err(e) => NextView::End(
            reported_failure(
                "Failed to create container: "@ + e,
                "Container recreation failed: "@ + e,
            ),
        ),
    }
}

/// How a recreation ends, given whether the new container started.
pub open spec fn recreate_started(container_id: Seq<char>, started: bool) -> EndingView<Seq<char>> {
    EndingView {
        tasks: seq![
            attempt(
                ActionView::SetState(
                    if started {
                        "running"@
                    } else {
                        "failed"@
                    },
                ),
            ),
            attempt(ActionView::Unlock),
            attempt(
                ActionView::Report {
                    status: "install_success"@,
                    message: "Container recreated successfully"@,
                },
            ),
        ],
        result: Ok(container_id),
    }
}

impl RecreateLoad {
    /// Takes the record of the container: where the update names a startup command it is
    /// written, the old container is taken away, and a new one is asked for.
    pub fn tracker_loaded(self, reply: Result<Option<ContainerTracker>, String>) -> (r: Next<
        RecreateCreate,
        String,
    >)
        ensures
            r.deep_view() == recreate_loaded(self.deep_view(), result_view(reply)),
    {
        let tracker = match load(reply) {
            Ok(tracker) => tracker,
            Err(ending) => {
                return Next::End(ending);
            },
        };
        let ghost stage = self.deep_view();
        let mut record = tracker.duplicate();
        let mut tasks: Vec<Task> = Vec::new();
        assert(tasks.deep_view() =~= Seq::<TaskView>::empty());
        if let Some(update) = &self.update {
            if let Some(words) = &update.startup_command {
                push_startup_change(
                    &mut tasks,
                    self.volumes_path.as_str(),
                    self.uuid.as_str(),
                    words,
                );
                record.startup_command = Some(words.duplicate());
            }
        }
        assert(tasks.deep_view() =~= recreate_startup(stage));
        push_teardown(&mut tasks, &tracker, TEARDOWN_PAUSE_MS);
        let (env, limits, image, ports) = match self.update {
            Some(update) => {
                let env = match update.env {
                    Some(env) => Some(env),
                    None => tracker.env.duplicate(),
                };
                let limits = match update.limits {
                    Some(limits) => limits,
                    None => tracker.limits.duplicate(),
                };
                let image = match update.image {
                    Some(image) => image,
                    None => tracker.image.clone(),
                };
                (env, limits, image, update.ports)
            },
            None => (
                tracker.env.duplicate(),
                tracker.limits.duplicate(),
                tracker.image.clone(),
                None,
            ),
        };
        let volumes = Some(tracker.attached_volumes.duplicate());
        let mut request = successor_request_of(
            self.uuid.as_str(),
            &tracker,
            image,
            env,
            volumes,
            limits,
        );
        if ports.is_some() {
            request.ports = ports;
        }
        Next::Go(tasks, RecreateCreate { request, tracker: record })
    }
}

impl RecreateCreate {
    /// Takes the new container and its ports: they are recorded, and its start is asked for.
    pub fn created(self, reply: Result<(String, Vec<PortAllocation>), String>) -> (r: Next<
        RecreateStart,
        String,
    >)
        ensures
            r.deep_view() == recreate_created(self.deep_view(), result_view(reply)),
    {
        match reply {
            Ok((container_id, ports)) => {
                let tracker = succeed(self.tracker, container_id.as_str(), ports);
                let mut tasks: Vec<Task> = Vec::new();
                tasks.push(Task::attempt(Action::SaveTracker(tracker)));
                tasks.push(Task::attempt(Action::SetContainerId(container_id.clone())));
                assert(tasks.deep_view() =~= seq![
                    attempt(ActionView::SaveTracker(tracker.deep_view())),
                    attempt(ActionView::SetContainerId(container_id@)),
                ]);
                Next::Go(tasks, RecreateStart { container_id })
            },
            Err(e) => Next::End(
                report_failure(
                    cat2("Failed to create container: ", e.as_str()),
                    cat2("Container recreation failed: ", e.as_str()),
                ),
            ),
        }
    }
}

impl RecreateStart {
    /// Takes whether the new container started. It is made either way.
    pub fn started(self, reply: &Result<(), String>) -> (r: Ending<String>)
        ensures
            r.deep_view() == recreate_started(self.container_id@, reply is Ok),
    {
        let state = match reply {
            Ok(_) => "running",
            Err(_) => "failed",
        };
        let mut tasks: Vec<Task> = Vec::new();
        tasks.push(Task::attempt(Action::SetState(state.to_string())));
        tasks.push(Task::attempt(Action::Unlock));
        tasks.push(
            Task::attempt(
                Action::Report {
                    status: "install_success".to_string(),
                    message: "Container recreated successfully".to_string(),
                },
            ),
        );
        assert(tasks.deep_view() =~= recreate_started(self.container_id@, reply is Ok).tasks);
        Ending { tasks, result: Ok(self.container_id) }
    }
}

// A change of ports.

/// A change of ports that asks for the record of the container.
#[derive(Debug, Clone)]
pub struct PortsLoad {
    pub uuid: String,
    pub volumes_path: String,
    pub ports: Table<String>,
}

/// What a [`PortsLoad`] holds.
#[verifier::ext_equal]
pub struct PortsLoadView {
    pub uuid: Seq<char>,
    pub volumes_path: Seq<char>,
    pub ports: Map<Seq<char>, Seq<char>>,
}

impl DeepView for PortsLoad {
    type V = PortsLoadView;

    open spec fn deep_view(&self) -> PortsLoadView {
        PortsLoadView {
            uuid: self.uuid@,
            volumes_path: self.volumes_path@,
            ports: self.ports.deep_view(),
        }
    }
}

/// A change of ports that asks for ports of the host.
#[derive(Debug, Clone)]
pub struct PortsAllocate {
    pub uuid: String,
    pub volumes_path: String,
    pub ports: Table<String>,
}

/// What a [`PortsAllocate`] holds.
#[verifier::ext_equal]
pub struct PortsAllocateView {
    pub uuid: Seq<char>,
    pub volumes_path: Seq<char>,
    pub ports: Map<Seq<char>, Seq<char>>,
}

impl DeepView for PortsAllocate {
    type V = PortsAllocateView;

    open spec fn deep_view(&self) -> PortsAllocateView {
        PortsAllocateView {
            uuid: self.uuid@,
            volumes_path: self.volumes_path@,
            ports: self.ports.deep_view(),
        }
    }
}

/// What a change of ports does with the record of the container.
pub open spec fn ports_loaded(
    stage: PortsLoadView,
    reply: Result<Option<ContainerTrackerView>, Seq<char>>,
) -> NextView<PortsAllocateView, Seq<char>> {
    match reply {
        Err(e) => NextView::End(refused(e)),
        Ok(None) => NextView::End(refused("Container not found"@)),
        Ok(Some(tracker)) => NextView::Go(
            release_tasks(tracker.allocated_ports),
            PortsAllocateView {
                uuid: stage.uuid,
                volumes_path: stage.volumes_path,
                ports: stage.ports,
            },
        ),
    }
}

/// What a change of ports does with the new ports: they are recorded, and the container is made
/// anew.
pub open spec fn ports_allocated(
    uuid: Seq<char>,
    volumes: Seq<char>,
    reply: Result<Table<String>, String>,
) -> NextView<RecreateLoadView, Seq<char>> {
    match reply {
        Err(e) => NextView::End(refused("Port allocation failed: "@ + e@)),
        Ok(ports) => NextView::Go(
            seq![
                demand(ActionView::TrackPorts(tcp_allocations(ports.pairs())), ""@),
            ] + recreate_begin(),
            RecreateLoadView {
                uuid,
                volumes_path: volumes,
                update: Some(
                    ContainerUpdateRequestView {
                        env: None,
                        limits: None,
                        ports: Some(ports@),
                        image: None,
                        startup_command: None,
                    },
                ),
            },
        ),
    }
}

impl PortsLoad {
    /// Takes the record of the container: its old ports are given back.
    pub fn tracker_loaded(self, reply: Result<Option<ContainerTracker>, String>) -> (r: Next<
        PortsAllocate,
        String,
    >)
        ensures
            r.deep_view() == ports_loaded(self.deep_view(), result_view(reply)),
    {
        match reply {
            Err(e) => Next::End(refuse(e)),
            Ok(None) => Next::End(refuse("Container not found".to_string())),
            Ok(Some(tracker)) => {
                let mut tasks: Vec<Task> = Vec::new();
                assert(tasks.deep_view() =~= Seq::<TaskView>::empty());
                push_release_tasks(&mut tasks, &tracker.allocated_ports);
                assert(tasks.deep_view() =~= release_tasks(tracker.allocated_ports.deep_view()));
                Next::Go(
                    tasks,
                    PortsAllocate {
                        uuid: self.uuid,
                        volumes_path: self.volumes_path,
                        ports: self.ports,
                    },
                )
            },
        }
    }
}

impl PortsAllocate {
    /// Takes the ports that the host gave.
    pub fn allocated(self, reply: Result<Table<String>, String>) -> (r: Next<RecreateLoad, String>)
        ensures
            r.deep_view() == ports_allocated(self.uuid@, self.volumes_path@, reply),
    {
        match reply {
            Err(e) => Next::End(refuse(cat2("Port allocation failed: ", e.as_str()))),
            Ok(ports) => {
                let allocations = tcp_allocations_of(&ports);
                let update = ContainerUpdateRequest {
                    env: None,
                    limits: None,
                    ports: Some(ports),
                    image: None,
                    startup_command: None,
                };
                let (begun, then) = recreate(self.uuid, self.volumes_path, Some(update));
                let mut tasks: Vec<Task> = Vec::new();
                tasks.push(Task::demand(Action::TrackPorts(allocations), ""));
                let ghost first = tasks.deep_view();
                assert(first =~= seq![
                    demand(ActionView::TrackPorts(tcp_allocations(ports.pairs())), ""@),
                ]);
                let mut rest = begun;
                let ghost second = rest.deep_view();
                tasks.append(&mut rest);
                assert(tasks.deep_view() =~= first + second);
                Next::Go(tasks, then)
            },
        }
    }
}

/// A recreation that asks for the record of the container.
pub open spec fn recreate_stage(
    uuid: Seq<char>,
    volumes: Seq<char>,
    update: Option<ContainerUpdateRequestView>,
) -> RecreateLoadView {
    RecreateLoadView { uuid, volumes_path: volumes, update }
}

/// A change of ports that asks for the record of the container.
pub open spec fn ports_stage(
    uuid: Seq<char>,
    volumes: Seq<char>,
    ports: Map<Seq<char>, Seq<char>>,
) -> PortsLoadView {
    PortsLoadView { uuid, volumes_path: volumes, ports }
}

fn recreate(uuid: String, volumes_path: String, update: Option<ContainerUpdateRequest>) -> (r: (
    Vec<Task>,
    RecreateLoad,
))
    ensures
        r.0.deep_view() == recreate_begin(),
        r.1.deep_view() == recreate_stage(uuid@, volumes_path@, update.deep_view()),
{
    let mut tasks = begin("Recreating container", "Failed to lock container: ", "recreating");
    let ghost before = tasks.deep_view();
    tasks.push(
        Task::attempt(
            Action::Report {
                status: "recreating".to_string(),
                message: "Container recreation in progress".to_string(),
            },
        ),
    );
    assert(tasks.deep_view() =~= recreate_begin());
    (tasks, RecreateLoad { uuid, volumes_path, update })
}

/// An update that changes nothing.
pub open spec fn no_update() -> ContainerUpdateRequestView {
    ContainerUpdateRequestView {
        env: None,
        limits: None,
        ports: None,
        image: None,
        startup_command: None,
    }
}

/// An update of the environment alone.
pub open spec fn env_update(env: Map<Seq<char>, Seq<char>>) -> ContainerUpdateRequestView {
    ContainerUpdateRequestView { env: Some(env), ..no_update() }
}

/// An update of the limits alone.
pub open spec fn limits_update(limits: ResourceLimitsView) -> ContainerUpdateRequestView {
    ContainerUpdateRequestView { limits: Some(limits), ..no_update() }
}

/// An update of the image alone.
pub open spec fn image_update(image: Seq<char>) -> ContainerUpdateRequestView {
    ContainerUpdateRequestView { image: Some(image), ..no_update() }
}

impl ContainerLifecycleManager {
    /// A manager for containers whose directories are under `volumes_path`.
    pub fn new(volumes_path: String) -> (r: Self)
        ensures
            r.volumes_path@ == volumes_path@,
    {
        ContainerLifecycleManager { volumes_path }
    }

    /// Makes a container anew, with what is to be changed. Its UUID, its name and its directories
    /// stay; the container of the engine is another one.
    pub fn recreate_container(&self, uuid: &str, update: Option<ContainerUpdateRequest>) -> (r: (
        Vec<Task>,
        RecreateLoad,
    ))
        ensures
            r.0.deep_view() == recreate_begin(),
            r.1.deep_view() == recreate_stage(uuid@, self.volumes_path@, update.deep_view()),
    {
        recreate(uuid.to_string(), self.volumes_path.clone(), update)
    }

    /// Makes a container anew with other environment variables.
    pub fn update_env(&self, uuid: &str, env: Table<String>) -> (r: (Vec<Task>, RecreateLoad))
        ensures
            r.0.deep_view() == recreate_begin(),
            r.1.deep_view() == recreate_stage(uuid@, self.volumes_path@, Some(env_update(env@))),
    {
        let update = ContainerUpdateRequest {
            env: Some(env),
            limits: None,
            ports: None,
            image: None,
            startup_command: None,
        };
        recreate(uuid.to_string(), self.volumes_path.clone(), Some(update))
    }

    /// Makes a container anew with other limits.
    pub fn update_limits(&self, uuid: &str, limits: ResourceLimits) -> (r: (Vec<Task>, RecreateLoad))
        ensures
            r.0.deep_view() == recreate_begin(),
            r.1.deep_view() == recreate_stage(uuid@, self.volumes_path@, Some(limits_update(limits.deep_view()))),
    {
        let update = ContainerUpdateRequest {
            env: None,
            limits: Some(limits),
            ports: None,
            image: None,
            startup_command: None,
        };
        recreate(uuid.to_string(), self.volumes_path.clone(), Some(update))
    }

    /// Gives a container other ports: the old ones are given back, new ones are asked for, and
    /// the container is made anew with them.
    pub fn update_ports(&self, uuid: &str, ports: Table<String>) -> (r: PortsLoad)
        ensures
            r.deep_view() == ports_stage(uuid@, self.volumes_path@, ports@),
    {
        PortsLoad { uuid: uuid.to_string(), volumes_path: self.volumes_path.clone(), ports }
    }

    /// Makes a container anew from another image.
    pub fn change_image(&self, uuid: &str, image: String) -> (r: (Vec<Task>, RecreateLoad))
        ensures
            r.0.deep_view() == recreate_begin(),
            r.1.deep_view() == recreate_stage(uuid@, self.volumes_path@, Some(image_update(image@))),
    {
        let update = ContainerUpdateRequest {
            env: None,
            limits: None,
            ports: None,
            image: Some(image),
            startup_command: None,
        };
        recreate(uuid.to_string(), self.volumes_path.clone(), Some(update))
    }
}

// A new container with an installation.

/// A container that does not exist yet.
#[derive(Debug, Clone)]
pub struct NewContainer {
    pub uuid: String,
    pub image: String,
    pub name: String,
    pub description: Option<String>,
    pub startup_command: Option<Vec<String>>,
    pub env: Option<Table<String>>,
    pub ports: Option<Table<String>>,
    pub limits: Option<ResourceLimits>,
}

/// What a [`NewContainer`] holds.
#[verifier::ext_equal]
pub struct NewContainerView {
    pub uuid: Seq<char>,
    pub image: Seq<char>,
    pub name: Seq<char>,
    pub description: Option<Seq<char>>,
    pub startup_command: Option<Seq<Seq<char>>>,
    pub env: Option<Map<Seq<char>, Seq<char>>>,
    pub ports: Option<Map<Seq<char>, Seq<char>>>,
    pub limits: Option<ResourceLimitsView>,
}

impl DeepView for NewContainer {
    type V = NewContainerView;

    open spec fn deep_view(&self) -> NewContainerView {
        NewContainerView {
            uuid: self.uuid@,
            image: self.image@,
            name: self.name@,
            description: self.description.deep_view(),
            startup_command: self.startup_command.deep_view(),
            env: self.env.deep_view(),
            ports: self.ports.deep_view(),
            limits: self.limits.deep_view(),
        }
    }
}

/// An installation that asks for the absolute paths of the directories of the container.
#[derive(Debug, Clone)]
pub struct InstallPaths {
    pub order: NewContainer,
    pub volumes_path: String,
    pub volume_path: String,
    pub data_path: String,
}

/// What a [`InstallPaths`] holds.
#[verifier::ext_equal]
pub struct InstallPathsView {
    pub order: NewContainerView,
    pub volumes_path: Seq<char>,
    pub volume_path: Seq<char>,
    pub data_path: Seq<char>,
}

impl DeepView for InstallPaths {
    type V = InstallPathsView;

    open spec fn deep_view(&self) -> InstallPathsView {
        InstallPathsView {
            order: self.order.deep_view(),
            volumes_path: self.volumes_path@,
            volume_path: self.volume_path@,
            data_path: self.data_path@,
        }
    }
}

/// An installation that asks for a container to run its script.
#[derive(Debug, Clone)]
pub struct InstallTemp {
    pub order: NewContainer,
    pub volumes_path: String,
    pub config: EngineConfig,
}

/// What a [`InstallTemp`] holds.
#[verifier::ext_equal]
pub struct InstallTempView {
    pub order: NewContainerView,
    pub volumes_path: Seq<char>,
    pub config: EngineConfigView,
}

impl DeepView for InstallTemp {
    type V = InstallTempView;

    open spec fn deep_view(&self) -> InstallTempView {
        InstallTempView {
            order: self.order.deep_view(),
            volumes_path: self.volumes_path@,
            config: self.config.deep_view(),
        }
    }
}

/// An installation whose script runs.
#[derive(Debug, Clone)]
pub struct InstallWaiting {
    pub order: NewContainer,
    pub volumes_path: String,
    pub temp_id: String,
    pub wait: ExitWait,
}

/// What a [`InstallWaiting`] holds.
#[verifier::ext_equal]
pub struct InstallWaitingView {
    pub order: NewContainerView,
    pub volumes_path: Seq<char>,
    pub temp_id: Seq<char>,
    pub wait: ExitWait,
}

impl DeepView for InstallWaiting {
    type V = InstallWaitingView;

    open spec fn deep_view(&self) -> InstallWaitingView {
        InstallWaitingView {
            order: self.order.deep_view(),
            volumes_path: self.volumes_path@,
            temp_id: self.temp_id@,
            wait: self.wait,
        }
    }
}

/// An installation that asks for the container that stays.
#[derive(Debug, Clone)]
pub struct InstallCreate {
    pub order: NewContainer,
    pub request: CreateContainerRequest,
    /// Whether the script succeeded, where there was one.
    pub installed: Option<bool>,
}

/// What a [`InstallCreate`] holds.
#[verifier::ext_equal]
pub struct InstallCreateView {
    pub order: NewContainerView,
    pub request: CreateContainerRequestView,
    pub installed: Option<bool>,
}

impl DeepView for InstallCreate {
    type V = InstallCreateView;

    open spec fn deep_view(&self) -> InstallCreateView {
        InstallCreateView {
            order: self.order.deep_view(),
            request: self.request.deep_view(),
            installed: self.installed.deep_view(),
        }
    }
}

/// What an installation asks first.
#[derive(Debug)]
pub enum InstallStep {
    /// There is a script to run.
    Paths(InstallPaths),
    /// There is none.
    Create(InstallCreate),
}

/// What an [`InstallStep`] holds.
#[verifier::ext_equal]
pub enum InstallStepView {
    Paths(InstallPathsView),
    Create(InstallCreateView),
}

impl DeepView for InstallStep {
    type V = InstallStepView;

    open spec fn deep_view(&self) -> InstallStepView {
        match self {
            InstallStep::Paths(stage) => InstallStepView::Paths(stage.deep_view()),
            InstallStep::Create(stage) => InstallStepView::Create(stage.deep_view()),
        }
    }
}

/// The order of a new container.
pub open spec fn ordered(
    uuid: Seq<char>,
    image: Seq<char>,
    name: Seq<char>,
    description: Option<Seq<char>>,
    startup_command: Option<Seq<Seq<char>>>,
    env: Option<Map<Seq<char>, Seq<char>>>,
    ports: Option<Map<Seq<char>, Seq<char>>>,
    limits: Option<ResourceLimitsView>,
) -> NewContainerView {
    NewContainerView { uuid, image, name, description, startup_command, env, ports, limits }
}

/// The tasks with which an installation begins.
pub open spec fn install_begin(volumes: Seq<char>, uuid: Seq<char>) -> Seq<TaskView> {
    begin_tasks("Installing"@, "Failed to lock: "@, "installing"@) + seq![
        insist(
            ActionView::MakeDirectory(volume_path(volumes, uuid)),
            "Failed to create volume dir: "@,
        ),
        insist(
            ActionView::MakeDirectory(data_path(volumes, uuid)),
            "Failed to create data dir: "@,
        ),
    ]
}

/// The tasks that write the script of an installation.
pub open spec fn script_tasks(
    volumes: Seq<char>,
    uuid: Seq<char>,
    script: Seq<char>,
) -> Seq<TaskView> {
    let path = data_path(volumes, uuid) + "/install.sh"@;
    seq![
        insist(
            ActionView::WriteFile { path, content: script },
            "Failed to write install script: "@,
        ),
        attempt(ActionView::MakeExecutable(path)),
    ]
}

/// The line that a container runs which was made with an installation.
pub open spec fn installed_line(command: Option<Seq<Seq<char>>>) -> Seq<char> {
    match command {
        Some(words) => joined(words, " "@),
        None => "sleep infinity"@,
    }
}

/// The tasks that write what the container runs.
pub open spec fn entrypoint_tasks(volumes: Seq<char>, order: NewContainerView) -> Seq<TaskView> {
    let path = entrypoint_path(volumes, order.uuid);
    seq![
        insist(
            ActionView::WriteFile { path, content: installed_line(order.startup_command) },
            "Failed to write entrypoint: "@,
        ),
        attempt(ActionView::MakeExecutable(path)),
    ]
}

/// The request for the container that stays.
pub open spec fn new_request(order: NewContainerView) -> CreateContainerRequestView {
    CreateContainerRequestView {
        image: order.image,
        name: Some(order.name),
        description: order.description,
        startup_command: Some(entrypoint_command()),
        env: order.env,
        ports: order.ports,
        volumes: None,
        command: None,
        working_dir: None,
        restart_policy: None,
        custom_uuid: Some(order.uuid),
        limits: order.limits,
        install_content: None,
        runtime: None,
        request_id: None,
    }
}

/// What is asked for once nothing is left to install.
pub open spec fn install_create(
    order: NewContainerView,
    installed: Option<bool>,
) -> InstallCreateView {
    InstallCreateView { order, request: new_request(order), installed }
}

/// How an installation begins.
pub open spec fn install_started(
    volumes: Seq<char>,
    order: NewContainerView,
    script: Option<Seq<char>>,
) -> (Seq<TaskView>, InstallStepView) {
    match script {
        Some(script) => (
            install_begin(volumes, order.uuid) + script_tasks(volumes, order.uuid, script),
            InstallStepView::Paths(
                InstallPathsView {
                    order,
                    volumes_path: volumes,
                    volume_path: volume_path(volumes, order.uuid),
                    data_path: data_path(volumes, order.uuid),
                },
            ),
        ),
        None => (
            install_begin(volumes, order.uuid) + entrypoint_tasks(volumes, order),
            InstallStepView::Create(install_create(order, None)),
        ),
    }
}

/// The directories of the host that a container sees.
pub open spec fn container_binds(volume: Seq<char>, data: Seq<char>) -> Seq<Seq<char>> {
    seq![volume + ":/home/container"@, data + ":/data:ro"@]
}

/// The container that runs the script of an installation. It is named after the time.
pub open spec fn temp_config(
    order: NewContainerView,
    volume: Seq<char>,
    data: Seq<char>,
    now: Timestamp,
) -> EngineConfigView {
    EngineConfigView {
        name: order.uuid + "-install-"@ + signed_decimal(now.secs as int),
        image: order.image,
        cmd: seq!["/bin/sh"@, "/data/install.sh"@],
        working_dir: "/home/container"@,
        tty: true,
        interactive: false,
        env: seq!["MODE=INSTALL"@],
        binds: container_binds(volume, data),
        ports: None,
        restart_unless_stopped: false,
        oom_kill_disable: None,
    }
}

/// What an installation does with the absolute paths of the directories.
pub open spec fn install_resolved(
    stage: InstallPathsView,
    volume: Result<Seq<char>, Seq<char>>,
    data: Result<Seq<char>, Seq<char>>,
    now: Timestamp,
) -> NextView<InstallTempView, Seq<char>> {
    match (volume, data) {
        (Err(e), _) => NextView::End(released("Failed to get abs path: "@ + e)),
        (_, Err(e)) => NextView::End(released("Failed to get abs data path: "@ + e)),
        (Ok(volume), Ok(data)) => NextView::Go(
            seq![insist(ActionView::Pull(stage.order.image), "Failed to pull image: "@)],
            InstallTempView {
                order: stage.order,
                volumes_path: stage.volumes_path,
                config: temp_config(stage.order, volume, data, now),
            },
        ),
    }
}

/// What an installation does with the container that runs its script.
pub open spec fn install_temp_created(
    stage: InstallTempView,
    reply: Result<Seq<char>, Seq<char>>,
) -> NextView<InstallWaitingView, Seq<char>> {
    match reply {
        Err(e) => NextView::End(released("Failed to create temp container: "@ + e)),
        Ok(temp_id) => NextView::Go(
            seq![insist(ActionView::Start(temp_id), "Failed to start temp container: "@)],
            InstallWaitingView {
                order: stage.order,
                volumes_path: stage.volumes_path,
                temp_id,
                wait: ExitWait { waited: 0, timeout_secs: SCRIPT_TIMEOUT_SECS },
            },
        ),
    }
}

/// What an installation does when the wait for its script has ended: the container that ran it
/// is removed, and the one that stays is asked for, however the script ended.
pub open spec fn install_waited(stage: InstallWaitingView, success: bool) -> (
    Seq<TaskView>,
    InstallCreateView,
) {
    (
        seq![attempt(ActionView::RemoveForced(stage.temp_id))] + entrypoint_tasks(
            stage.volumes_path,
            stage.order,
        ),
        install_create(stage.order, Some(success)),
    )
}

/// The state of a container that was made with an installation.
pub open spec fn installed_state(installed: Option<bool>) -> Seq<char> {
    if installed == Some(false) {
        "install_failed"@
    } else {
        "stopped"@
    }
}

/// The record of a container that was made with an installation.
pub open spec fn installed_tracker(
    stage: InstallCreateView,
    container_id: Seq<char>,
    ports: Seq<PortAllocationView>,
    now: Timestamp,
) -> ContainerTrackerView {
    ContainerTrackerView {
        custom_uuid: stage.order.uuid,
        container_id,
        name: stage.order.name,
        image: stage.order.image,
        description: None,
        startup_command: stage.order.startup_command,
        created_at: now,
        limits: match stage.order.limits {
            Some(limits) => limits,
            None => no_limits(),
        },
        allocated_ports: ports,
        attached_volumes: Seq::empty(),
        ports: Map::empty(),
        env: None,
        status: installed_state(stage.installed),
        runtime: None,
    }
}

/// How an installation ends.
pub open spec fn install_created(
    stage: InstallCreateView,
    reply: Result<(Seq<char>, Seq<PortAllocationView>), Seq<char>>,
    now: Timestamp,
) -> EndingView<Seq<char>> {
    match reply {
        Ok((container_id, ports)) => EndingView {
            tasks: seq![
                attempt(ActionView::SetState(installed_state(stage.installed))),
                attempt(ActionView::SetContainerId(container_id)),
                attempt(
                    ActionView::SaveTracker(installed_tracker(stage, container_id, ports, now)),
                ),
                attempt(ActionView::Unlock),
                attempt(
                    if stage.installed == Some(false) {
                        ActionView::Report {
                            status: "install_failed"@,
                            message: "Install failed"@,
                        }
                    } else {
                        ActionView::Report {
                            status: "install_success"@,
                            message: "Install complete"@,
                        }
                    },
                ),
            ],
            result: Ok(container_id),
        },
        Err(e) => reported_failure(
            "Failed to create container: "@ + e,
            "Failed to create container: "@ + e,
        ),
    }
}

fn push_entrypoint_tasks(tasks: &mut Vec<Task>, volumes: &str, order: &NewContainer)
    ensures
        final(tasks).deep_view() == old(tasks).deep_view() + entrypoint_tasks(
            volumes@,
            order.deep_view(),
        ),
{
    let ghost start = tasks.deep_view();
    let path = entrypoint_path_of(volumes, order.uuid.as_str());
    let line = match &order.startup_command {
        Some(words) => {
            assert(words.deep_view().skip(0) =~= words.deep_view());
            join_words(words, 0)
        },
        None => "sleep infinity".to_string(),
    };
    tasks.push(
        Task::insist(
            Action::WriteFile { path: path.clone(), content: line },
            "Failed to write entrypoint: ",
        ),
    );
    tasks.push(Task::attempt(Action::MakeExecutable(path)));
    assert(tasks.deep_view() =~= start + entrypoint_tasks(volumes@, order.deep_view()));
}

fn create_stage(order: NewContainer, installed: Option<bool>) -> (r: InstallCreate)
    ensures
        r.deep_view() == install_create(order.deep_view(), installed),
{
    let request = CreateContainerRequest {
        image: order.image.clone(),
        name: Some(order.name.clone()),
        description: order.description.duplicate(),
        startup_command: Some(entrypoint_words()),
        env: order.env.duplicate(),
        ports: order.ports.duplicate(),
        volumes: None,
        command: None,
        working_dir: None,
        restart_policy: None,
        custom_uuid: Some(order.uuid.clone()),
        limits: order.limits.duplicate(),
        install_content: None,
        runtime: None,
        request_id: None,
    };
    InstallCreate { order, request, installed }
}

impl ContainerLifecycleManager {
    /// Makes a new container. Where there is a script to install it with, the script runs in a
    /// container of its own first, which does not last.
    pub fn create_with_install(
        &self,
        uuid: &str,
        image: &str,
        name: &str,
        description: Option<String>,
        startup_command: Option<Vec<String>>,
        env: Option<Table<String>>,
        ports: Option<Table<String>>,
        limits: Option<ResourceLimits>,
        install_script: Option<String>,
    ) -> (r: (Vec<Task>, InstallStep))
        ensures
            (r.0.deep_view(), r.1.deep_view()) == install_started(
                self.volumes_path@,
                ordered(
                    uuid@,
                    image@,
                    name@,
                    description.deep_view(),
                    startup_command.deep_view(),
                    env.deep_view(),
                    ports.deep_view(),
                    limits.deep_view(),
                ),
                install_script.deep_view(),
            ),
    {
        let volumes = self.volumes_path.as_str();
        let order = NewContainer {
            uuid: uuid.to_string(),
            image: image.to_string(),
            name: name.to_string(),
            description,
            startup_command,
            env,
            ports,
            limits,
        };
        let mut tasks = begin("Installing", "Failed to lock: ", "installing");
        let volume = volume_path_of(volumes, uuid);
        let data = data_path_of(volumes, uuid);
        tasks.push(
            Task::insist(
                Action::MakeDirectory(volume.clone()),
                "Failed to create volume dir: ",
            ),
        );
        tasks.push(
            Task::insist(Action::MakeDirectory(data.clone()), "Failed to create data dir: "),
        );
        assert(tasks.deep_view() =~= install_begin(volumes@, uuid@));
        match install_script {
            Some(script) => {
                let path = cat2(data.as_str(), "/install.sh");
                tasks.push(
                    Task::insist(
                        Action::WriteFile { path: path.clone(), content: script },
                        "Failed to write install script: ",
                    ),
                );
                tasks.push(Task::attempt(Action::MakeExecutable(path)));
                assert(tasks.deep_view() =~= install_begin(volumes@, uuid@) + script_tasks(
                    volumes@,
                    uuid@,
                    script@,
                ));
                let stage = InstallPaths {
                    order,
                    volumes_path: self.volumes_path.clone(),
                    volume_path: volume,
                    data_path: data,
                };
                (tasks, InstallStep::Paths(stage))
            },
            None => {
                push_entrypoint_tasks(&mut tasks, volumes, &order);
                (tasks, InstallStep::Create(create_stage(order, None)))
            },
        }
    }
}

/// The directories of the host that a container sees.
pub fn binds_of(volume: &str, data: &str) -> (r: Vec<String>)
    ensures
        r.deep_view() == container_binds(volume@, data@),
{
    let mut r: Vec<String> = Vec::new();
    r.push(cat2(volume, ":/home/container"));
    r.push(cat2(data, ":/data:ro"));
    assert(r.deep_view() =~= container_binds(volume@, data@));
    r
}

impl InstallPaths {
    /// Takes the absolute paths of the two directories of the container.
    pub fn resolved(self, volume: Result<String, String>, data: Result<String, String>) -> (r: Next<
        InstallTemp,
        String,
    >)
        ensures
            exists|now: Timestamp|
                now.secs >= 0 && r.deep_view() == #[trigger] install_resolved(
                    self.deep_view(),
                    result_view(volume),
                    result_view(data),
                    now,
                ),
    {
        let now = utc_now();
        self.resolved_at(volume, data, now)
    }

    /// Takes the absolute paths of the two directories of the container, at the time given.
    pub fn resolved_at(
        self,
        volume: Result<String, String>,
        data: Result<String, String>,
        now: Timestamp,
    ) -> (r: Next<InstallTemp, String>)
        ensures
            r.deep_view() == install_resolved(
                self.deep_view(),
                result_view(volume),
                result_view(data),
                now,
            ),
    {
        let volume = match volume {
            Ok(path) => path,
            Err(e) => {
                return Next::End(release(cat2("Failed to get abs path: ", e.as_str())));
            },
        };
        let data = match data {
            Ok(path) => path,
            Err(e) => {
                return Next::End(release(cat2("Failed to get abs data path: ", e.as_str())));
            },
        };
        let mut cmd: Vec<String> = Vec::new();
        cmd.push("/bin/sh".to_string());
        cmd.push("/data/install.sh".to_string());
        let mut env: Vec<String> = Vec::new();
        env.push("MODE=INSTALL".to_string());
        assert(cmd.deep_view() =~= seq!["/bin/sh"@, "/data/install.sh"@]);
        assert(env.deep_view() =~= seq!["MODE=INSTALL"@]);
        let config = EngineConfig {
            name: cat3(
                self.order.uuid.as_str(),
                "-install-",
                signed_decimal_text(now.secs).as_str(),
            ),
            image: self.order.image.clone(),
            cmd,
            working_dir: "/home/container".to_string(),
            tty: true,
            interactive: false,
            env,
            binds: binds_of(volume.as_str(), data.as_str()),
            ports: None,
            restart_unless_stopped: false,
            oom_kill_disable: None,
        };
        let mut tasks: Vec<Task> = Vec::new();
        tasks.push(Task::insist(Action::Pull(self.order.image.clone()), "Failed to pull image: "));
        assert(tasks.deep_view() =~= seq![
            insist(ActionView::Pull(self.order.image@), "Failed to pull image: "@),
        ]);
        Next::Go(
            tasks,
            InstallTemp { order: self.order, volumes_path: self.volumes_path, config },
        )
    }
}

impl InstallTemp {
    /// Takes the container that runs the script.
    pub fn created(self, reply: Result<String, String>) -> (r: Next<InstallWaiting, String>)
        ensures
            r.deep_view() == install_temp_created(self.deep_view(), result_view(reply)),
    {
        match reply {
            Err(e) => Next::End(release(cat2("Failed to create temp container: ", e.as_str()))),
            Ok(temp_id) => {
                let mut tasks: Vec<Task> = Vec::new();
                tasks.push(
                    Task::insist(
                        Action::Start(temp_id.clone()),
                        "Failed to start temp container: ",
                    ),
                );
                assert(tasks.deep_view() =~= seq![
                    insist(ActionView::Start(temp_id@), "Failed to start temp container: "@),
                ]);
                Next::Go(
                    tasks,
                    InstallWaiting {
                        order: self.order,
                        volumes_path: self.volumes_path,
                        temp_id,
                        wait: ExitWait::new(SCRIPT_TIMEOUT_SECS),
                    },
                )
            },
        }
    }
}

impl InstallWaiting {
    /// Takes how the wait for the script ended.
    pub fn waited(self, end: WaitEnd) -> (r: (Vec<Task>, InstallCreate))
        ensures
            (r.0.deep_view(), r.1.deep_view()) == install_waited(self.deep_view(), end.succeeded()),
    {
        let mut tasks: Vec<Task> = Vec::new();
        tasks.push(Task::attempt(Action::RemoveForced(self.temp_id.clone())));
        assert(tasks.deep_view() =~= seq![attempt(ActionView::RemoveForced(self.temp_id@))]);
        push_entrypoint_tasks(&mut tasks, self.volumes_path.as_str(), &self.order);
        let success = end.is_success();
        (tasks, create_stage(self.order, Some(success)))
    }
}

impl InstallCreate {
    /// Takes the container that stays, and its ports.
    pub fn created(self, reply: Result<(String, Vec<PortAllocation>), String>) -> (r: Ending<String>)
        ensures
            exists|now: Timestamp|
                now.secs >= 0 && r.deep_view() == #[trigger] install_created(
                    self.deep_view(),
                    result_view(reply),
                    now,
                ),
    {
        let now = utc_now();
        self.created_at(reply, now)
    }

    /// Takes the container that stays, and its ports, at the time given.
    pub fn created_at(
        self,
        reply: Result<(String, Vec<PortAllocation>), String>,
        now: Timestamp,
    ) -> (r: Ending<String>)
        ensures
            r.deep_view() == install_created(self.deep_view(), result_view(reply), now),
    {
        match reply {
            Ok((container_id, ports)) => {
                let failed = match self.installed {
                    Some(success) => !success,
                    None => false,
                };
                let state = if failed {
                    "install_failed"
                } else {
                    "stopped"
                };
                let limits = match self.order.limits {
                    Some(limits) => limits,
                    None => ResourceLimits::default(),
                };
                let attached_volumes: Vec<VolumeMount> = Vec::new();
                assert(attached_volumes.deep_view() =~= Seq::empty());
                let tracker = ContainerTracker {
                    custom_uuid: self.order.uuid,
                    container_id: container_id.clone(),
                    name: self.order.name,
                    image: self.order.image,
                    description: None,
                    startup_command: self.order.startup_command,
                    created_at: now,
                    limits,
                    allocated_ports: ports,
                    attached_volumes,
                    ports: Table::new(),
                    env: None,
                    status: state.to_string(),
                    runtime: None,
                };
                let report = if failed {
                    Action::Report {
                        status: "install_failed".to_string(),
                        message: "Install failed".to_string(),
                    }
                } else {
                    Action::Report {
                        status: "install_success".to_string(),
                        message: "Install complete".to_string(),
                    }
                };
                let mut tasks: Vec<Task> = Vec::new();
                tasks.push(Task::attempt(Action::SetState(state.to_string())));
                tasks.push(Task::attempt(Action::SetContainerId(container_id.clone())));
                tasks.push(Task::attempt(Action::SaveTracker(tracker)));
                tasks.push(Task::attempt(Action::Unlock));
                tasks.push(Task::attempt(report));
                assert(tasks.deep_view() =~= install_created(
                    self.deep_view(),
                    result_view(reply),
                    now,
                ).tasks);
                Ending { tasks, result: Ok(container_id) }
            },
            Err(e) => report_failure(
                cat2("Failed to create container: ", e.as_str()),
                cat2("Failed to create container: ", e.as_str()),
            ),
        }
    }
}

// What holds of whole operations.

/// All tasks of a recreation and its result, given the answers to its questions, where no task
/// ends it before.
pub open spec fn recreate_run(
    stage: RecreateLoadView,
    tracker: Result<Option<ContainerTrackerView>, Seq<char>>,
    created: Result<(Seq<char>, Seq<PortAllocationView>), Seq<char>>,
    started: bool,
) -> EndingView<Seq<char>> {
    match recreate_loaded(stage, tracker) {
        NextView::End(ending) => EndingView { tasks: recreate_begin() + ending.tasks, ..ending },
        NextView::Go(first, create) => match recreate_created(create, created) {
            NextView::End(ending) => EndingView {
                tasks: recreate_begin() + first + ending.tasks,
                ..ending
            },
            NextView::Go(second, start) => {
                let ending = recreate_started(start.container_id, started);
                EndingView { tasks: recreate_begin() + first + second + ending.tasks, ..ending }
            },
        },
    }
}

/// A recreation holds the lock from its beginning until it gives it back, whatever comes of it,
/// and touches nothing before it has the lock.
pub proof fn law_recreate_unlocks(
    stage: RecreateLoadView,
    tracker: Result<Option<ContainerTrackerView>, Seq<char>>,
    created: Result<(Seq<char>, Seq<PortAllocationView>), Seq<char>>,
    started: bool,
)
    ensures
        ({
            let tasks = recreate_run(stage, tracker, created, started).tasks;
            exists|end: int| is_guarded(tasks, end)
        }),
{
    let tasks = recreate_run(stage, tracker, created, started).tasks;
    let lock = recreate_begin()[0];
    let begun = recreate_begin().skip(1);
    match recreate_loaded(stage, tracker) {
        NextView::End(ending) => {
            assert(tasks =~= seq![lock] + begun + ending.tasks);
            lemma_guarded(lock, begun, ending.tasks, 0);
        },
        NextView::Go(first, create) => {
            let old = tracker->Ok_0->0;
            let down = teardown(old.container_id, TEARDOWN_PAUSE_MS, old.allocated_ports);
            law_teardown_cannot_fail(old.container_id, TEARDOWN_PAUSE_MS, old.allocated_ports);
            lemma_keep_lock_both(recreate_startup(stage), down);
            lemma_keep_lock_both(begun, first);
            match recreate_created(create, created) {
                NextView::End(ending) => {
                    assert(tasks =~= seq![lock] + (begun + first) + ending.tasks);
                    lemma_guarded(lock, begun + first, ending.tasks, 1);
                },
                NextView::Go(second, start) => {
                    let ending = recreate_started(start.container_id, started);
                    lemma_keep_lock_both(begun + first, second);
                    assert(tasks =~= seq![lock] + (begun + first + second) + ending.tasks);
                    lemma_guarded(lock, begun + first + second, ending.tasks, 1);
                },
            }
        },
    }
}

/// A recreation succeeds exactly where the container is recorded and a new one could be made,
/// and its result is the new one; that the new one does not start is no failure.
pub proof fn law_recreate_result(
    stage: RecreateLoadView,
    tracker: Result<Option<ContainerTrackerView>, Seq<char>>,
    created: Result<(Seq<char>, Seq<PortAllocationView>), Seq<char>>,
    started: bool,
)
    ensures
        ({
            let result = recreate_run(stage, tracker, created, started).result;
            &&& result is Ok <==> (tracker is Ok && tracker->Ok_0 is Some && created is Ok)
            &&& result is Ok ==> result->Ok_0 == created->Ok_0.0
        }),
{
}

/// A recreated container keeps its UUID, its name and its directories, and its record keeps
/// everything but the container of the engine, its ports, and a startup command that the update
/// names.
pub proof fn law_recreate_keeps_identity(
    stage: RecreateLoadView,
    tracker: ContainerTrackerView,
    container_id: Seq<char>,
    ports: Seq<PortAllocationView>,
)
    ensures
        recreate_loaded(stage, Ok(Some(tracker))) matches NextView::Go(_, create) && {
            &&& create.request.custom_uuid == Some(stage.uuid)
            &&& create.request.name == Some(tracker.name)
            &&& create.request.volumes == Some(tracker.attached_volumes)
            &&& create.request.runtime == tracker.runtime
            &&& recreate_created(create, Ok((container_id, ports))) matches NextView::Go(tasks, _)
                && has_action(
                tasks,
                ActionView::SaveTracker(
                    ContainerTrackerView {
                        container_id,
                        allocated_ports: ports,
                        startup_command: match new_startup(stage.update) {
                            Some(words) => Some(words),
                            None => tracker.startup_command,
                        },
                        ..tracker
                    },
                ),
            )
        },
{
    if let NextView::Go(_, create) = recreate_loaded(stage, Ok(Some(tracker))) {
        if let NextView::Go(tasks, _) = recreate_created(create, Ok((container_id, ports))) {
            assert(tasks[0].action == ActionView::SaveTracker(
                succeeded_by(with_startup(tracker, stage.update), container_id, ports),
            ));
        }
    }
}

/// What an update names is changed, and what it does not name stays: the environment, the limits,
/// the ports and the image in the request for the new container, and the startup command in what
/// the container runs and in what is remembered and recorded of it.
pub proof fn law_recreate_applies_update(
    stage: RecreateLoadView,
    update: ContainerUpdateRequestView,
    tracker: ContainerTrackerView,
)
    requires
        stage.update == Some(update),
    ensures
        recreate_loaded(stage, Ok(Some(tracker))) matches NextView::Go(tasks, create) && {
            let request = create.request;
            &&& request.env == if update.env is Some {
                update.env
            } else {
                tracker.env
            }
            &&& request.limits == if update.limits is Some {
                update.limits
            } else {
                Some(tracker.limits)
            }
            &&& request.ports == if update.ports is Some {
                update.ports
            } else {
                unless_empty(port_map(tracker.allocated_ports))
            }
            &&& request.image == if update.image is Some {
                update.image->0
            } else {
                tracker.image
            }
            &&& create.tracker.startup_command == if update.startup_command is Some {
                update.startup_command
            } else {
                tracker.startup_command
            }
            &&& update.startup_command matches Some(words) ==> {
                &&& has_action(
                    tasks,
                    ActionView::WriteFile {
                        path: entrypoint_path(stage.volumes_path, stage.uuid),
                        content: shell_line(words) + "\n"@,
                    },
                )
                &&& has_action(tasks, ActionView::SetStartupCommand(shell_line(words)))
                &&& has_action(tasks, ActionView::TrackStartupCommand(words))
            }
        },
{
    if let NextView::Go(tasks, _) = recreate_loaded(stage, Ok(Some(tracker))) {
        if let Some(words) = update.startup_command {
            let change = startup_change(stage.volumes_path, stage.uuid, words);
            assert(tasks[1] == change[1]);
            assert(tasks[3] == change[3]);
            assert(tasks[4] == change[4]);
        }
    }
}

/// Every port that the old container had is given back before a new one is asked for.
pub proof fn law_ports_released_before_creation(
    stage: RecreateLoadView,
    tracker: ContainerTrackerView,
    i: int,
    port: nat,
)
    requires
        0 <= i < tracker.allocated_ports.len(),
        parsed(tracker.allocated_ports[i].host_port, u16::MAX as nat) == Some(port),
    ensures
        recreate_loaded(stage, Ok(Some(tracker))) matches NextView::Go(tasks, _) && has_action(
            tasks,
            ActionView::ReleasePort(port as u16),
        ),
{
    law_all_ports_released(tracker.allocated_ports, i, port);
    let given = release_tasks(tracker.allocated_ports);
    let task = attempt(ActionView::ReleasePort(port as u16));
    let k = choose|k: int| 0 <= k < given.len() && given[k] == task;
    if let NextView::Go(tasks, _) = recreate_loaded(stage, Ok(Some(tracker))) {
        assert(tasks[recreate_startup(stage).len() + 3 + k] == given[k]);
    }
}

/// The ports that a change of ports records are those that the new container is made with.
pub proof fn law_new_ports_are_used(
    uuid: Seq<char>,
    volumes: Seq<char>,
    ports: Table<String>,
    tracker: ContainerTrackerView,
)
    ensures
        ports_allocated(uuid, volumes, Ok(ports)) matches NextView::Go(tasks, stage) && {
            &&& tasks[0].action == ActionView::TrackPorts(tcp_allocations(ports.pairs()))
            &&& recreate_loaded(stage, Ok(Some(tracker))) matches NextView::Go(_, create)
                && create.request.ports == Some(ports@)
            &&& port_map(tcp_allocations(ports.pairs())) == ports@
        },
{
    assert(port_pairs(tcp_allocations(ports.pairs())) =~= ports.pairs());
}

/// An installation whose script failed still makes the container, in a state that says so, and
/// unlocks it.
pub proof fn law_failed_install_still_creates(
    stage: InstallWaitingView,
    container_id: Seq<char>,
    ports: Seq<PortAllocationView>,
    now: Timestamp,
)
    ensures
        ({
            let create = install_waited(stage, false).1;
            let ending = install_created(create, Ok((container_id, ports)), now);
            &&& create.request.custom_uuid == Some(stage.order.uuid)
            &&& ending.result == Ok::<Seq<char>, Seq<char>>(container_id)
            &&& has_action(ending.tasks, ActionView::SetState("install_failed"@))
            &&& has_action(ending.tasks, ActionView::Unlock)
        }),
{
    let create = install_waited(stage, false).1;
    let tasks = install_created(create, Ok((container_id, ports)), now).tasks;
    assert(tasks[0].action == ActionView::SetState("install_failed"@));
    assert(tasks[3].action == ActionView::Unlock);
}

/// The answers to what an installation asks.
pub ghost struct InstallAnswers {
    pub volume: Result<Seq<char>, Seq<char>>,
    pub data: Result<Seq<char>, Seq<char>>,
    pub temp: Result<Seq<char>, Seq<char>>,
    pub success: bool,
    pub created: Result<(Seq<char>, Seq<PortAllocationView>), Seq<char>>,
    pub resolved_at: Timestamp,
    pub created_at: Timestamp,
}

/// All tasks of an installation and its result, given the answers to its questions, where no
/// task ends it before.
pub open spec fn install_run(
    volumes: Seq<char>,
    order: NewContainerView,
    script: Option<Seq<char>>,
    answers: InstallAnswers,
) -> EndingView<Seq<char>> {
    let (first, step) = install_started(volumes, order, script);
    match step {
        InstallStepView::Create(create) => {
            let ending = install_created(create, answers.created, answers.created_at);
            EndingView { tasks: first + ending.tasks, ..ending }
        },
        InstallStepView::Paths(paths) => match install_resolved(
            paths,
            answers.volume,
            answers.data,
            answers.resolved_at,
        ) {
            NextView::End(ending) => EndingView { tasks: first + ending.tasks, ..ending },
            NextView::Go(second, temp) => match install_temp_created(temp, answers.temp) {
                NextView::End(ending) => EndingView {
                    tasks: first + second + ending.tasks,
                    ..ending
                },
                NextView::Go(third, waiting) => {
                    let (fourth, create) = install_waited(waiting, answers.success);
                    let ending = install_created(create, answers.created, answers.created_at);
                    EndingView {
                        tasks: first + second + third + fourth + ending.tasks,
                        ..ending
                    }
                },
            },
        },
    }
}

/// An installation holds the lock from its beginning until it gives it back, whatever comes of
/// it, and touches nothing before it has the lock.
pub proof fn law_install_unlocks(
    volumes: Seq<char>,
    order: NewContainerView,
    script: Option<Seq<char>>,
    answers: InstallAnswers,
)
    ensures
        ({
            let tasks = install_run(volumes, order, script, answers).tasks;
            exists|end: int| is_guarded(tasks, end)
        }),
{
    let tasks = install_run(volumes, order, script, answers).tasks;
    let (first, step) = install_started(volumes, order, script);
    let lock = first[0];
    let begun = first.skip(1);
    assert(all_keep_lock(begun));
    match step {
        InstallStepView::Create(create) => {
            let ending = install_created(create, answers.created, answers.created_at);
            assert(tasks =~= seq![lock] + begun + ending.tasks);
            lemma_install_ending(lock, begun, create, answers);
        },
        InstallStepView::Paths(paths) => match install_resolved(
            paths,
            answers.volume,
            answers.data,
            answers.resolved_at,
        ) {
            NextView::End(ending) => {
                assert(tasks =~= seq![lock] + begun + ending.tasks);
                lemma_guarded(lock, begun, ending.tasks, 0);
            },
            NextView::Go(second, temp) => {
                lemma_keep_lock_both(begun, second);
                match install_temp_created(temp, answers.temp) {
                    NextView::End(ending) => {
                        assert(tasks =~= seq![lock] + (begun + second) + ending.tasks);
                        lemma_guarded(lock, begun + second, ending.tasks, 0);
                    },
                    NextView::Go(third, waiting) => {
                        let (fourth, create) = install_waited(waiting, answers.success);
                        let ending = install_created(create, answers.created, answers.created_at);
                        lemma_keep_lock_both(begun + second, third);
                        lemma_keep_lock_both(begun + second + third, fourth);
                        let body = begun + second + third + fourth;
                        assert(tasks =~= seq![lock] + body + ending.tasks);
                        lemma_install_ending(lock, body, create, answers);
                    },
                }
            },
        },
    }
}

proof fn lemma_install_ending(
    lock: TaskView,
    body: Seq<TaskView>,
    create: InstallCreateView,
    answers: InstallAnswers,
)
    requires
        lock.action is Lock,
        lock.failure is Some,
        all_keep_lock(body),
    ensures
        ({
            let ending = install_created(create, answers.created, answers.created_at);
            exists|end: int| is_guarded(seq![lock] + body + ending.tasks, end)
        }),
{
    let ending = install_created(create, answers.created, answers.created_at);
    if answers.created is Ok {
        lemma_guarded(lock, body, ending.tasks, 3);
    } else {
        lemma_guarded(lock, body, ending.tasks, 1);
    }
}

/// Tasks that may stand between a lock and its release may do so one after the other.
pub proof fn lemma_keep_lock_both(first: Seq<TaskView>, second: Seq<TaskView>)
    requires
        all_keep_lock(first),
        all_keep_lock(second),
    ensures
        all_keep_lock(first + second),
{
}

/// The container that ran the script of an installation is removed, however the script ended.
pub proof fn law_install_leaves_no_helper(stage: InstallWaitingView, success: bool)
    ensures
        has_action(install_waited(stage, success).0, ActionView::RemoveForced(stage.temp_id)),
{
    assert(install_waited(stage, success).0[0].action == ActionView::RemoveForced(stage.temp_id));
}

/// Whether a request asks for what was ordered: the image, the name, the description, the
/// environment, the ports and the limits are those of the order, and so is the UUID.
pub open spec fn is_as_ordered(request: CreateContainerRequestView, order: NewContainerView) -> bool {
    &&& request.image == order.image
    &&& request.name == Some(order.name)
    &&& request.description == order.description
    &&& request.env == order.env
    &&& request.ports == order.ports
    &&& request.limits == order.limits
    &&& request.custom_uuid == Some(order.uuid)
    &&& request.startup_command == Some(seq!["/bin/sh"@, "/data/entrypoint.sh"@])
    &&& request.volumes is None
    &&& request.command is None
    &&& request.working_dir is None
    &&& request.restart_policy is None
    &&& request.install_content is None
    &&& request.runtime is None
    &&& request.request_id is None
}

/// The container that stays is asked for as it was ordered, along every way that leads to it:
/// without a script at once, and with one after the paths, the helper and the wait, whether the
/// script succeeded or not.
pub proof fn law_order_is_carried_out(
    volumes: Seq<char>,
    order: NewContainerView,
    script: Seq<char>,
    paths: (Seq<char>, Seq<char>),
    now: Timestamp,
    temp_id: Seq<char>,
    success: bool,
)
    ensures
        install_started(volumes, order, None).1 matches InstallStepView::Create(create)
            && is_as_ordered(create.request, order) && create.order == order
            && create.installed is None,
        install_started(volumes, order, Some(script)).1 matches InstallStepView::Paths(first) && (
        install_resolved(first, Ok(paths.0), Ok(paths.1), now) matches NextView::Go(_, second) && (
        install_temp_created(second, Ok(temp_id)) matches NextView::Go(_, third) && {
            let create = install_waited(third, success).1;
            &&& is_as_ordered(create.request, order)
            &&& create.order == order
            &&& create.installed == Some(success)
        })),
{
}

/// The script is written into the data directory before the helper is made, and the helper is a
/// container of the ordered image that runs that very file, sees the container's files where the
/// container will see them, and nothing else of the order.
pub proof fn law_helper_runs_the_script(
    volumes: Seq<char>,
    order: NewContainerView,
    script: Seq<char>,
    paths: (Seq<char>, Seq<char>),
    now: Timestamp,
)
    ensures
        ({
            let (tasks, step) = install_started(volumes, order, Some(script));
            let data = volumes + "/"@ + order.uuid + "_data"@;
            &&& has_action(tasks, ActionView::MakeDirectory(volumes + "/"@ + order.uuid))
            &&& has_action(tasks, ActionView::MakeDirectory(data))
            &&& has_action(
                tasks,
                ActionView::WriteFile { path: data + "/install.sh"@, content: script },
            )
            &&& has_action(tasks, ActionView::MakeExecutable(data + "/install.sh"@))
            &&& step matches InstallStepView::Paths(first) && {
                &&& first.volume_path == volumes + "/"@ + order.uuid
                &&& first.data_path == data
                &&& install_resolved(first, Ok(paths.0), Ok(paths.1), now) matches NextView::Go(
                    pull,
                    helper,
                ) && {
                    let config = helper.config;
                    &&& pull.len() == 1
                    &&& pull[0].action == ActionView::Pull(order.image)
                    &&& pull[0].failure == Some("Failed to pull image: "@) && pull[0].unlocks
                    &&& config.name == order.uuid + "-install-"@ + signed_decimal(now.secs as int)
                    &&& config.image == order.image
                    &&& config.cmd == seq!["/bin/sh"@, "/data"@ + "/install.sh"@]
                    &&& config.working_dir == "/home/container"@
                    &&& config.env == seq!["MODE=INSTALL"@]
                    &&& config.binds.len() == 2
                    &&& config.binds[0] == paths.0 + ":"@ + "/home/container"@
                    &&& config.binds[1] == paths.1 + ":"@ + "/data"@ + ":ro"@
                    &&& config.ports is None
                    &&& config.tty
                    &&& !config.interactive
                    &&& !config.restart_unless_stopped
                    &&& config.oom_kill_disable is None
                }
            }
        }),
{
    reveal_strlit("/data");
    reveal_strlit("/install.sh");
    reveal_strlit("/data/install.sh");
    reveal_strlit(":");
    reveal_strlit(":ro");
    reveal_strlit("/home/container");
    reveal_strlit(":/home/container");
    reveal_strlit(":/data:ro");
    assert("/data/install.sh"@ =~= "/data"@ + "/install.sh"@);
    assert(paths.0 + ":/home/container"@ =~= paths.0 + ":"@ + "/home/container"@);
    assert(paths.1 + ":/data:ro"@ =~= paths.1 + ":"@ + "/data"@ + ":ro"@);
    let (tasks, step) = install_started(volumes, order, Some(script));
    let data = volumes + "/"@ + order.uuid + "_data"@;
    assert(tasks[2].action == ActionView::MakeDirectory(volumes + "/"@ + order.uuid));
    assert(tasks[3].action == ActionView::MakeDirectory(data));
    assert(tasks[4].action == (ActionView::WriteFile {
        path: data + "/install.sh"@,
        content: script,
    }));
    assert(tasks[5].action == ActionView::MakeExecutable(data + "/install.sh"@));
}

/// The helper is started and waited for, at most ten minutes, and then removed, whatever it did.
pub proof fn law_helper_is_waited_for(stage: InstallTempView, temp_id: Seq<char>, success: bool)
    ensures
        install_temp_created(stage, Ok(temp_id)) matches NextView::Go(tasks, waiting) && {
            &&& tasks.len() == 1
            &&& tasks[0].action == ActionView::Start(temp_id)
            &&& tasks[0].failure == Some("Failed to start temp container: "@) && tasks[0].unlocks
            &&& waiting.temp_id == temp_id
            &&& waiting.wait.waited == 0
            &&& waiting.wait.timeout_secs == 600
            &&& install_waited(waiting, success).0[0].action == ActionView::RemoveForced(temp_id)
        },
{
}

/// Before the container that stays is made, its entrypoint holds the ordered command as one
/// line, or lets it sleep where none was ordered; after a script as without one.
pub proof fn law_installed_entrypoint(
    volumes: Seq<char>,
    order: NewContainerView,
    stage: InstallWaitingView,
    success: bool,
)
    requires
        stage.order == order,
        stage.volumes_path == volumes,
    ensures
        ({
            let path = volumes + "/"@ + order.uuid + "_data"@ + "/entrypoint.sh"@;
            let line = match order.startup_command {
                Some(words) => joined(words, " "@),
                None => "sleep infinity"@,
            };
            let write = ActionView::WriteFile { path, content: line };
            &&& has_action(install_started(volumes, order, None).0, write)
            &&& has_action(
                install_started(volumes, order, None).0,
                ActionView::MakeExecutable(path),
            )
            &&& has_action(install_waited(stage, success).0, write)
            &&& has_action(install_waited(stage, success).0, ActionView::MakeExecutable(path))
        }),
{
    let path = volumes + "/"@ + order.uuid + "_data"@ + "/entrypoint.sh"@;
    let first = install_started(volumes, order, None).0;
    let later = install_waited(stage, success).0;
    assert(first[4].action is WriteFile);
    assert(first[5].action == ActionView::MakeExecutable(path));
    assert(later[1].action == first[4].action);
    assert(later[2].action == ActionView::MakeExecutable(path));
}

/// The container that was installed is recorded as it was ordered, under the name and with the
/// ports that it was given, and is stopped; where its script failed it is marked as failed, in
/// the record, in the daemon's state and in what is reported.
pub proof fn law_installed_record(
    stage: InstallCreateView,
    container_id: Seq<char>,
    ports: Seq<PortAllocationView>,
    now: Timestamp,
)
    ensures
        ({
            let ending = install_created(stage, Ok((container_id, ports)), now);
            let failed = stage.installed == Some(false);
            let state = if failed {
                "install_failed"@
            } else {
                "stopped"@
            };
            &&& ending.result == Ok::<Seq<char>, Seq<char>>(container_id)
            &&& has_action(ending.tasks, ActionView::SetState(state))
            &&& has_action(ending.tasks, ActionView::SetContainerId(container_id))
            &&& has_action(ending.tasks, ActionView::Unlock)
            &&& exists|i: int|
                0 <= i < ending.tasks.len() && ((#[trigger] ending.tasks[i]).action
                    matches ActionView::SaveTracker(saved) && {
                    &&& saved.custom_uuid == stage.order.uuid
                    &&& saved.container_id == container_id
                    &&& saved.name == stage.order.name
                    &&& saved.image == stage.order.image
                    &&& saved.startup_command == stage.order.startup_command
                    &&& saved.created_at == now
                    &&& stage.order.limits matches Some(limits) ==> saved.limits == limits
                    &&& stage.order.limits is None ==> saved.limits == no_limits()
                    &&& saved.allocated_ports == ports
                    &&& saved.attached_volumes.len() == 0
                    &&& saved.status == state
                    &&& saved.description is None
                    &&& saved.env is None
                    &&& saved.runtime is None
                    &&& saved.ports == Map::<Seq<char>, Seq<char>>::empty()
                })
            &&& exists|i: int|
                0 <= i < ending.tasks.len() && ((#[trigger] ending.tasks[i]).action
                    matches ActionView::Report { status, message } && status == if failed {
                    "install_failed"@
                } else {
                    "install_success"@
                } && message == if failed {
                    "Install failed"@
                } else {
                    "Install complete"@
                })
        }),
{
    let ending = install_created(stage, Ok((container_id, ports)), now);
    assert(ending.tasks[0].action is SetState);
    assert(ending.tasks[1].action == ActionView::SetContainerId(container_id));
    assert(ending.tasks[2].action is SaveTracker);
    assert(ending.tasks[3].action == ActionView::Unlock);
    assert(ending.tasks[4].action is Report);
}

/// An installation ends with the container exactly where every step that it takes succeeds, and
/// with the first error otherwise. A script that fails is no such error.
pub proof fn law_install_result(
    volumes: Seq<char>,
    order: NewContainerView,
    script: Option<Seq<char>>,
    answers: InstallAnswers,
)
    ensures
        ({
            let result = install_run(volumes, order, script, answers).result;
            &&& result is Ok <==> answers.created is Ok && (script is Some ==> answers.volume is Ok
                && answers.data is Ok && answers.temp is Ok)
            &&& result is Ok ==> result->Ok_0 == answers.created->Ok_0.0
            &&& script is Some ==> {
                &&& answers.volume matches Err(e) ==> result == Err::<Seq<char>, Seq<char>>(
                    "Failed to get abs path: "@ + e,
                )
                &&& answers.volume is Ok ==> (answers.data matches Err(e) ==> result == Err::<
                    Seq<char>,
                    Seq<char>,
                >("Failed to get abs data path: "@ + e))
                &&& answers.volume is Ok && answers.data is Ok ==> (answers.temp matches Err(e)
                    ==> result == Err::<Seq<char>, Seq<char>>(
                    "Failed to create temp container: "@ + e,
                ))
            }
            &&& script is None || (answers.volume is Ok && answers.data is Ok && answers.temp is Ok)
                ==> (answers.created matches Err(e) ==> result == Err::<Seq<char>, Seq<char>>(
                "Failed to create container: "@ + e,
            ))
        }),
{
}

/// A container whose successor could not be made is marked as failed, is unlocked, and the
/// failure is reported with its reason.
pub proof fn law_failed_creation(
    install: InstallCreateView,
    recreate: RecreateCreateView,
    e: Seq<char>,
    now: Timestamp,
)
    ensures
        ({
            let ending = install_created(install, Err(e), now);
            &&& ending.result == Err::<Seq<char>, Seq<char>>("Failed to create container: "@ + e)
            &&& has_action(ending.tasks, ActionView::SetState("failed"@))
            &&& has_action(ending.tasks, ActionView::Unlock)
            &&& has_action(
                ending.tasks,
                ActionView::Report {
                    status: "install_failed"@,
                    message: "Failed to create container: "@ + e,
                },
            )
        }),
        recreate_created(recreate, Err(e)) matches NextView::End(ending) && {
            &&& ending.result == Err::<Seq<char>, Seq<char>>("Failed to create container: "@ + e)
            &&& has_action(ending.tasks, ActionView::SetState("failed"@))
            &&& has_action(ending.tasks, ActionView::Unlock)
            &&& has_action(
                ending.tasks,
                ActionView::Report {
                    status: "install_failed"@,
                    message: "Container recreation failed: "@ + e,
                },
            )
        },
{
    let ending = install_created(install, Err(e), now);
    assert(ending.tasks[0].action == ActionView::SetState("failed"@));
    assert(ending.tasks[1].action == ActionView::Unlock);
    assert(ending.tasks[2].action is Report);
    if let NextView::End(other) = recreate_created(recreate, Err(e)) {
        assert(other.tasks[0].action == ActionView::SetState("failed"@));
        assert(other.tasks[1].action == ActionView::Unlock);
        assert(other.tasks[2].action is Report);
    }
}

/// A recreated container that could be started is running, and one that could not has failed;
/// either way the new one is what the request ends with, the lock is gone, and only then is the
/// recreation reported.
pub proof fn law_recreated_container(container_id: Seq<char>, started: bool)
    ensures
        ({
            let ending = recreate_started(container_id, started);
            &&& ending.result == Ok::<Seq<char>, Seq<char>>(container_id)
            &&& ending.tasks.len() == 3
            &&& started ==> ending.tasks[0].action == ActionView::SetState("running"@)
            &&& !started ==> ending.tasks[0].action == ActionView::SetState("failed"@)
            &&& ending.tasks[1].action == ActionView::Unlock
            &&& ending.tasks[2].action == (ActionView::Report {
                status: "install_success"@,
                message: "Container recreated successfully"@,
            })
        }),
{
}

/// A container is locked before anything else is done to it, and then shown as being recreated,
/// which is also reported; the work does not begin without the lock.
pub proof fn law_recreation_begins()
    ensures
        ({
            let tasks = recreate_begin();
            &&& tasks.len() == 3
            &&& tasks[0].action == ActionView::Lock("Recreating container"@)
            &&& tasks[0].failure == Some("Failed to lock container: "@)
            &&& tasks[1].action == ActionView::SetState("recreating"@)
            &&& tasks[1].failure == Some("Failed to update state: "@) && tasks[1].unlocks
            &&& tasks[2].action == (ActionView::Report {
                status: "recreating"@,
                message: "Container recreation in progress"@,
            })
            &&& tasks[2].failure is None
        }),
{
}

/// The new container takes the place of the old: it is saved as the old one with its own name
/// and ports, it is remembered, and it is what is started next.
pub proof fn law_recreated_is_recorded(
    stage: RecreateCreateView,
    container_id: Seq<char>,
    ports: Seq<PortAllocationView>,
)
    ensures
        recreate_created(stage, Ok((container_id, ports))) matches NextView::Go(tasks, start) && {
            &&& start.container_id == container_id
            &&& tasks.len() == 2
            &&& tasks[0].action matches ActionView::SaveTracker(saved) && {
                &&& saved.container_id == container_id
                &&& saved.allocated_ports == ports
                &&& saved.custom_uuid == stage.tracker.custom_uuid
                &&& saved.name == stage.tracker.name
                &&& saved.image == stage.tracker.image
                &&& saved.description == stage.tracker.description
                &&& saved.startup_command == stage.tracker.startup_command
                &&& saved.created_at == stage.tracker.created_at
                &&& saved.limits == stage.tracker.limits
                &&& saved.attached_volumes == stage.tracker.attached_volumes
                &&& saved.ports == stage.tracker.ports
                &&& saved.env == stage.tracker.env
                &&& saved.status == stage.tracker.status
                &&& saved.runtime == stage.tracker.runtime
            }
            &&& tasks[1].action == ActionView::SetContainerId(container_id)
        },
{
}

/// Recreating a container without an update asks for the container as it is recorded.
pub proof fn law_recreate_without_update(stage: RecreateLoadView, tracker: ContainerTrackerView)
    requires
        stage.update is None || stage.update == Some(no_update()),
    ensures
        recreate_loaded(stage, Ok(Some(tracker))) matches NextView::Go(_, create) && {
            &&& create.tracker == tracker
            &&& create.request.image == tracker.image
            &&& create.request.name == Some(tracker.name)
            &&& create.request.description == tracker.description
            &&& create.request.env == tracker.env
            &&& create.request.limits == Some(tracker.limits)
            &&& create.request.volumes == Some(tracker.attached_volumes)
            &&& create.request.runtime == tracker.runtime
            &&& create.request.custom_uuid == Some(stage.uuid)
            &&& create.request.startup_command == Some(seq!["/bin/sh"@, "/data/entrypoint.sh"@])
            &&& port_map(tracker.allocated_ports) != Map::<Seq<char>, Seq<char>>::empty()
                ==> create.request.ports == Some(port_map(tracker.allocated_ports))
        },
{
}

/// The old container is stopped, given a moment and removed before the new one is asked for, behind
/// the writing of a new startup command and before anything else.
pub proof fn law_recreate_tears_down(stage: RecreateLoadView, tracker: ContainerTrackerView)
    ensures
        recreate_loaded(stage, Ok(Some(tracker))) matches NextView::Go(tasks, _) && {
            let first: int = if stage.update is Some && stage.update->0.startup_command is Some {
                5
            } else {
                0
            };
            &&& tasks.len() >= first + 3
            &&& tasks[first].action == ActionView::Stop(tracker.container_id)
            &&& tasks[first + 1].action == ActionView::Pause(300)
            &&& tasks[first + 2].action == ActionView::Remove(tracker.container_id)
        },
{
}

/// Where a container's record is missing or cannot be read, nothing is done to the container but
/// to let go of it, and the error says so.
pub proof fn law_recreate_needs_a_record(stage: RecreateLoadView, e: Seq<char>)
    ensures
        recreate_loaded(stage, Ok(None)) matches NextView::End(ending) && {
            &&& ending.result == Err::<Seq<char>, Seq<char>>("Container tracker data not found"@)
            &&& ending.tasks.len() == 1
            &&& ending.tasks[0].action == ActionView::Unlock
        },
        recreate_loaded(stage, Err(e)) matches NextView::End(ending) && {
            &&& ending.result == Err::<Seq<char>, Seq<char>>("Failed to load container data: "@ + e)
            &&& ending.tasks.len() == 1
            &&& ending.tasks[0].action == ActionView::Unlock
        },
{
}

/// New ports are allocated only once the old ones are released, and for the ports that were
/// asked for; a container that is not recorded is left alone.
pub proof fn law_old_ports_are_released(
    stage: PortsLoadView,
    tracker: ContainerTrackerView,
    i: int,
    port: nat,
    e: Seq<char>,
)
    requires
        0 <= i < tracker.allocated_ports.len(),
        parsed(tracker.allocated_ports[i].host_port, u16::MAX as nat) == Some(port),
    ensures
        ports_loaded(stage, Ok(Some(tracker))) matches NextView::Go(tasks, next) && {
            &&& has_action(tasks, ActionView::ReleasePort(port as u16))
            &&& next.uuid == stage.uuid
            &&& next.volumes_path == stage.volumes_path
            &&& next.ports == stage.ports
        },
        ports_loaded(stage, Ok(None)) matches NextView::End(ending) && ending.tasks.len() == 0
            && ending.result == Err::<Seq<char>, Seq<char>>("Container not found"@),
        ports_loaded(stage, Err(e)) matches NextView::End(ending) && ending.tasks.len() == 0
            && ending.result == Err::<Seq<char>, Seq<char>>(e),
{
    law_all_ports_released(tracker.allocated_ports, i, port);
    let tasks = release_tasks(tracker.allocated_ports);
    let k = choose|k: int|
        0 <= k < tasks.len() && tasks[k] == attempt(ActionView::ReleasePort(port as u16));
    assert(tasks[k].action == ActionView::ReleasePort(port as u16));
}

/// New ports change the ports of a container and nothing else of it, and it is recreated with
/// them under its own UUID; where none could be allocated it is left as it is.
pub proof fn law_port_update_is_only_that(
    uuid: Seq<char>,
    volumes: Seq<char>,
    ports: Table<String>,
    tracker: ContainerTrackerView,
    e: String,
)
    ensures
        ports_allocated(uuid, volumes, Ok(ports)) matches NextView::Go(tasks, stage) && {
            &&& stage.uuid == uuid
            &&& stage.volumes_path == volumes
            &&& tasks.len() == 4
            &&& tasks[0].action is TrackPorts
            &&& tasks[0].failure == Some(""@)
            &&& tasks[1].action is Lock
            &&& recreate_loaded(stage, Ok(Some(tracker))) matches NextView::Go(_, create) && {
                &&& create.request.image == tracker.image
                &&& create.request.env == tracker.env
                &&& create.request.limits == Some(tracker.limits)
                &&& create.request.custom_uuid == Some(uuid)
                &&& create.request.ports == Some(ports@)
                &&& create.tracker == tracker
            }
        },
        ports_allocated(uuid, volumes, Err(e)) matches NextView::End(ending) && ending.tasks.len()
            == 0 && ending.result == Err::<Seq<char>, Seq<char>>("Port allocation failed: "@ + e@),
{
}

/// An installation locks the container first, and then shows it as being installed.
pub proof fn law_installation_begins(
    volumes: Seq<char>,
    order: NewContainerView,
    script: Option<Seq<char>>,
)
    ensures
        ({
            let tasks = install_started(volumes, order, script).0;
            &&& tasks[0].action == ActionView::Lock("Installing"@)
            &&& tasks[0].failure == Some("Failed to lock: "@)
            &&& tasks[1].action == ActionView::SetState("installing"@)
            &&& tasks[1].failure == Some("Failed to update state: "@) && tasks[1].unlocks
            &&& tasks[2].action is MakeDirectory
            &&& tasks[2].failure == Some("Failed to create volume dir: "@) && tasks[2].unlocks
            &&& tasks[3].action is MakeDirectory
            &&& tasks[3].failure == Some("Failed to create data dir: "@) && tasks[3].unlocks
            &&& tasks[4].action is WriteFile
            &&& script is Some ==> tasks[4].failure == Some("Failed to write install script: "@)
            &&& script is None ==> tasks[4].failure == Some("Failed to write entrypoint: "@)
            &&& tasks[4].unlocks
        }),
{
}

/// An order is what was asked for, word by word.
pub proof fn law_order(
    uuid: Seq<char>,
    image: Seq<char>,
    name: Seq<char>,
    description: Option<Seq<char>>,
    startup_command: Option<Seq<Seq<char>>>,
    env: Option<Map<Seq<char>, Seq<char>>>,
    ports: Option<Map<Seq<char>, Seq<char>>>,
    limits: Option<ResourceLimitsView>,
)
    ensures
        ({
            let order = ordered(
                uuid,
                image,
                name,
                description,
                startup_command,
                env,
                ports,
                limits,
            );
            &&& order.uuid == uuid
            &&& order.image == image
            &&& order.name == name
            &&& order.description == description
            &&& order.startup_command == startup_command
            &&& order.env == env
            &&& order.ports == ports
            &&& order.limits == limits
        }),
{
}

/// An update of one thing changes that thing of the container that is asked for and no other.
pub proof fn law_update_of_one_thing(
    stage: RecreateLoadView,
    tracker: ContainerTrackerView,
    env: Map<Seq<char>, Seq<char>>,
    limits: ResourceLimitsView,
    image: Seq<char>,
)
    ensures
        ({
            let plain = recreate_request(stage.uuid, None, tracker);
            &&& recreate_request(stage.uuid, Some(env_update(env)), tracker) == (
            CreateContainerRequestView { env: Some(env), ..plain })
            &&& recreate_request(stage.uuid, Some(limits_update(limits)), tracker) == (
            CreateContainerRequestView { limits: Some(limits), ..plain })
            &&& recreate_request(stage.uuid, Some(image_update(image)), tracker) == (
            CreateContainerRequestView { image, ..plain })
            &&& recreate_request(stage.uuid, Some(no_update()), tracker) == plain
            &&& plain.env == tracker.env
            &&& plain.limits == Some(tracker.limits)
            &&& plain.image == tracker.image
        }),
        with_startup(tracker, Some(env_update(env))) == tracker,
        with_startup(tracker, Some(limits_update(limits))) == tracker,
        with_startup(tracker, Some(image_update(image))) == tracker,
{
}

/// A change that is begun is that change, of that container: what is asked for in the end is the
/// recorded container with the new environment, limits, image or ports.
pub proof fn law_changes_are_begun(
    uuid: Seq<char>,
    volumes: Seq<char>,
    tracker: ContainerTrackerView,
    env: Map<Seq<char>, Seq<char>>,
    limits: ResourceLimitsView,
    image: Seq<char>,
    ports: Map<Seq<char>, Seq<char>>,
    update: Option<ContainerUpdateRequestView>,
)
    ensures
        recreate_stage(uuid, volumes, update).uuid == uuid,
        recreate_stage(uuid, volumes, update).volumes_path == volumes,
        recreate_stage(uuid, volumes, update).update == update,
        ports_stage(uuid, volumes, ports).uuid == uuid,
        ports_stage(uuid, volumes, ports).volumes_path == volumes,
        ports_stage(uuid, volumes, ports).ports == ports,
        recreate_loaded(
            recreate_stage(uuid, volumes, Some(env_update(env))),
            Ok(Some(tracker)),
        ) matches NextView::Go(_, create) && create.request.env == Some(env)
            && create.request.custom_uuid == Some(uuid) && create.request.image == tracker.image,
        recreate_loaded(
            recreate_stage(uuid, volumes, Some(limits_update(limits))),
            Ok(Some(tracker)),
        ) matches NextView::Go(_, create) && create.request.limits == Some(limits)
            && create.request.custom_uuid == Some(uuid) && create.request.env == tracker.env,
        recreate_loaded(
            recreate_stage(uuid, volumes, Some(image_update(image))),
            Ok(Some(tracker)),
        ) matches NextView::Go(_, create) && create.request.image == image
            && create.request.custom_uuid == Some(uuid) && create.request.limits == Some(
            tracker.limits,
        ),
{
}

} // verus!
