//! The request for a new container.

use crate::docker::network::{PortAllocation, PortAllocationView};
use crate::duplicate::Duplicate;
use crate::models::{
    no_limits, ContainerTracker, ContainerTrackerView, CreateContainerRequest,
    CreateContainerRequestView, ResourceLimits, ResourceLimitsView, Timestamp, VolumeMount,
    VolumeMountView,
};
use crate::outside::utc_now;
use crate::services::exit_wait::{ExitWait, WaitEnd, SCRIPT_TIMEOUT_SECS};
use crate::services::recipe::{
    data_path, data_path_of, entrypoint_command, entrypoint_path, entrypoint_path_of,
    entrypoint_words, join_words, shell_line, startup_line, startup_line_of,
};
use crate::services::task::{
    attempt, demand, has_action, result_view, Action, ActionView, Step, StepView, Task, TaskView,
};
use crate::state_manager::{ContainerState, ContainerStateView};
use crate::table::Table;
use crate::text::joined;
use vstd::prelude::*;

verus! {

/// A creation that asks for the container.
#[derive(Debug, Clone)]
pub struct CreateAsk {
    pub uuid: String,
    /// What was asked for.
    pub order: CreateContainerRequest,
    /// What the engine is asked for.
    pub request: CreateContainerRequest,
    /// The script that the container runs.
    pub entrypoint: String,
    /// What the script holds once all is installed.
    pub line: String,
}

/// What a [`CreateAsk`] holds.
#[verifier::ext_equal]
pub struct CreateAskView {
    pub uuid: Seq<char>,
    pub order: CreateContainerRequestView,
    pub request: CreateContainerRequestView,
    pub entrypoint: Seq<char>,
    pub line: Seq<char>,
}

impl DeepView for CreateAsk {
    type V = CreateAskView;

    open spec fn deep_view(&self) -> CreateAskView {
        CreateAskView {
            uuid: self.uuid@,
            order: self.order.deep_view(),
            request: self.request.deep_view(),
            entrypoint: self.entrypoint@,
            line: self.line@,
        }
    }
}

/// The answer to a creation.
#[derive(Debug, Clone)]
pub struct CreatedContainer {
    pub container_id: String,
    pub custom_uuid: String,
    pub name: String,
    pub image: String,
    pub state: String,
    pub allocated_ports: Vec<PortAllocation>,
    pub limits: ResourceLimits,
}

/// What a [`CreatedContainer`] holds.
#[verifier::ext_equal]
pub struct CreatedContainerView {
    pub container_id: Seq<char>,
    pub custom_uuid: Seq<char>,
    pub name: Seq<char>,
    pub image: Seq<char>,
    pub state: Seq<char>,
    pub allocated_ports: Seq<PortAllocationView>,
    pub limits: ResourceLimitsView,
}

impl DeepView for CreatedContainer {
    type V = CreatedContainerView;

    open spec fn deep_view(&self) -> CreatedContainerView {
        CreatedContainerView {
            container_id: self.container_id@,
            custom_uuid: self.custom_uuid@,
            name: self.name@,
            image: self.image@,
            state: self.state@,
            allocated_ports: self.allocated_ports.deep_view(),
            limits: self.limits.deep_view(),
        }
    }
}

/// A creation that went on unseen and asks for the start of the container.
#[derive(Debug, Clone)]
pub struct CreateStart {
    pub container_id: String,
    pub entrypoint: String,
    pub line: String,
    /// Whether the script installs first.
    pub has_install: bool,
}

/// What a [`CreateStart`] holds.
#[verifier::ext_equal]
pub struct CreateStartView {
    pub container_id: Seq<char>,
    pub entrypoint: Seq<char>,
    pub line: Seq<char>,
    pub has_install: bool,
}

impl DeepView for CreateStart {
    type V = CreateStartView;

    open spec fn deep_view(&self) -> CreateStartView {
        CreateStartView {
            container_id: self.container_id@,
            entrypoint: self.entrypoint@,
            line: self.line@,
            has_install: self.has_install,
        }
    }
}

/// A creation whose script installs.
#[derive(Debug, Clone)]
pub struct CreateWait {
    pub container_id: String,
    pub entrypoint: String,
    pub line: String,
    pub wait: ExitWait,
}

/// What a [`CreateWait`] holds.
#[verifier::ext_equal]
pub struct CreateWaitView {
    pub container_id: Seq<char>,
    pub entrypoint: Seq<char>,
    pub line: Seq<char>,
    pub wait: ExitWait,
}

impl DeepView for CreateWait {
    type V = CreateWaitView;

    open spec fn deep_view(&self) -> CreateWaitView {
        CreateWaitView {
            container_id: self.container_id@,
            entrypoint: self.entrypoint@,
            line: self.line@,
            wait: self.wait,
        }
    }
}

/// A creation that asks for the start of what was installed.
#[derive(Debug, Clone)]
pub struct CreateRestart {
    pub container_id: String,
}

/// What a [`CreateRestart`] holds.
#[verifier::ext_equal]
pub struct CreateRestartView {
    pub container_id: Seq<char>,
}

impl DeepView for CreateRestart {
    type V = CreateRestartView;

    open spec fn deep_view(&self) -> CreateRestartView {
        CreateRestartView {
            container_id: self.container_id@,
        }
    }
}

/// The name of a container, where one may be missing.
pub open spec fn name_or_unnamed(name: Option<Seq<char>>) -> Seq<char> {
    match name {
        Some(name) => name,
        None => "unnamed"@,
    }
}

fn name_of(name: &Option<String>) -> (r: String)
    ensures
        r@ == name_or_unnamed(name.deep_view()),
{
    match name {
        Some(name) => name.clone(),
        None => "unnamed".to_string(),
    }
}

/// The directories of the host that mounts name.
pub open spec fn mount_sources(volumes: Seq<VolumeMountView>) -> Seq<Seq<char>> {
    Seq::new(volumes.len(), |i: int| volumes[i].source)
}

fn sources_of(volumes: &Vec<VolumeMount>) -> (r: Vec<String>)
    ensures
        r.deep_view() == mount_sources(volumes.deep_view()),
{
    let mut r: Vec<String> = Vec::new();
    for i in 0..volumes.len()
        invariant
            r.len() == i,
            forall|k: int| 0 <= k < i ==> (#[trigger] r@[k])@ == volumes@[k].source@,
    {
        r.push(volumes[i].source.clone());
    }
    assert(r.deep_view() =~= mount_sources(volumes.deep_view()));
    r
}

/// What the daemon remembers about a container that is being made.
pub open spec fn creating_state(
    order: CreateContainerRequestView,
    created_at: Timestamp,
    updated_at: Timestamp,
) -> ContainerStateView {
    let limits = match order.limits {
        Some(limits) => limits,
        None => no_limits(),
    };
    ContainerStateView {
        state: "creating"@,
        container_id: None,
        image: order.image,
        name: name_or_unnamed(order.name),
        description: order.description,
        startup_command: match order.startup_command {
            Some(words) => Some(joined(words, " "@)),
            None => None,
        },
        disk_limit: limits.disk,
        memory_limit: limits.memory,
        cpu_limit: limits.cpu,
        swap_limit: limits.swap,
        pids_limit: limits.pids,
        threads_limit: limits.threads,
        attached_volumes: match order.volumes {
            Some(volumes) => mount_sources(volumes),
            None => Seq::empty(),
        },
        ports: match order.ports {
            Some(ports) => ports,
            None => Map::empty(),
        },
        env: order.env,
        created_at,
        updated_at,
        locked: None,
        lock_reason: None,
        locked_at: None,
        restart_policy: None,
        operation: None,
        operation_id: None,
        operation_message: None,
    }
}

/// What a new container runs first: the script that installs it, where there is one.
pub open spec fn first_script(order: CreateContainerRequestView) -> Seq<char> {
    match order.install_content {
        Some(script) => script,
        None => startup_line(order.startup_command),
    }
}

/// How a creation begins.
pub open spec fn create_begun(
    uuid: Seq<char>,
    volumes: Seq<char>,
    order: CreateContainerRequestView,
    created_at: Timestamp,
    updated_at: Timestamp,
) -> (Seq<TaskView>, CreateAskView) {
    let entrypoint = entrypoint_path(volumes, uuid);
    (
        seq![
            attempt(ActionView::AddState(creating_state(order, created_at, updated_at))),
            demand(
                ActionView::MakeDirectory(data_path(volumes, uuid)),
                "Failed to create data dir: "@,
            ),
            demand(
                ActionView::WriteFile { path: entrypoint, content: first_script(order) },
                "Failed to write entrypoint: "@,
            ),
            attempt(ActionView::MakeExecutable(entrypoint)),
        ],
        CreateAskView {
            uuid,
            order,
            request: CreateContainerRequestView {
                startup_command: Some(entrypoint_command()),
                ..order
            },
            entrypoint,
            line: startup_line(order.startup_command),
        },
    )
}

fn state_of(order: &CreateContainerRequest, created_at: Timestamp, updated_at: Timestamp) -> (r:
    ContainerState)
    ensures
        r.deep_view() == creating_state(order.deep_view(), created_at, updated_at),
{
    let limits = match &order.limits {
        Some(limits) => limits.duplicate(),
        None => ResourceLimits::default(),
    };
    let startup_command = match &order.startup_command {
        Some(words) => {
            assert(words.deep_view().skip(0) =~= words.deep_view());
            Some(join_words(words, 0))
        },
        None => None,
    };
    let attached_volumes = match &order.volumes {
        Some(volumes) => sources_of(volumes),
        None => {
            let none: Vec<String> = Vec::new();
            assert(none.deep_view() =~= Seq::<Seq<char>>::empty());
            none
        },
    };
    let ports = match &order.ports {
        Some(ports) => ports.duplicate(),
        None => Table::new(),
    };
    ContainerState {
        state: "creating".to_string(),
        container_id: None,
        image: order.image.clone(),
        name: name_of(&order.name),
        description: order.description.duplicate(),
        startup_command,
        disk_limit: limits.disk,
        memory_limit: limits.memory,
        cpu_limit: limits.cpu,
        swap_limit: limits.swap,
        pids_limit: limits.pids,
        threads_limit: limits.threads,
        attached_volumes,
        ports,
        env: order.env.duplicate(),
        created_at,
        updated_at,
        locked: None,
        lock_reason: None,
        locked_at: None,
        restart_policy: None,
        operation: None,
        operation_id: None,
        operation_message: None,
    }
}

/// The UUID of a new container: the one that was asked for, or a new one.
pub fn uuid_for(order: &CreateContainerRequest, fresh: String) -> (r: String)
    ensures
        r@ == match order.custom_uuid {
            Some(uuid) => uuid@,
            None => fresh@,
        },
{
    match &order.custom_uuid {
        Some(uuid) => uuid.clone(),
        None => fresh,
    }
}

/// Begins to make a container under a UUID.
pub fn create_container(uuid: &str, volumes_path: &str, order: CreateContainerRequest) -> (r: (
    Vec<Task>,
    CreateAsk,
))
    ensures
        exists|created_at: Timestamp, updated_at: Timestamp|
            created_at.secs >= 0 && updated_at.secs >= 0 && (r.0.deep_view(), r.1.deep_view())
                == #[trigger] create_begun(
                uuid@,
                volumes_path@,
                order.deep_view(),
                created_at,
                updated_at,
            ),
{
    let created_at = utc_now();
    let updated_at = utc_now();
    create_container_at(uuid, volumes_path, order, created_at, updated_at)
}

/// Begins to make a container under a UUID, at the times given.
pub fn create_container_at(
    uuid: &str,
    volumes_path: &str,
    order: CreateContainerRequest,
    created_at: Timestamp,
    updated_at: Timestamp,
) -> (r: (Vec<Task>, CreateAsk))
    ensures
        (r.0.deep_view(), r.1.deep_view()) == create_begun(
            uuid@,
            volumes_path@,
            order.deep_view(),
            created_at,
            updated_at,
        ),
{
    let entrypoint = entrypoint_path_of(volumes_path, uuid);
    let line = startup_line_of(&order.startup_command);
    let content = match &order.install_content {
        Some(script) => script.clone(),
        None => line.clone(),
    };
    let state = state_of(&order, created_at, updated_at);
    let mut tasks: Vec<Task> = Vec::new();
    tasks.push(Task::attempt(Action::AddState(state)));
    tasks.push(
        Task::demand(
            Action::MakeDirectory(data_path_of(volumes_path, uuid)),
            "Failed to create data dir: ",
        ),
    );
    tasks.push(
        Task::demand(
            Action::WriteFile { path: entrypoint.clone(), content },
            "Failed to write entrypoint: ",
        ),
    );
    tasks.push(Task::attempt(Action::MakeExecutable(entrypoint.clone())));
    assert(tasks.deep_view() =~= create_begun(
        uuid@,
        volumes_path@,
        order.deep_view(),
        created_at,
        updated_at,
    ).0);
    let mut request = order.duplicate();
    request.startup_command = Some(entrypoint_words());
    (tasks, CreateAsk { uuid: uuid.to_string(), order, request, entrypoint, line })
}

/// The record of a new container.
pub open spec fn created_tracker(
    stage: CreateAskView,
    container_id: Seq<char>,
    ports: Seq<PortAllocationView>,
    now: Timestamp,
) -> ContainerTrackerView {
    let order = stage.order;
    ContainerTrackerView {
        custom_uuid: stage.uuid,
        container_id,
        name: name_or_unnamed(order.name),
        image: order.image,
        description: order.description,
        startup_command: order.startup_command,
        created_at: now,
        limits: match order.limits {
            Some(limits) => limits,
            None => no_limits(),
        },
        allocated_ports: ports,
        attached_volumes: match order.volumes {
            Some(volumes) => volumes,
            None => Seq::empty(),
        },
        ports: match order.ports {
            Some(ports) => ports,
            None => Map::empty(),
        },
        env: order.env,
        status: "created"@,
        runtime: order.runtime,
    }
}

/// The tasks that follow the making of a container.
pub open spec fn created_tasks(
    stage: CreateAskView,
    container_id: Seq<char>,
    ports: Seq<PortAllocationView>,
    now: Timestamp,
) -> Seq<TaskView> {
    seq![
        attempt(ActionView::SetContainerId(container_id)),
        attempt(ActionView::SetState("created"@)),
        attempt(ActionView::NotifyState("created"@)),
        attempt(ActionView::SaveTracker(created_tracker(stage, container_id, ports, now))),
    ] + match stage.order.runtime {
        Some(runtime) => seq![
            attempt(
                ActionView::SetRuntime {
                    container_id,
                    start_up: runtime.start_up,
                    stop: runtime.stop,
                },
            ),
        ],
        None => Seq::empty(),
    }
}

/// The answer to a creation.
pub open spec fn created_reply(
    stage: CreateAskView,
    container_id: Seq<char>,
    ports: Seq<PortAllocationView>,
) -> CreatedContainerView {
    CreatedContainerView {
        container_id,
        custom_uuid: stage.uuid,
        name: name_or_unnamed(stage.order.name),
        image: stage.order.image,
        state: if stage.order.install_content is Some {
            "installing"@
        } else {
            "starting"@
        },
        allocated_ports: ports,
        limits: match stage.order.limits {
            Some(limits) => limits,
            None => no_limits(),
        },
    }
}

/// What goes on unseen after a creation.
pub open spec fn create_background(stage: CreateAskView, container_id: Seq<char>) -> CreateStartView {
    CreateStartView {
        container_id,
        entrypoint: stage.entrypoint,
        line: stage.line,
        has_install: stage.order.install_content is Some,
    }
}

/// What follows the making of a container: tasks, the answer, and what goes on unseen.
#[derive(Debug)]
pub struct Created {
    pub tasks: Vec<Task>,
    pub answer: Result<CreatedContainer, String>,
    pub background: Option<CreateStart>,
}

/// What a [`Created`] holds.
#[verifier::ext_equal]
pub struct CreatedView {
    pub tasks: Seq<TaskView>,
    pub answer: Result<CreatedContainerView, Seq<char>>,
    pub background: Option<CreateStartView>,
}

impl DeepView for Created {
    type V = CreatedView;

    open spec fn deep_view(&self) -> CreatedView {
        CreatedView {
            tasks: self.tasks.deep_view(),
            answer: result_view(self.answer),
            background: self.background.deep_view(),
        }
    }
}

/// What follows the making of a container.
pub open spec fn create_made(
    stage: CreateAskView,
    reply: Result<(Seq<char>, Seq<PortAllocationView>), Seq<char>>,
    now: Timestamp,
) -> CreatedView {
    match reply {
        Ok((container_id, ports)) => CreatedView {
            tasks: created_tasks(stage, container_id, ports, now),
            answer: Ok(created_reply(stage, container_id, ports)),
            background: Some(create_background(stage, container_id)),
        },
        Err(e) => CreatedView {
            tasks: seq![attempt(ActionView::SetState("failed"@))],
            answer: Err(e),
            background: None,
        },
    }
}

impl CreateAsk {
    /// Takes the new container and its ports.
    pub fn created(self, reply: Result<(String, Vec<PortAllocation>), String>) -> (r: Created)
        ensures
            exists|now: Timestamp|
                now.secs >= 0 && r.deep_view() == #[trigger] create_made(
                    self.deep_view(),
                    result_view(reply),
                    now,
                ),
    {
        let now = utc_now();
        self.created_at(reply, now)
    }

    /// Takes the new container and its ports, at the time given.
    pub fn created_at(
        self,
        reply: Result<(String, Vec<PortAllocation>), String>,
        now: Timestamp,
    ) -> (r: Created)
        ensures
            r.deep_view() == create_made(self.deep_view(), result_view(reply), now),
    {
        let mut tasks: Vec<Task> = Vec::new();
        let (container_id, ports) = match reply {
            Ok(made) => made,
            Err(e) => {
                tasks.push(Task::attempt(Action::SetState("failed".to_string())));
                assert(tasks.deep_view() =~= seq![attempt(ActionView::SetState("failed"@))]);
                return Created { tasks, answer: Err(e), background: None };
            },
        };
        let order = &self.order;
        let limits = match &order.limits {
            Some(limits) => limits.duplicate(),
            None => ResourceLimits::default(),
        };
        let attached_volumes = match &order.volumes {
            Some(volumes) => volumes.duplicate(),
            None => {
                let none: Vec<VolumeMount> = Vec::new();
                assert(none.deep_view() =~= Seq::<VolumeMountView>::empty());
                none
            },
        };
        let order_ports = match &order.ports {
            Some(ports) => ports.duplicate(),
            None => Table::new(),
        };
        let has_install = order.install_content.is_some();
        let state = if has_install {
            "installing"
        } else {
            "starting"
        };
        let answer = CreatedContainer {
            container_id: container_id.clone(),
            custom_uuid: self.uuid.clone(),
            name: name_of(&order.name),
            image: order.image.clone(),
            state: state.to_string(),
            allocated_ports: ports.duplicate(),
            limits: limits.duplicate(),
        };
        let tracker = ContainerTracker {
            custom_uuid: self.uuid.clone(),
            container_id: container_id.clone(),
            name: name_of(&order.name),
            image: order.image.clone(),
            description: order.description.duplicate(),
            startup_command: order.startup_command.duplicate(),
            created_at: now,
            limits,
            allocated_ports: ports,
            attached_volumes,
            ports: order_ports,
            env: order.env.duplicate(),
            status: "created".to_string(),
            runtime: order.runtime.duplicate(),
        };
        tasks.push(Task::attempt(Action::SetContainerId(container_id.clone())));
        tasks.push(Task::attempt(Action::SetState("created".to_string())));
        tasks.push(Task::attempt(Action::NotifyState("created".to_string())));
        tasks.push(Task::attempt(Action::SaveTracker(tracker)));
        if let Some(runtime) = &order.runtime {
            tasks.push(
                Task::attempt(
                    Action::SetRuntime {
                        container_id: container_id.clone(),
                        start_up: runtime.start_up.clone(),
                        stop: runtime.stop.clone(),
                    },
                ),
            );
        }
        assert(tasks.deep_view() =~= created_tasks(
            self.deep_view(),
            container_id@,
            ports.deep_view(),
            now,
        ));
        let background = CreateStart {
            container_id,
            entrypoint: self.entrypoint,
            line: self.line,
            has_install,
        };
        Created { tasks, answer: Ok(answer), background: Some(background) }
    }
}

/// What follows the start of a new container.
pub open spec fn create_started(stage: CreateStartView, started: bool) -> StepView<CreateWaitView> {
    if !started {
        StepView::Over(
            seq![
                attempt(ActionView::SetState("failed"@)),
                attempt(ActionView::NotifyState("failed"@)),
            ],
        )
    } else if stage.has_install {
        StepView::Go(
            seq![
                attempt(ActionView::SetState("installing"@)),
                attempt(ActionView::Notify { status: "installing"@, message: None }),
                attempt(ActionView::Lock("Running install script"@)),
            ],
            CreateWaitView {
                container_id: stage.container_id,
                entrypoint: stage.entrypoint,
                line: stage.line,
                wait: ExitWait { waited: 0, timeout_secs: SCRIPT_TIMEOUT_SECS },
            },
        )
    } else {
        StepView::Over(seq![attempt(ActionView::SetState("running"@))])
    }
}

/// What follows the wait for the script that installs.
pub open spec fn create_waited(stage: CreateWaitView, end: WaitEnd) -> StepView<CreateRestartView> {
    match end {
        WaitEnd::TimedOut => StepView::Over(
            seq![
                attempt(ActionView::SetState("install_timeout"@)),
                attempt(ActionView::Unlock),
            ],
        ),
        WaitEnd::Lost => StepView::Over(
            seq![attempt(ActionView::SetState("failed"@)), attempt(ActionView::Unlock)],
        ),
        WaitEnd::Exited(code) => if code == 0 {
            StepView::Go(
                seq![
                    attempt(
                        ActionView::WriteFile { path: stage.entrypoint, content: stage.line },
                    ),
                ],
                CreateRestartView { container_id: stage.container_id },
            )
        } else {
            StepView::Over(
                seq![
                    attempt(ActionView::SetState("install_failed"@)),
                    attempt(ActionView::Notify { status: "install_failed"@, message: None }),
                    attempt(ActionView::Unlock),
                ],
            )
        },
    }
}

/// What follows the start of what was installed.
pub open spec fn create_restarted(started: bool) -> Seq<TaskView> {
    if started {
        seq![
            attempt(ActionView::SetState("running"@)),
            attempt(ActionView::Notify { status: "install_success"@, message: None }),
            attempt(ActionView::Unlock),
        ]
    } else {
        seq![
            attempt(ActionView::SetState("failed"@)),
            attempt(
                ActionView::Notify {
                    status: "install_failed"@,
                    message: Some("restart failed"@),
                },
            ),
            attempt(ActionView::Unlock),
        ]
    }
}

impl CreateStart {
    /// Takes whether the container started.
    pub fn started(self, reply: &Result<(), String>) -> (r: Step<CreateWait>)
        ensures
            r.deep_view() == create_started(self.deep_view(), reply is Ok),
    {
        let mut tasks: Vec<Task> = Vec::new();
        if reply.is_err() {
            tasks.push(Task::attempt(Action::SetState("failed".to_string())));
            tasks.push(Task::attempt(Action::NotifyState("failed".to_string())));
            assert(tasks.deep_view() =~= create_started(self.deep_view(), false)->Over_0);
            return Step::Over(tasks);
        }
        if self.has_install {
            tasks.push(Task::attempt(Action::SetState("installing".to_string())));
            tasks.push(
                Task::attempt(
                    Action::Notify { status: "installing".to_string(), message: None },
                ),
            );
            tasks.push(Task::attempt(Action::Lock("Running install script".to_string())));
            assert(tasks.deep_view() =~= create_started(self.deep_view(), true)->Go_0);
            let wait = ExitWait::new(SCRIPT_TIMEOUT_SECS);
            Step::Go(
                tasks,
                CreateWait {
                    container_id: self.container_id,
                    entrypoint: self.entrypoint,
                    line: self.line,
                    wait,
                },
            )
        } else {
            tasks.push(Task::attempt(Action::SetState("running".to_string())));
            assert(tasks.deep_view() =~= create_started(self.deep_view(), true)->Over_0);
            Step::Over(tasks)
        }
    }
}

impl CreateWait {
    /// Takes how the wait for the script ended.
    pub fn waited(self, end: WaitEnd) -> (r: Step<CreateRestart>)
        ensures
            r.deep_view() == create_waited(self.deep_view(), end),
    {
        let mut tasks: Vec<Task> = Vec::new();
        match end {
            WaitEnd::TimedOut => {
                tasks.push(Task::attempt(Action::SetState("install_timeout".to_string())));
                tasks.push(Task::attempt(Action::Unlock));
                assert(tasks.deep_view() =~= create_waited(self.deep_view(), end)->Over_0);
                Step::Over(tasks)
            },
            WaitEnd::Lost => {
                tasks.push(Task::attempt(Action::SetState("failed".to_string())));
                tasks.push(Task::attempt(Action::Unlock));
                assert(tasks.deep_view() =~= create_waited(self.deep_view(), end)->Over_0);
                Step::Over(tasks)
            },
            WaitEnd::Exited(code) => if code == 0 {
                tasks.push(
                    Task::attempt(
                        Action::WriteFile { path: self.entrypoint, content: self.line },
                    ),
                );
                assert(tasks.deep_view() =~= create_waited(self.deep_view(), end)->Go_0);
                Step::Go(tasks, CreateRestart { container_id: self.container_id })
            } else {
                tasks.push(Task::attempt(Action::SetState("install_failed".to_string())));
                tasks.push(
                    Task::attempt(
                        Action::Notify { status: "install_failed".to_string(), message: None },
                    ),
                );
                tasks.push(Task::attempt(Action::Unlock));
                assert(tasks.deep_view() =~= create_waited(self.deep_view(), end)->Over_0);
                Step::Over(tasks)
            },
        }
    }
}

impl CreateRestart {
    /// Takes whether what was installed started.
    pub fn started(self, reply: &Result<(), String>) -> (r: Vec<Task>)
        ensures
            r.deep_view() == create_restarted(reply is Ok),
    {
        let mut tasks: Vec<Task> = Vec::new();
        if reply.is_ok() {
            tasks.push(Task::attempt(Action::SetState("running".to_string())));
            tasks.push(
                Task::attempt(
                    Action::Notify { status: "install_success".to_string(), message: None },
                ),
            );
        } else {
            tasks.push(Task::attempt(Action::SetState("failed".to_string())));
            tasks.push(
                Task::attempt(
                    Action::Notify {
                        status: "install_failed".to_string(),
                        message: Some("restart failed".to_string()),
                    },
                ),
            );
        }
        tasks.push(Task::attempt(Action::Unlock));
        assert(tasks.deep_view() =~= create_restarted(reply is Ok));
        tasks
    }
}

/// A container that was locked for its installation is unlocked, however the installation ends.
pub proof fn law_creation_unlocks(stage: CreateWaitView, end: WaitEnd, started: bool)
    ensures
        match create_waited(stage, end) {
            StepView::Over(tasks) => has_action(tasks, ActionView::Unlock),
            StepView::Go(_, _) => has_action(create_restarted(started), ActionView::Unlock),
        },
{
    match create_waited(stage, end) {
        StepView::Over(tasks) => {
            assert(tasks[tasks.len() - 1].action == ActionView::Unlock);
        },
        StepView::Go(_, _) => {
            assert(create_restarted(started)[2].action == ActionView::Unlock);
        },
    }
}

/// A new container is made, remembered and recorded under one UUID, and what was asked for is
/// what is recorded.
pub proof fn law_creation_keeps_order(
    uuid: Seq<char>,
    volumes: Seq<char>,
    order: CreateContainerRequestView,
    times: (Timestamp, Timestamp, Timestamp),
    container_id: Seq<char>,
    ports: Seq<PortAllocationView>,
)
    ensures
        ({
            let stage = create_begun(uuid, volumes, order, times.0, times.1).1;
            let tracker = created_tracker(stage, container_id, ports, times.2);
            &&& stage.request == (CreateContainerRequestView {
                startup_command: Some(entrypoint_command()),
                ..order
            })
            &&& tracker.custom_uuid == uuid
            &&& tracker.container_id == container_id
            &&& tracker.image == order.image
            &&& tracker.startup_command == order.startup_command
            &&& tracker.env == order.env
            &&& tracker.runtime == order.runtime
            &&& tracker.allocated_ports == ports
            &&& created_reply(stage, container_id, ports).custom_uuid == uuid
        }),
{
}

/// What is remembered of a container that is being made is its order: nothing of the order is
/// lost or changed, nothing is locked, and it has no name in the engine yet.
pub proof fn law_creating_state(
    order: CreateContainerRequestView,
    times: (Timestamp, Timestamp),
    i: int,
)
    ensures
        ({
            let state = creating_state(order, times.0, times.1);
            &&& state.state == "creating"@
            &&& state.container_id is None
            &&& state.image == order.image
            &&& order.name matches Some(name) ==> state.name == name
            &&& order.name is None ==> state.name == "unnamed"@
            &&& state.description == order.description
            &&& order.startup_command matches Some(words) ==> state.startup_command == Some(
                joined(words, " "@),
            )
            &&& order.startup_command is None ==> state.startup_command is None
            &&& order.limits matches Some(limits) ==> {
                &&& state.disk_limit == limits.disk
                &&& state.memory_limit == limits.memory
                &&& state.cpu_limit == limits.cpu
                &&& state.swap_limit == limits.swap
                &&& state.pids_limit == limits.pids
                &&& state.threads_limit == limits.threads
            }
            &&& order.limits is None ==> {
                &&& state.disk_limit is None
                &&& state.memory_limit is None
                &&& state.cpu_limit is None
                &&& state.swap_limit is None
                &&& state.pids_limit is None
                &&& state.threads_limit is None
            }
            &&& order.volumes matches Some(volumes) ==> {
                &&& state.attached_volumes.len() == volumes.len()
                &&& 0 <= i < volumes.len() ==> state.attached_volumes[i] == volumes[i].source
            }
            &&& order.volumes is None ==> state.attached_volumes.len() == 0
            &&& order.ports matches Some(ports) ==> state.ports == ports
            &&& order.ports is None ==> state.ports == Map::<Seq<char>, Seq<char>>::empty()
            &&& state.env == order.env
            &&& state.created_at == times.0
            &&& state.updated_at == times.1
            &&& state.locked is None
            &&& state.lock_reason is None
            &&& state.locked_at is None
            &&& state.restart_policy is None
            &&& state.operation is None
            &&& state.operation_id is None
            &&& state.operation_message is None
        }),
{
}

/// The container is remembered before anything is done for it. Its entrypoint holds the install
/// script of the order, or its startup command where it has none, before the engine is asked;
/// what comes after the script is the startup command.
pub proof fn law_creation_begins(
    uuid: Seq<char>,
    volumes: Seq<char>,
    order: CreateContainerRequestView,
    times: (Timestamp, Timestamp),
)
    ensures
        ({
            let (tasks, stage) = create_begun(uuid, volumes, order, times.0, times.1);
            let data = volumes + "/"@ + uuid + "_data"@;
            let line = match order.startup_command {
                Some(words) => shell_line(words),
                None => "sleep infinity"@,
            };
            &&& tasks.len() == 4
            &&& tasks[0].action == ActionView::AddState(creating_state(order, times.0, times.1))
            &&& tasks[1].action == ActionView::MakeDirectory(data)
            &&& tasks[1].failure == Some("Failed to create data dir: "@)
            &&& tasks[2].action == (ActionView::WriteFile {
                path: data + "/entrypoint.sh"@,
                content: if order.install_content is Some {
                    order.install_content->0
                } else {
                    line
                },
            })
            &&& tasks[2].failure == Some("Failed to write entrypoint: "@)
            &&& tasks[3].action == ActionView::MakeExecutable(data + "/entrypoint.sh"@)
            &&& stage.uuid == uuid
            &&& stage.order == order
            &&& stage.entrypoint == data + "/entrypoint.sh"@
            &&& stage.line == line
            &&& stage.request.image == order.image
            &&& stage.request.name == order.name
            &&& stage.request.description == order.description
            &&& stage.request.env == order.env
            &&& stage.request.ports == order.ports
            &&& stage.request.volumes == order.volumes
            &&& stage.request.limits == order.limits
            &&& stage.request.runtime == order.runtime
            &&& stage.request.custom_uuid == order.custom_uuid
            &&& stage.request.command == order.command
            &&& stage.request.working_dir == order.working_dir
            &&& stage.request.restart_policy == order.restart_policy
            &&& stage.request.install_content == order.install_content
            &&& stage.request.request_id == order.request_id
            &&& stage.request.startup_command == Some(seq!["/bin/sh"@, "/data/entrypoint.sh"@])
        }),
{
}

/// A container that was made is recorded as it was ordered, is remembered under its name in the
/// engine, is shown as created, and how its server starts and stops is kept where the order says
/// it. The answer tells the same. The rest goes on with that container.
pub proof fn law_created_container(
    stage: CreateAskView,
    container_id: Seq<char>,
    ports: Seq<PortAllocationView>,
    now: Timestamp,
)
    ensures
        ({
            let order = stage.order;
            let made = create_made(stage, Ok((container_id, ports)), now);
            let name = match order.name {
                Some(name) => name,
                None => "unnamed"@,
            };
            &&& made.tasks[0].action == ActionView::SetContainerId(container_id)
            &&& made.tasks[1].action == ActionView::SetState("created"@)
            &&& made.tasks[2].action == ActionView::NotifyState("created"@)
            &&& made.tasks[3].action matches ActionView::SaveTracker(saved) && {
                &&& saved.custom_uuid == stage.uuid
                &&& saved.container_id == container_id
                &&& saved.name == name
                &&& saved.image == order.image
                &&& saved.description == order.description
                &&& saved.startup_command == order.startup_command
                &&& saved.created_at == now
                &&& order.limits matches Some(limits) ==> saved.limits == limits
                &&& order.limits is None ==> saved.limits == no_limits()
                &&& saved.allocated_ports == ports
                &&& order.volumes matches Some(volumes) ==> saved.attached_volumes == volumes
                &&& order.volumes is None ==> saved.attached_volumes.len() == 0
                &&& order.ports matches Some(asked) ==> saved.ports == asked
                &&& order.ports is None ==> saved.ports == Map::<Seq<char>, Seq<char>>::empty()
                &&& saved.env == order.env
                &&& saved.status == "created"@
                &&& saved.runtime == order.runtime
            }
            &&& order.runtime is None ==> made.tasks.len() == 4
            &&& order.runtime matches Some(runtime) ==> made.tasks.len() == 5
                && made.tasks[4].action == (ActionView::SetRuntime {
                container_id,
                start_up: runtime.start_up,
                stop: runtime.stop,
            })
            &&& made.answer matches Ok(answer) && {
                &&& answer.container_id == container_id
                &&& answer.custom_uuid == stage.uuid
                &&& answer.name == name
                &&& answer.image == order.image
                &&& answer.allocated_ports == ports
                &&& order.limits matches Some(limits) ==> answer.limits == limits
                &&& order.limits is None ==> answer.limits == no_limits()
                &&& order.install_content is Some ==> answer.state == "installing"@
                &&& order.install_content is None ==> answer.state == "starting"@
            }
            &&& made.background matches Some(next) && {
                &&& next.container_id == container_id
                &&& next.entrypoint == stage.entrypoint
                &&& next.line == stage.line
                &&& next.has_install == (order.install_content is Some)
            }
        }),
{
}

/// A container that could not be made is marked as failed, the answer is the error, and nothing
/// goes on.
pub proof fn law_failed_creation_ends(stage: CreateAskView, e: Seq<char>, now: Timestamp)
    ensures
        ({
            let made = create_made(stage, Err(e), now);
            &&& made.tasks.len() == 1
            &&& made.tasks[0].action == ActionView::SetState("failed"@)
            &&& made.answer == Err::<CreatedContainerView, Seq<char>>(e)
            &&& made.background is None
        }),
{
}

/// A container that does not start has failed. One without an install script then runs; one with
/// a script is shown as being installed and locked while it runs, for ten minutes at most.
pub proof fn law_created_container_starts(stage: CreateStartView)
    ensures
        create_started(stage, false) matches StepView::Over(tasks) && {
            &&& tasks.len() == 2
            &&& tasks[0].action == ActionView::SetState("failed"@)
            &&& tasks[1].action == ActionView::NotifyState("failed"@)
        },
        !stage.has_install ==> (create_started(stage, true) matches StepView::Over(tasks) && {
            &&& tasks.len() == 1
            &&& tasks[0].action == ActionView::SetState("running"@)
        }),
        stage.has_install ==> (create_started(stage, true) matches StepView::Go(tasks, next) && {
            &&& tasks.len() == 3
            &&& tasks[0].action == ActionView::SetState("installing"@)
            &&& tasks[1].action == (ActionView::Notify { status: "installing"@, message: None })
            &&& tasks[2].action == ActionView::Lock("Running install script"@)
            &&& next.container_id == stage.container_id
            &&& next.entrypoint == stage.entrypoint
            &&& next.line == stage.line
            &&& next.wait.waited == 0
            &&& next.wait.timeout_secs == 600
        }),
{
}

/// After a script that ended well the entrypoint holds the startup command, and the container is
/// started again: it runs and the success is told, or it has failed and that is told. A script
/// that ended badly, took too long or was lost sight of is marked as that.
pub proof fn law_created_container_is_installed(stage: CreateWaitView, code: i64)
    ensures
        create_waited(stage, WaitEnd::Exited(0)) matches StepView::Go(tasks, next) && {
            &&& tasks.len() == 1
            &&& tasks[0].action == (ActionView::WriteFile {
                path: stage.entrypoint,
                content: stage.line,
            })
            &&& next.container_id == stage.container_id
        },
        code != 0 ==> (create_waited(stage, WaitEnd::Exited(code)) matches StepView::Over(tasks)
            && {
            &&& tasks.len() == 3
            &&& tasks[0].action == ActionView::SetState("install_failed"@)
            &&& tasks[1].action == (ActionView::Notify {
                status: "install_failed"@,
                message: None,
            })
            &&& tasks[2].action == ActionView::Unlock
        }),
        create_waited(stage, WaitEnd::TimedOut) matches StepView::Over(tasks) && {
            &&& tasks.len() == 2
            &&& tasks[0].action == ActionView::SetState("install_timeout"@)
            &&& tasks[1].action == ActionView::Unlock
        },
        create_waited(stage, WaitEnd::Lost) matches StepView::Over(tasks) && {
            &&& tasks.len() == 2
            &&& tasks[0].action == ActionView::SetState("failed"@)
            &&& tasks[1].action == ActionView::Unlock
        },
        create_restarted(true)[0].action == ActionView::SetState("running"@),
        create_restarted(true)[1].action == (ActionView::Notify {
            status: "install_success"@,
            message: None,
        }),
        create_restarted(true)[2].action == ActionView::Unlock,
        create_restarted(false)[0].action == ActionView::SetState("failed"@),
        create_restarted(false)[1].action == (ActionView::Notify {
            status: "install_failed"@,
            message: Some("restart failed"@),
        }),
        create_restarted(false)[2].action == ActionView::Unlock,
{
}

} // verus!
