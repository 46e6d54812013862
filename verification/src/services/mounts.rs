//! Giving a container another data directory.

use super::container_lifecycle::{
    begin, begin_tasks, binds_of, container_binds, fail, failed_ending, lemma_keep_lock_both, load,
    loaded, succeed, succeeded_by, ContainerLifecycleManager, TEARDOWN_PAUSE_MS,
};
use super::recipe::{
    data_path, data_path_of, entrypoint_command, entrypoint_words, env_lines, env_lines_of,
    law_teardown_cannot_fail, port_map, port_table, push_teardown, successor_request,
    successor_request_of, tcp_allocations, tcp_allocations_of, teardown,
};
use super::task::{
    attempt, has_action, is_guarded, lemma_guarded, result_view, Action, ActionView, Ending,
    EndingView, Next, NextView, Task, TaskView,
};
use crate::docker::engine::{EngineBinding, EngineBindingView, EngineConfig, EngineConfigView};
use crate::docker::network::{PortAllocation, PortAllocationView};
use crate::duplicate::Duplicate;
use crate::models::{
    ContainerTracker, ContainerTrackerView, CreateContainerRequest, CreateContainerRequestView,
    VolumeMount, VolumeMountView,
};
use crate::table::Table;
use crate::text::cat2;
use vstd::prelude::*;

verus! {

/// A swap that asks for the record of the container.
#[derive(Debug, Clone)]
pub struct SwapLoad {
    pub uuid: String,
    pub volumes_path: String,
    pub new_volume_path: String,
}

/// What a [`SwapLoad`] holds.
#[verifier::ext_equal]
pub struct SwapLoadView {
    pub uuid: Seq<char>,
    pub volumes_path: Seq<char>,
    pub new_volume_path: Seq<char>,
}

impl DeepView for SwapLoad {
    type V = SwapLoadView;

    open spec fn deep_view(&self) -> SwapLoadView {
        SwapLoadView {
            uuid: self.uuid@,
            volumes_path: self.volumes_path@,
            new_volume_path: self.new_volume_path@,
        }
    }
}

/// A swap that asks for the absolute paths of the directories.
#[derive(Debug, Clone)]
pub struct SwapPaths {
    pub uuid: String,
    pub new_volume_path: String,
    pub data_path: String,
    pub tracker: ContainerTracker,
    /// The ports that the old container had.
    pub ports: Table<String>,
}

/// What a [`SwapPaths`] holds.
#[verifier::ext_equal]
pub struct SwapPathsView {
    pub uuid: Seq<char>,
    pub new_volume_path: Seq<char>,
    pub data_path: Seq<char>,
    pub tracker: ContainerTrackerView,
    pub ports: Map<Seq<char>, Seq<char>>,
}

impl DeepView for SwapPaths {
    type V = SwapPathsView;

    open spec fn deep_view(&self) -> SwapPathsView {
        SwapPathsView {
            uuid: self.uuid@,
            new_volume_path: self.new_volume_path@,
            data_path: self.data_path@,
            tracker: self.tracker.deep_view(),
            ports: self.ports.deep_view(),
        }
    }
}

/// A swap that asks for ports of the host.
#[derive(Debug, Clone)]
pub struct SwapAllocate {
    pub uuid: String,
    pub new_volume_path: String,
    pub tracker: ContainerTracker,
    /// The new directory, as an absolute path.
    pub volume: String,
    /// The directory with the script, as an absolute path.
    pub data: String,
    pub ports: Table<String>,
}

/// What a [`SwapAllocate`] holds.
#[verifier::ext_equal]
pub struct SwapAllocateView {
    pub uuid: Seq<char>,
    pub new_volume_path: Seq<char>,
    pub tracker: ContainerTrackerView,
    pub volume: Seq<char>,
    pub data: Seq<char>,
    pub ports: Map<Seq<char>, Seq<char>>,
}

impl DeepView for SwapAllocate {
    type V = SwapAllocateView;

    open spec fn deep_view(&self) -> SwapAllocateView {
        SwapAllocateView {
            uuid: self.uuid@,
            new_volume_path: self.new_volume_path@,
            tracker: self.tracker.deep_view(),
            volume: self.volume@,
            data: self.data@,
            ports: self.ports.deep_view(),
        }
    }
}

/// A swap that asks for a new container.
#[derive(Debug, Clone)]
pub struct SwapCreate {
    pub new_volume_path: String,
    pub tracker: ContainerTracker,
    pub config: EngineConfig,
    /// The ports that the new container has.
    pub allocated: Table<String>,
}

/// What a swap asks once the directories are known.
#[derive(Debug)]
pub enum SwapStep {
    /// The container had ports.
    Allocate(SwapAllocate),
    /// It had none.
    Create(SwapCreate),
}

/// What a swap does with the record of the container: the old container is taken away.
pub open spec fn swap_loaded(
    stage: SwapLoadView,
    reply: Result<Option<ContainerTrackerView>, Seq<char>>,
) -> NextView<SwapPathsView, Seq<char>> {
    match loaded(reply) {
        Err(ending) => NextView::End(ending),
        Ok(tracker) => NextView::Go(
            teardown(tracker.container_id, TEARDOWN_PAUSE_MS, tracker.allocated_ports),
            SwapPathsView {
                uuid: stage.uuid,
                new_volume_path: stage.new_volume_path,
                data_path: data_path(stage.volumes_path, stage.uuid),
                tracker,
                ports: port_map(tracker.allocated_ports),
            },
        ),
    }
}

/// The TCP ports of a container, bound to all addresses of the host.
pub open spec fn engine_bindings(pairs: Seq<(Seq<char>, Seq<char>)>) -> Seq<EngineBindingView> {
    Seq::new(
        pairs.len(),
        |i: int|
            EngineBindingView {
                port: pairs[i].0 + "/tcp"@,
                host_ip: "0.0.0.0"@,
                host_port: pairs[i].1,
            },
    )
}

/// The environment of a container: its variables, and a mark that it is one of the daemon.
pub open spec fn managed_env(env: Option<Table<String>>) -> Seq<Seq<char>> {
    (match env {
        Some(table) => env_lines(table.pairs()),
        None => Seq::empty(),
    }).push("LIGHTD_MANAGED=true"@)
}

/// A container that sees another directory than its own as its data.
pub open spec fn custom_config(
    uuid: Seq<char>,
    tracker: ContainerTracker,
    volume: Seq<char>,
    data: Seq<char>,
    ports: Seq<(Seq<char>, Seq<char>)>,
) -> EngineConfigView {
    EngineConfigView {
        name: uuid,
        image: tracker.image@,
        cmd: entrypoint_command(),
        working_dir: "/home/container"@,
        tty: true,
        interactive: true,
        env: managed_env(tracker.env),
        binds: container_binds(volume, data),
        ports: if ports.len() == 0 {
            None
        } else {
            Some(engine_bindings(ports))
        },
        restart_unless_stopped: true,
        oom_kill_disable: Some(false),
    }
}

/// What a swap keeps of itself while a new container is made.
pub open spec fn is_swap_create(
    create: SwapCreate,
    uuid: Seq<char>,
    new_volume_path: Seq<char>,
    tracker: ContainerTracker,
    volume: Seq<char>,
    data: Seq<char>,
    ports: Seq<(Seq<char>, Seq<char>)>,
) -> bool {
    &&& create.new_volume_path@ == new_volume_path
    &&& create.tracker.deep_view() == tracker.deep_view()
    &&& create.config.deep_view() == custom_config(uuid, tracker, volume, data, ports)
    &&& create.allocated.pairs() == ports
}

/// The record of a container whose data directory was swapped.
pub open spec fn swapped_tracker(
    tracker: ContainerTrackerView,
    container_id: Seq<char>,
    new_volume_path: Seq<char>,
) -> ContainerTrackerView {
    ContainerTrackerView {
        container_id,
        attached_volumes: seq![
            VolumeMountView {
                source: new_volume_path,
                target: "/home/container"@,
                read_only: Some(false),
            },
        ],
        ..tracker
    }
}

/// How a swap ends, given what became of the new container. It is left stopped.
pub open spec fn swap_created(
    tracker: ContainerTrackerView,
    new_volume_path: Seq<char>,
    ports: Seq<(Seq<char>, Seq<char>)>,
    reply: Result<Seq<char>, Seq<char>>,
) -> EndingView<Seq<char>> {
    match reply {
        Err(e) => failed_ending("Failed to create container: "@ + e),
        Ok(container_id) => EndingView {
            tasks: seq![
                attempt(
                    ActionView::SaveTracker(
                        succeeded_by(tracker, container_id, tcp_allocations(ports)),
                    ),
                ),
                attempt(
                    ActionView::SaveTracker(
                        swapped_tracker(tracker, container_id, new_volume_path),
                    ),
                ),
                attempt(ActionView::SetContainerId(container_id)),
                attempt(ActionView::SetState("stopped"@)),
                attempt(ActionView::Unlock),
            ],
            result: Ok(container_id),
        },
    }
}

fn bindings_of(ports: &Table<String>) -> (r: Option<Vec<EngineBinding>>)
    ensures
        r.deep_view() == if ports.pairs().len() == 0 {
            None
        } else {
            Some(engine_bindings(ports.pairs()))
        },
{
    let n = ports.len();
    if n == 0 {
        return None;
    }
    let mut r: Vec<EngineBinding> = Vec::new();
    for i in 0..n
        invariant
            n == ports.pairs().len(),
            r.len() == i,
            forall|k: int|
                0 <= k < i ==> (#[trigger] r@[k]).deep_view() == engine_bindings(ports.pairs())[k],
    {
        r.push(
            EngineBinding {
                port: cat2(ports.key_at(i), "/tcp"),
                host_ip: "0.0.0.0".to_string(),
                host_port: ports.value_at(i).clone(),
            },
        );
    }
    assert(r.deep_view() =~= engine_bindings(ports.pairs()));
    Some(r)
}

/// Asks for a container that sees `volume` as its data. Its ports are `allocated`.
pub fn create_container_with_custom_volume(
    uuid: &str,
    new_volume_path: String,
    tracker: ContainerTracker,
    volume: &str,
    data: &str,
    allocated: Table<String>,
) -> (r: SwapCreate)
    ensures
        is_swap_create(
            r,
            uuid@,
            new_volume_path@,
            tracker,
            volume@,
            data@,
            allocated.pairs(),
        ),
{
    let mut env: Vec<String> = match &tracker.env {
        Some(table) => env_lines_of(table),
        None => Vec::new(),
    };
    let ghost lines = env.deep_view();
    assert(tracker.env is None ==> lines =~= Seq::<Seq<char>>::empty());
    env.push("LIGHTD_MANAGED=true".to_string());
    assert(env.deep_view() =~= lines.push("LIGHTD_MANAGED=true"@));
    let config = EngineConfig {
        name: uuid.to_string(),
        image: tracker.image.clone(),
        cmd: entrypoint_words(),
        working_dir: "/home/container".to_string(),
        tty: true,
        interactive: true,
        env,
        binds: binds_of(volume, data),
        ports: bindings_of(&allocated),
        restart_unless_stopped: true,
        oom_kill_disable: Some(false),
    };
    SwapCreate { new_volume_path, tracker, config, allocated }
}

impl SwapLoad {
    /// Takes the record of the container.
    pub fn tracker_loaded(self, reply: Result<Option<ContainerTracker>, String>) -> (r: Next<
        SwapPaths,
        String,
    >)
        ensures
            r.deep_view() == swap_loaded(self.deep_view(), result_view(reply)),
    {
        let tracker = match load(reply) {
            Ok(tracker) => tracker,
            Err(ending) => {
                return Next::End(ending);
            },
        };
        let mut tasks: Vec<Task> = Vec::new();
        assert(tasks.deep_view() =~= Seq::<TaskView>::empty());
        push_teardown(&mut tasks, &tracker, TEARDOWN_PAUSE_MS);
        assert(tasks.deep_view() =~= teardown(
            tracker.container_id@,
            TEARDOWN_PAUSE_MS,
            tracker.allocated_ports.deep_view(),
        ));
        let ports = port_table(&tracker.allocated_ports);
        let data_path = data_path_of(self.volumes_path.as_str(), self.uuid.as_str());
        Next::Go(
            tasks,
            SwapPaths {
                uuid: self.uuid,
                new_volume_path: self.new_volume_path,
                data_path,
                tracker,
                ports,
            },
        )
    }
}

impl SwapPaths {
    /// Takes the absolute paths of the new directory and of the one with the script. Ports are
    /// asked for only where the old container had any.
    pub fn resolved(self, volume: Result<String, String>, data: Result<String, String>) -> (r: Next<
        SwapStep,
        String,
    >)
        ensures
            match (volume, data) {
                (Err(e), _) => r matches Next::End(ending) && ending.deep_view() == failed_ending(
                    "Failed to get absolute volume path: "@ + e@,
                ),
                (_, Err(e)) => r matches Next::End(ending) && ending.deep_view() == failed_ending(
                    "Failed to get absolute data path: "@ + e@,
                ),
                (Ok(volume), Ok(data)) => r matches Next::Go(tasks, step) && tasks@.len() == 0
                    && if self.ports@ == Map::<Seq<char>, Seq<char>>::empty() {
                    step matches SwapStep::Create(create) && is_swap_create(
                        create,
                        self.uuid@,
                        self.new_volume_path@,
                        self.tracker,
                        volume@,
                        data@,
                        Seq::empty(),
                    )
                } else {
                    step matches SwapStep::Allocate(ask) && ask == (SwapAllocate {
                        uuid: self.uuid,
                        new_volume_path: self.new_volume_path,
                        tracker: self.tracker,
                        volume,
                        data,
                        ports: self.ports,
                    })
                },
            },
    {
        let volume = match volume {
            Ok(path) => path,
            Err(e) => {
                return Next::End(
                    fail(cat2("Failed to get absolute volume path: ", e.as_str())),
                );
            },
        };
        let data = match data {
            Ok(path) => path,
            Err(e) => {
                return Next::End(fail(cat2("Failed to get absolute data path: ", e.as_str())));
            },
        };
        let tasks: Vec<Task> = Vec::new();
        if self.ports.is_empty() {
            let none: Table<String> = Table::new();
            assert(none.pairs() =~= Seq::empty());
            let create = create_container_with_custom_volume(
                self.uuid.as_str(),
                self.new_volume_path,
                self.tracker,
                volume.as_str(),
                data.as_str(),
                none,
            );
            Next::Go(tasks, SwapStep::Create(create))
        } else {
            Next::Go(
                tasks,
                SwapStep::Allocate(
                    SwapAllocate {
                        uuid: self.uuid,
                        new_volume_path: self.new_volume_path,
                        tracker: self.tracker,
                        volume,
                        data,
                        ports: self.ports,
                    },
                ),
            )
        }
    }
}

impl SwapAllocate {
    /// Takes the ports that the host gave.
    pub fn allocated(self, reply: Result<Table<String>, String>) -> (r: Result<
        SwapCreate,
        Ending<String>,
    >)
        ensures
            match reply {
                Err(e) => r matches Err(ending) && ending.deep_view() == failed_ending(
                    "Port allocation failed: "@ + e@,
                ),
                Ok(ports) => r matches Ok(create) && is_swap_create(
                    create,
                    self.uuid@,
                    self.new_volume_path@,
                    self.tracker,
                    self.volume@,
                    self.data@,
                    ports.pairs(),
                ),
            },
    {
        match reply {
            Err(e) => Err(fail(cat2("Port allocation failed: ", e.as_str()))),
            Ok(ports) => Ok(
                create_container_with_custom_volume(
                    self.uuid.as_str(),
                    self.new_volume_path,
                    self.tracker,
                    self.volume.as_str(),
                    self.data.as_str(),
                    ports,
                ),
            ),
        }
    }
}

impl SwapCreate {
    /// Takes the new container.
    pub fn created(self, reply: Result<String, String>) -> (r: Ending<String>)
        ensures
            r.deep_view() == swap_created(
                self.tracker.deep_view(),
                self.new_volume_path@,
                self.allocated.pairs(),
                result_view(reply),
            ),
    {
        match reply {
            Err(e) => fail(cat2("Failed to create container: ", e.as_str())),
            Ok(container_id) => {
                let ports = tcp_allocations_of(&self.allocated);
                let first = succeed(self.tracker.duplicate(), container_id.as_str(), ports);
                let mut second = self.tracker;
                second.container_id = container_id.clone();
                let mut volumes: Vec<VolumeMount> = Vec::new();
                volumes.push(
                    VolumeMount {
                        source: self.new_volume_path,
                        target: "/home/container".to_string(),
                        read_only: Some(false),
                    },
                );
                assert(volumes.deep_view() =~= seq![
                    VolumeMountView {
                        source: self.new_volume_path@,
                        target: "/home/container"@,
                        read_only: Some(false),
                    },
                ]);
                second.attached_volumes = volumes;
                let mut tasks: Vec<Task> = Vec::new();
                tasks.push(Task::attempt(Action::SaveTracker(first)));
                tasks.push(Task::attempt(Action::SaveTracker(second)));
                tasks.push(Task::attempt(Action::SetContainerId(container_id.clone())));
                tasks.push(Task::attempt(Action::SetState("stopped".to_string())));
                tasks.push(Task::attempt(Action::Unlock));
                assert(tasks.deep_view() =~= swap_created(
                    self.tracker.deep_view(),
                    self.new_volume_path@,
                    self.allocated.pairs(),
                    Ok(container_id@),
                ).tasks);
                Ending { tasks, result: Ok(container_id) }
            },
        }
    }
}

/// A reset that asks for the record of the container.
#[derive(Debug, Clone)]
pub struct ResetLoad {
    pub uuid: String,
}

/// What a [`ResetLoad`] holds.
#[verifier::ext_equal]
pub struct ResetLoadView {
    pub uuid: Seq<char>,
}

impl DeepView for ResetLoad {
    type V = ResetLoadView;

    open spec fn deep_view(&self) -> ResetLoadView {
        ResetLoadView {
            uuid: self.uuid@,
        }
    }
}

/// A reset that asks for a new container.
#[derive(Debug, Clone)]
pub struct ResetCreate {
    pub request: CreateContainerRequest,
    pub tracker: ContainerTracker,
}

/// What a [`ResetCreate`] holds.
#[verifier::ext_equal]
pub struct ResetCreateView {
    pub request: CreateContainerRequestView,
    pub tracker: ContainerTrackerView,
}

impl DeepView for ResetCreate {
    type V = ResetCreateView;

    open spec fn deep_view(&self) -> ResetCreateView {
        ResetCreateView {
            request: self.request.deep_view(),
            tracker: self.tracker.deep_view(),
        }
    }
}

/// What a reset does with the record of the container: the old container is taken away, and one
/// that sees its own directory is asked for.
pub open spec fn reset_loaded(
    uuid: Seq<char>,
    reply: Result<Option<ContainerTrackerView>, Seq<char>>,
) -> NextView<ResetCreateView, Seq<char>> {
    match loaded(reply) {
        Err(ending) => NextView::End(ending),
        Ok(tracker) => NextView::Go(
            teardown(tracker.container_id, TEARDOWN_PAUSE_MS, tracker.allocated_ports),
            ResetCreateView {
                request: successor_request(
                    uuid,
                    tracker,
                    tracker.image,
                    tracker.env,
                    None,
                    tracker.limits,
                ),
                tracker,
            },
        ),
    }
}

/// How a reset ends, given what became of the new container. It is left stopped.
pub open spec fn reset_created(
    tracker: ContainerTrackerView,
    reply: Result<(Seq<char>, Seq<PortAllocationView>), Seq<char>>,
) -> EndingView<Seq<char>> {
    match reply {
        Err(e) => failed_ending("Failed to create container: "@ + e),
        Ok((container_id, ports)) => EndingView {
            tasks: seq![
                attempt(
                    ActionView::SaveTracker(
                        ContainerTrackerView {
                            attached_volumes: Seq::empty(),
                            ..succeeded_by(tracker, container_id, ports)
                        },
                    ),
                ),
                attempt(ActionView::SetContainerId(container_id)),
                attempt(ActionView::SetState("stopped"@)),
                attempt(ActionView::Unlock),
            ],
            result: Ok(container_id),
        },
    }
}

impl ResetLoad {
    /// Takes the record of the container.
    pub fn tracker_loaded(self, reply: Result<Option<ContainerTracker>, String>) -> (r: Next<
        ResetCreate,
        String,
    >)
        ensures
            r.deep_view() == reset_loaded(self.uuid@, result_view(reply)),
    {
        let tracker = match load(reply) {
            Ok(tracker) => tracker,
            Err(ending) => {
                return Next::End(ending);
            },
        };
        let mut tasks: Vec<Task> = Vec::new();
        assert(tasks.deep_view() =~= Seq::<TaskView>::empty());
        push_teardown(&mut tasks, &tracker, TEARDOWN_PAUSE_MS);
        assert(tasks.deep_view() =~= teardown(
            tracker.container_id@,
            TEARDOWN_PAUSE_MS,
            tracker.allocated_ports.deep_view(),
        ));
        let image = tracker.image.clone();
        let env = tracker.env.duplicate();
        let limits = tracker.limits.duplicate();
        let request = successor_request_of(self.uuid.as_str(), &tracker, image, env, None, limits);
        Next::Go(tasks, ResetCreate { request, tracker })
    }
}

impl ResetCreate {
    /// Takes the new container and its ports.
    pub fn created(self, reply: Result<(String, Vec<PortAllocation>), String>) -> (r: Ending<String>)
        ensures
            r.deep_view() == reset_created(self.tracker.deep_view(), result_view(reply)),
    {
        match reply {
            Err(e) => fail(cat2("Failed to create container: ", e.as_str())),
            Ok((container_id, ports)) => {
                let mut tracker = succeed(self.tracker, container_id.as_str(), ports);
                let volumes: Vec<VolumeMount> = Vec::new();
                assert(volumes.deep_view() =~= Seq::empty());
                tracker.attached_volumes = volumes;
                let mut tasks: Vec<Task> = Vec::new();
                tasks.push(Task::attempt(Action::SaveTracker(tracker)));
                tasks.push(Task::attempt(Action::SetContainerId(container_id.clone())));
                tasks.push(Task::attempt(Action::SetState("stopped".to_string())));
                tasks.push(Task::attempt(Action::Unlock));
                assert(tasks.deep_view() =~= reset_created(
                    self.tracker.deep_view(),
                    result_view(reply),
                ).tasks);
                Ending { tasks, result: Ok(container_id) }
            },
        }
    }
}

/// A swap that asks for the record of the container.
pub open spec fn swap_stage(
    uuid: Seq<char>,
    volumes: Seq<char>,
    new_volume_path: Seq<char>,
) -> SwapLoadView {
    SwapLoadView { uuid, volumes_path: volumes, new_volume_path }
}

impl ContainerLifecycleManager {
    /// Lets a container see another directory as its data. It is made anew for that.
    pub fn swap_mount(&self, uuid: &str, new_volume_path: &str) -> (r: (Vec<Task>, SwapLoad))
        ensures
            r.0.deep_view() == begin_tasks(
                "Swapping mount"@,
                "Failed to lock container: "@,
                "recreating"@,
            ),
            r.1.deep_view() == swap_stage(uuid@, self.volumes_path@, new_volume_path@),
    {
        let tasks = begin("Swapping mount", "Failed to lock container: ", "recreating");
        (
            tasks,
            SwapLoad {
                uuid: uuid.to_string(),
                volumes_path: self.volumes_path.clone(),
                new_volume_path: new_volume_path.to_string(),
            },
        )
    }

    /// Lets a container see its own directory as its data again. It is made anew for that.
    pub fn reset_mount(&self, uuid: &str) -> (r: (Vec<Task>, ResetLoad))
        ensures
            r.0.deep_view() == begin_tasks(
                "Resetting mount"@,
                "Failed to lock container: "@,
                "recreating"@,
            ),
            r.1.uuid@ == uuid@,
    {
        let tasks = begin("Resetting mount", "Failed to lock container: ", "recreating");
        (tasks, ResetLoad { uuid: uuid.to_string() })
    }
}

/// All tasks of a swap and its result, given the answers to its questions, where no task ends it
/// before. Ports are asked for only where the old container had any.
pub open spec fn swap_run(
    stage: SwapLoadView,
    tracker: Result<Option<ContainerTrackerView>, Seq<char>>,
    volume: Result<Seq<char>, Seq<char>>,
    data: Result<Seq<char>, Seq<char>>,
    ports: Result<Seq<(Seq<char>, Seq<char>)>, Seq<char>>,
    created: Result<Seq<char>, Seq<char>>,
) -> EndingView<Seq<char>> {
    let begun = begin_tasks("Swapping mount"@, "Failed to lock container: "@, "recreating"@);
    match swap_loaded(stage, tracker) {
        NextView::End(ending) => EndingView { tasks: begun + ending.tasks, ..ending },
        NextView::Go(first, paths) => {
            let ending = match (volume, data, ports) {
                (Err(e), _, _) => failed_ending("Failed to get absolute volume path: "@ + e),
                (_, Err(e), _) => failed_ending("Failed to get absolute data path: "@ + e),
                (_, _, Err(e)) => failed_ending("Port allocation failed: "@ + e),
                (_, _, Ok(ports)) => swap_created(
                    paths.tracker,
                    stage.new_volume_path,
                    ports,
                    created,
                ),
            };
            EndingView { tasks: begun + first + ending.tasks, ..ending }
        },
    }
}

/// A swap holds the lock from its beginning until its very end, whatever comes of it, and touches
/// nothing before it has the lock.
pub proof fn law_swap_unlocks(
    stage: SwapLoadView,
    tracker: Result<Option<ContainerTrackerView>, Seq<char>>,
    volume: Result<Seq<char>, Seq<char>>,
    data: Result<Seq<char>, Seq<char>>,
    ports: Result<Seq<(Seq<char>, Seq<char>)>, Seq<char>>,
    created: Result<Seq<char>, Seq<char>>,
)
    ensures
        ({
            let tasks = swap_run(stage, tracker, volume, data, ports, created).tasks;
            is_guarded(tasks, tasks.len() - 1)
        }),
{
    let tasks = swap_run(stage, tracker, volume, data, ports, created).tasks;
    let begun = begin_tasks("Swapping mount"@, "Failed to lock container: "@, "recreating"@);
    let lock = begun[0];
    match swap_loaded(stage, tracker) {
        NextView::End(ending) => {
            assert(tasks =~= seq![lock] + seq![begun[1]] + ending.tasks);
            lemma_guarded(lock, seq![begun[1]], ending.tasks, 0);
        },
        NextView::Go(first, paths) => {
            let old = paths.tracker;
            law_teardown_cannot_fail(old.container_id, TEARDOWN_PAUSE_MS, old.allocated_ports);
            let body = seq![begun[1]] + first;
            lemma_keep_lock_both(seq![begun[1]], first);
            let last = tasks.skip((2 + first.len()) as int);
            assert(tasks =~= seq![lock] + body + last);
            if volume is Ok && data is Ok && ports is Ok && created is Ok {
                assert(last =~= swap_created(
                    old,
                    stage.new_volume_path,
                    ports->Ok_0,
                    created,
                ).tasks);
                lemma_guarded(lock, body, last, 4);
            } else {
                assert(last =~= failed_ending(Seq::empty()).tasks);
                lemma_guarded(lock, body, last, 1);
            }
        },
    }
}

/// All tasks of a reset and its result, given the answers to its questions, where no task ends it
/// before.
pub open spec fn reset_run(
    uuid: Seq<char>,
    tracker: Result<Option<ContainerTrackerView>, Seq<char>>,
    created: Result<(Seq<char>, Seq<PortAllocationView>), Seq<char>>,
) -> EndingView<Seq<char>> {
    let begun = begin_tasks("Resetting mount"@, "Failed to lock container: "@, "recreating"@);
    match reset_loaded(uuid, tracker) {
        NextView::End(ending) => EndingView { tasks: begun + ending.tasks, ..ending },
        NextView::Go(first, create) => {
            let ending = reset_created(create.tracker, created);
            EndingView { tasks: begun + first + ending.tasks, ..ending }
        },
    }
}

/// A reset holds the lock from its beginning until its very end, whatever comes of it, and touches
/// nothing before it has the lock.
pub proof fn law_reset_unlocks(
    uuid: Seq<char>,
    tracker: Result<Option<ContainerTrackerView>, Seq<char>>,
    created: Result<(Seq<char>, Seq<PortAllocationView>), Seq<char>>,
)
    ensures
        ({
            let tasks = reset_run(uuid, tracker, created).tasks;
            is_guarded(tasks, tasks.len() - 1)
        }),
{
    let tasks = reset_run(uuid, tracker, created).tasks;
    let begun = begin_tasks("Resetting mount"@, "Failed to lock container: "@, "recreating"@);
    let lock = begun[0];
    match reset_loaded(uuid, tracker) {
        NextView::End(ending) => {
            assert(tasks =~= seq![lock] + seq![begun[1]] + ending.tasks);
            lemma_guarded(lock, seq![begun[1]], ending.tasks, 0);
        },
        NextView::Go(first, create) => {
            let old = create.tracker;
            law_teardown_cannot_fail(old.container_id, TEARDOWN_PAUSE_MS, old.allocated_ports);
            let body = seq![begun[1]] + first;
            let ending = reset_created(old, created);
            lemma_keep_lock_both(seq![begun[1]], first);
            assert(tasks =~= seq![lock] + body + ending.tasks);
            if created is Ok {
                lemma_guarded(lock, body, ending.tasks, 3);
            } else {
                lemma_guarded(lock, body, ending.tasks, 1);
            }
        },
    }
}

/// A reset undoes a swap: the record that it writes is that from before the swap, without
/// attached directories, but for the container of the engine and its ports.
pub proof fn law_reset_undoes_swap(
    tracker: ContainerTrackerView,
    swapped_id: Seq<char>,
    new_volume_path: Seq<char>,
    container_id: Seq<char>,
    ports: Seq<PortAllocationView>,
)
    requires
        tracker.attached_volumes.len() == 0,
    ensures
        has_action(
            reset_created(
                swapped_tracker(tracker, swapped_id, new_volume_path),
                Ok((container_id, ports)),
            ).tasks,
            ActionView::SaveTracker(succeeded_by(tracker, container_id, ports)),
        ),
{
    let tasks = reset_created(
        swapped_tracker(tracker, swapped_id, new_volume_path),
        Ok((container_id, ports)),
    ).tasks;
    assert(tracker.attached_volumes =~= Seq::empty());
    assert(tasks[0].action == ActionView::SaveTracker(
        succeeded_by(tracker, container_id, ports),
    ));
}

/// Whether `bindings` bind `container_port` to `host_port`, for TCP and on every address of the
/// host.
pub open spec fn binds_port(
    bindings: Seq<EngineBindingView>,
    container_port: Seq<char>,
    host_port: Seq<char>,
) -> bool {
    exists|i: int|
        0 <= i < bindings.len() && {
            &&& (#[trigger] bindings[i]).port == container_port + "/tcp"@
            &&& bindings[i].host_ip == "0.0.0.0"@
            &&& bindings[i].host_port == host_port
        }
}

/// Every port that was allocated is bound, for TCP and on every address of the host, and nothing
/// else is: there are as many bindings as ports, and each is one of them. A container without
/// ports has no bindings.
pub proof fn law_every_port_is_bound(
    uuid: Seq<char>,
    tracker: ContainerTracker,
    volume: Seq<char>,
    data: Seq<char>,
    ports: Seq<(Seq<char>, Seq<char>)>,
    i: int,
)
    ensures
        ({
            let config = custom_config(uuid, tracker, volume, data, ports);
            &&& ports.len() == 0 ==> config.ports is None
            &&& ports.len() > 0 ==> (config.ports matches Some(bindings) && {
                &&& bindings.len() == ports.len()
                &&& 0 <= i < ports.len() ==> {
                    &&& binds_port(bindings, ports[i].0, ports[i].1)
                    &&& bindings[i].port == ports[i].0 + "/tcp"@
                    &&& bindings[i].host_ip == "0.0.0.0"@
                    &&& bindings[i].host_port == ports[i].1
                }
            })
        }),
{
    let config = custom_config(uuid, tracker, volume, data, ports);
    if 0 <= i < ports.len() {
        let bindings = config.ports->0;
        assert(bindings[i].port == ports[i].0 + "/tcp"@);
    }
}

/// A container with another data directory is as it was otherwise: it has its UUID, its image
/// and its environment, runs its entrypoint where its files are, and sees the new directory where
/// it saw the old one. What the daemon keeps for it it cannot write to.
pub proof fn law_swapped_container(
    uuid: Seq<char>,
    tracker: ContainerTracker,
    env: Table<String>,
    volume: Seq<char>,
    data: Seq<char>,
    ports: Seq<(Seq<char>, Seq<char>)>,
    i: int,
)
    ensures
        ({
            let config = custom_config(uuid, tracker, volume, data, ports);
            &&& config.name == uuid
            &&& config.image == tracker.image@
            &&& config.cmd == seq!["/bin/sh"@, "/data/entrypoint.sh"@]
            &&& config.working_dir == "/home/container"@
            &&& config.binds.len() == 2
            &&& config.binds[0] == volume + ":/home/container"@
            &&& config.binds[1] == data + ":/data:ro"@
            &&& config.tty && config.interactive && config.restart_unless_stopped
            &&& config.oom_kill_disable == Some(false)
            &&& tracker.env is None ==> config.env == seq!["LIGHTD_MANAGED=true"@]
            &&& tracker.env == Some(env) ==> {
                &&& config.env.len() == env.pairs().len() + 1
                &&& config.env.last() == "LIGHTD_MANAGED=true"@
                &&& 0 <= i < env.pairs().len() ==> config.env[i] == env.pairs()[i].0 + "="@
                    + env.pairs()[i].1
            }
        }),
{
    assert(Seq::<Seq<char>>::empty().push("LIGHTD_MANAGED=true"@) =~= seq![
        "LIGHTD_MANAGED=true"@,
    ]);
}

/// A swap tears the old container down and goes on with the same container, the new directory
/// and the ports that it had. Without a record it ends, and only lets go of the container.
pub proof fn law_swap_goes_on(stage: SwapLoadView, tracker: ContainerTrackerView, e: Seq<char>)
    ensures
        swap_loaded(stage, Ok(Some(tracker))) matches NextView::Go(tasks, next) && {
            &&& tasks.len() >= 3
            &&& tasks[0].action == ActionView::Stop(tracker.container_id)
            &&& tasks[1].action == ActionView::Pause(300)
            &&& tasks[2].action == ActionView::Remove(tracker.container_id)
            &&& next.uuid == stage.uuid
            &&& next.new_volume_path == stage.new_volume_path
            &&& next.data_path == stage.volumes_path + "/"@ + stage.uuid + "_data"@
            &&& next.tracker == tracker
            &&& next.ports == port_map(tracker.allocated_ports)
        },
        swap_loaded(stage, Ok(None)) matches NextView::End(ending) && {
            &&& ending.result == Err::<Seq<char>, Seq<char>>("Container tracker data not found"@)
            &&& ending.tasks.len() == 1
            &&& ending.tasks[0].action == ActionView::Unlock
        },
        swap_loaded(stage, Err(e)) matches NextView::End(ending) && {
            &&& ending.result == Err::<Seq<char>, Seq<char>>("Failed to load container data: "@ + e)
            &&& ending.tasks.len() == 1
            &&& ending.tasks[0].action == ActionView::Unlock
        },
{
}

/// After a swap the record names the new container and the new directory, mounted where the
/// container keeps its files and writable, and is otherwise as it was. The container counts as
/// stopped and is unlocked.
pub proof fn law_swap_is_recorded(
    tracker: ContainerTrackerView,
    new_volume_path: Seq<char>,
    ports: Seq<(Seq<char>, Seq<char>)>,
    container_id: Seq<char>,
    e: Seq<char>,
)
    ensures
        ({
            let ending = swap_created(tracker, new_volume_path, ports, Ok(container_id));
            &&& ending.result == Ok::<Seq<char>, Seq<char>>(container_id)
            &&& ending.tasks.len() == 5
            &&& ending.tasks[0].action == ActionView::SaveTracker(
                ContainerTrackerView {
                    container_id,
                    allocated_ports: tcp_allocations(ports),
                    ..tracker
                },
            )
            &&& ending.tasks[1].action matches ActionView::SaveTracker(saved) && {
                &&& saved.container_id == container_id
                &&& saved.attached_volumes.len() == 1
                &&& saved.attached_volumes[0].source == new_volume_path
                &&& saved.attached_volumes[0].target == "/home/container"@
                &&& saved.attached_volumes[0].read_only == Some(false)
                &&& saved == (ContainerTrackerView {
                    container_id,
                    attached_volumes: saved.attached_volumes,
                    ..tracker
                })
            }
            &&& ending.tasks[2].action == ActionView::SetContainerId(container_id)
            &&& ending.tasks[3].action == ActionView::SetState("stopped"@)
            &&& ending.tasks[4].action == ActionView::Unlock
        }),
        ({
            let ending = swap_created(tracker, new_volume_path, ports, Err(e));
            &&& ending.result == Err::<Seq<char>, Seq<char>>("Failed to create container: "@ + e)
            &&& ending.tasks.len() == 2
            &&& ending.tasks[0].action == ActionView::SetState("failed"@)
            &&& ending.tasks[1].action == ActionView::Unlock
        }),
{
}

/// A reset tears the old container down and asks for one as it is recorded, with no mounts of
/// its own, so that it sees its own directory again.
pub proof fn law_reset_goes_on(uuid: Seq<char>, tracker: ContainerTrackerView)
    ensures
        reset_loaded(uuid, Ok(Some(tracker))) matches NextView::Go(tasks, next) && {
            &&& tasks.len() >= 3
            &&& tasks[0].action == ActionView::Stop(tracker.container_id)
            &&& tasks[2].action == ActionView::Remove(tracker.container_id)
            &&& next.tracker == tracker
            &&& next.request.volumes is None
            &&& next.request.custom_uuid == Some(uuid)
            &&& next.request.name == Some(tracker.name)
            &&& next.request.image == tracker.image
            &&& next.request.env == tracker.env
            &&& next.request.limits == Some(tracker.limits)
            &&& next.request.description == tracker.description
            &&& next.request.runtime == tracker.runtime
            &&& port_map(tracker.allocated_ports) != Map::<Seq<char>, Seq<char>>::empty()
                ==> next.request.ports == Some(port_map(tracker.allocated_ports))
        },
        reset_loaded(uuid, Ok(None)) matches NextView::End(ending) && ending.result == Err::<
            Seq<char>,
            Seq<char>,
        >("Container tracker data not found"@),
{
}

/// After a reset the record names the new container and its ports, has no mounts, and is
/// otherwise as it was. The container counts as stopped and is unlocked.
pub proof fn law_reset_is_recorded(
    tracker: ContainerTrackerView,
    container_id: Seq<char>,
    ports: Seq<PortAllocationView>,
    e: Seq<char>,
)
    ensures
        ({
            let ending = reset_created(tracker, Ok((container_id, ports)));
            &&& ending.result == Ok::<Seq<char>, Seq<char>>(container_id)
            &&& ending.tasks.len() == 4
            &&& ending.tasks[0].action matches ActionView::SaveTracker(saved) && {
                &&& saved.attached_volumes.len() == 0
                &&& saved.container_id == container_id
                &&& saved.allocated_ports == ports
                &&& saved == (ContainerTrackerView {
                    container_id,
                    allocated_ports: ports,
                    attached_volumes: saved.attached_volumes,
                    ..tracker
                })
            }
            &&& ending.tasks[1].action == ActionView::SetContainerId(container_id)
            &&& ending.tasks[2].action == ActionView::SetState("stopped"@)
            &&& ending.tasks[3].action == ActionView::Unlock
        }),
        ({
            let ending = reset_created(tracker, Err(e));
            &&& ending.result == Err::<Seq<char>, Seq<char>>("Failed to create container: "@ + e)
            &&& ending.tasks.len() == 2
            &&& ending.tasks[0].action == ActionView::SetState("failed"@)
            &&& ending.tasks[1].action == ActionView::Unlock
        }),
{
}

/// Work on a container begins with its lock, without which it does not go on, and then shows
/// what is being done.
pub proof fn law_work_begins(reason: Seq<char>, text: Seq<char>, state: Seq<char>)
    ensures
        begin_tasks(reason, text, state).len() == 2,
        begin_tasks(reason, text, state)[0].action == ActionView::Lock(reason),
        begin_tasks(reason, text, state)[0].failure == Some(text),
        begin_tasks(reason, text, state)[1].action == ActionView::SetState(state),
        begin_tasks(reason, text, state)[1].failure == Some("Failed to update state: "@),
        begin_tasks(reason, text, state)[1].unlocks,
{
}

/// What a swap asks the engine for is the container as it is recorded, under its UUID and with
/// the given directories and ports, and it goes on with the record, the new directory and the
/// ports that it was asked for with.
pub proof fn law_swap_asks_for(
    create: SwapCreate,
    uuid: Seq<char>,
    new_volume_path: Seq<char>,
    tracker: ContainerTracker,
    volume: Seq<char>,
    data: Seq<char>,
    ports: Seq<(Seq<char>, Seq<char>)>,
    i: int,
)
    requires
        is_swap_create(create, uuid, new_volume_path, tracker, volume, data, ports),
    ensures
        create.new_volume_path@ == new_volume_path,
        create.tracker.deep_view() == tracker.deep_view(),
        create.allocated.pairs() == ports,
        create.config.deep_view().name == uuid,
        create.config.deep_view().image == tracker.image@,
        create.config.deep_view().binds == seq![
            volume + ":/home/container"@,
            data + ":/data:ro"@,
        ],
        0 <= i < ports.len() ==> (create.config.deep_view().ports matches Some(bindings)
            && bindings.len() == ports.len() && binds_port(bindings, ports[i].0, ports[i].1)),
{
    law_every_port_is_bound(uuid, tracker, volume, data, ports, i);
}

/// A swap goes on with the container and the directory that it was begun with.
pub proof fn law_swap_is_begun(
    uuid: Seq<char>,
    volumes: Seq<char>,
    new_volume_path: Seq<char>,
    tracker: ContainerTrackerView,
)
    ensures
        swap_loaded(swap_stage(uuid, volumes, new_volume_path), Ok(Some(tracker)))
            matches NextView::Go(_, next) && {
            &&& next.uuid == uuid
            &&& next.new_volume_path == new_volume_path
            &&& next.data_path == volumes + "/"@ + uuid + "_data"@
            &&& next.tracker == tracker
        },
{
}

} // verus!
