//! Installing an existing container anew, under a lock.

use super::container_lifecycle::{
    lemma_keep_lock_both, succeed, succeeded_by, ContainerLifecycleManager, TEARDOWN_PAUSE_MS,
};
use super::exit_wait::{ExitWait, WaitEnd, SCRIPT_TIMEOUT_SECS};
use super::recipe::{
    data_path, data_path_of, entrypoint_path, entrypoint_path_of, law_teardown_cannot_fail,
    port_map, push_teardown, shell_line, startup_line, startup_line_of, successor_request,
    successor_request_of, teardown,
};
use super::task::{
    attempt, demand, insist, is_guarded, law_guarded_tasks_unlock, left_locked, lemma_guarded,
    release, released, result_view, Action, ActionView, Ending, EndingView, Next, NextView, Task,
    TaskView,
};
use crate::docker::network::{PortAllocation, PortAllocationView};
use crate::duplicate::Duplicate;
use crate::models::{
    ContainerTracker, ContainerTrackerView, CreateContainerRequest, CreateContainerRequestView,
};
use crate::text::cat2;
use vstd::prelude::*;

verus! {

/// A reinstallation that asks for the record of the container.
#[derive(Debug, Clone)]
pub struct ReinstallLoad {
    pub uuid: String,
    pub volumes_path: String,
    pub install_script: String,
    pub image: Option<String>,
    pub startup_command: Option<Vec<String>>,
}

/// What a [`ReinstallLoad`] holds.
#[verifier::ext_equal]
pub struct ReinstallLoadView {
    pub uuid: Seq<char>,
    pub volumes_path: Seq<char>,
    pub install_script: Seq<char>,
    pub image: Option<Seq<char>>,
    pub startup_command: Option<Seq<Seq<char>>>,
}

impl DeepView for ReinstallLoad {
    type V = ReinstallLoadView;

    open spec fn deep_view(&self) -> ReinstallLoadView {
        ReinstallLoadView {
            uuid: self.uuid@,
            volumes_path: self.volumes_path@,
            install_script: self.install_script@,
            image: self.image.deep_view(),
            startup_command: self.startup_command.deep_view(),
        }
    }
}

/// A reinstallation that asks for a new container.
#[derive(Debug, Clone)]
pub struct ReinstallCreate {
    pub request: CreateContainerRequest,
    pub tracker: ContainerTracker,
    pub startup_command: Option<Vec<String>>,
    /// The script that the container runs.
    pub entrypoint: String,
    /// What the script is to hold once all is installed.
    pub line: String,
}

/// What a [`ReinstallCreate`] holds.
#[verifier::ext_equal]
pub struct ReinstallCreateView {
    pub request: CreateContainerRequestView,
    pub tracker: ContainerTrackerView,
    pub startup_command: Option<Seq<Seq<char>>>,
    pub entrypoint: Seq<char>,
    pub line: Seq<char>,
}

impl DeepView for ReinstallCreate {
    type V = ReinstallCreateView;

    open spec fn deep_view(&self) -> ReinstallCreateView {
        ReinstallCreateView {
            request: self.request.deep_view(),
            tracker: self.tracker.deep_view(),
            startup_command: self.startup_command.deep_view(),
            entrypoint: self.entrypoint@,
            line: self.line@,
        }
    }
}

/// A reinstallation whose script runs.
#[derive(Debug, Clone)]
pub struct ReinstallWait {
    pub container_id: String,
    pub entrypoint: String,
    pub line: String,
    pub wait: ExitWait,
}

/// What a [`ReinstallWait`] holds.
#[verifier::ext_equal]
pub struct ReinstallWaitView {
    pub container_id: Seq<char>,
    pub entrypoint: Seq<char>,
    pub line: Seq<char>,
    pub wait: ExitWait,
}

impl DeepView for ReinstallWait {
    type V = ReinstallWaitView;

    open spec fn deep_view(&self) -> ReinstallWaitView {
        ReinstallWaitView {
            container_id: self.container_id@,
            entrypoint: self.entrypoint@,
            line: self.line@,
            wait: self.wait,
        }
    }
}

/// A reinstallation that asks for the start of what was installed.
#[derive(Debug, Clone)]
pub struct ReinstallStart {
    pub container_id: String,
}

/// What a [`ReinstallStart`] holds.
#[verifier::ext_equal]
pub struct ReinstallStartView {
    pub container_id: Seq<char>,
}

impl DeepView for ReinstallStart {
    type V = ReinstallStartView;

    open spec fn deep_view(&self) -> ReinstallStartView {
        ReinstallStartView {
            container_id: self.container_id@,
        }
    }
}

/// The task with which a reinstallation begins.
pub open spec fn reinstall_begin() -> Seq<TaskView> {
    seq![demand(ActionView::Lock("Reinstalling"@), "Failed to lock container: "@)]
}

/// What a reinstallation does with the record of the container: the script takes the place of
/// what the container ran, the old container is taken away, and a new one is asked for.
pub open spec fn reinstall_loaded(
    stage: ReinstallLoadView,
    reply: Result<Option<ContainerTrackerView>, Seq<char>>,
) -> NextView<ReinstallCreateView, Seq<char>> {
    match reply {
        Err(e) => NextView::End(released(e)),
        Ok(None) => NextView::End(released("Container not found"@)),
        Ok(Some(tracker)) => {
            let entrypoint = entrypoint_path(stage.volumes_path, stage.uuid);
            let image = match stage.image {
                Some(image) => image,
                None => tracker.image,
            };
            let command = match stage.startup_command {
                Some(words) => Some(words),
                None => tracker.startup_command,
            };
            NextView::Go(
                seq![
                    insist(
                        ActionView::MakeDirectory(data_path(stage.volumes_path, stage.uuid)),
                        "Failed to create data dir: "@,
                    ),
                    insist(
                        ActionView::WriteFile { path: entrypoint, content: stage.install_script },
                        "Failed to write install script: "@,
                    ),
                    attempt(ActionView::MakeExecutable(entrypoint)),
                ] + teardown(
                    tracker.container_id,
                    TEARDOWN_PAUSE_MS,
                    tracker.allocated_ports,
                ) + seq![insist(ActionView::Pull(image), "Failed to pull image: "@)],
                ReinstallCreateView {
                    request: successor_request(
                        stage.uuid,
                        tracker,
                        image,
                        tracker.env,
                        None,
                        tracker.limits,
                    ),
                    tracker,
                    startup_command: stage.startup_command,
                    entrypoint,
                    line: startup_line(command),
                },
            )
        },
    }
}

/// The record of a container that is installed anew.
pub open spec fn reinstalled_tracker(
    stage: ReinstallCreateView,
    container_id: Seq<char>,
    ports: Seq<PortAllocationView>,
) -> ContainerTrackerView {
    ContainerTrackerView {
        image: stage.request.image,
        startup_command: match stage.startup_command {
            Some(words) => Some(words),
            None => stage.tracker.startup_command,
        },
        ..succeeded_by(stage.tracker, container_id, ports)
    }
}

/// What a reinstallation does with the new container: it is recorded and started, which runs the
/// script.
pub open spec fn reinstall_created(
    stage: ReinstallCreateView,
    reply: Result<(Seq<char>, Seq<PortAllocationView>), Seq<char>>,
) -> NextView<ReinstallWaitView, Seq<char>> {
    match reply {
        Err(e) => NextView::End(released("Failed to create container: "@ + e)),
        Ok((container_id, ports)) => NextView::Go(
            seq![
                attempt(
                    ActionView::SaveTracker(reinstalled_tracker(stage, container_id, ports)),
                ),
                attempt(ActionView::SetContainerId(container_id)),
                attempt(ActionView::SetState("installing"@)),
                insist(ActionView::Start(container_id), "Failed to start container: "@),
            ],
            ReinstallWaitView {
                container_id,
                entrypoint: stage.entrypoint,
                line: stage.line,
                wait: ExitWait { waited: 0, timeout_secs: SCRIPT_TIMEOUT_SECS },
            },
        ),
    }
}

/// What a reinstallation does when the wait for its script has ended.
pub open spec fn reinstall_waited(stage: ReinstallWaitView, success: bool) -> NextView<
    ReinstallStartView,
    Seq<char>,
> {
    if success {
        NextView::Go(
            seq![
                insist(
                    ActionView::WriteFile { path: stage.entrypoint, content: stage.line },
                    "Failed to write startup command: "@,
                ),
            ],
            ReinstallStartView { container_id: stage.container_id },
        )
    } else {
        NextView::End(
            EndingView {
                tasks: seq![
                    attempt(ActionView::SetState("install_failed"@)),
                    attempt(ActionView::Unlock),
                ],
                result: Err("Install script failed or timed out"@),
            },
        )
    }
}

/// How a reinstallation ends, given whether what was installed started.
pub open spec fn reinstall_started(container_id: Seq<char>, started: bool) -> EndingView<
    Seq<char>,
> {
    EndingView {
        tasks: seq![
            attempt(
                ActionView::SetState(
                    if started {
                        "running"@
                    } else {
                        "stopped"@
                    },
                ),
            ),
            attempt(ActionView::Unlock),
        ],
        result: Ok(container_id),
    }
}

/// A reinstallation that asks for the record of the container.
pub open spec fn reinstall_stage(
    uuid: Seq<char>,
    volumes: Seq<char>,
    install_script: Seq<char>,
    image: Option<Seq<char>>,
    startup_command: Option<Seq<Seq<char>>>,
) -> ReinstallLoadView {
    ReinstallLoadView { uuid, volumes_path: volumes, install_script, image, startup_command }
}

impl ContainerLifecycleManager {
    /// Installs a container anew: it runs the script first, and then its startup command. Where
    /// no image or startup command is given, those of its record count.
    pub fn reinstall(
        &self,
        uuid: &str,
        install_script: &str,
        image: Option<String>,
        startup_command: Option<Vec<String>>,
    ) -> (r: (Vec<Task>, ReinstallLoad))
        ensures
            r.0.deep_view() == reinstall_begin(),
            r.1.deep_view() == reinstall_stage(
                uuid@,
                self.volumes_path@,
                install_script@,
                image.deep_view(),
                startup_command.deep_view(),
            ),
    {
        let mut tasks: Vec<Task> = Vec::new();
        tasks.push(
            Task::demand(Action::Lock("Reinstalling".to_string()), "Failed to lock container: "),
        );
        assert(tasks.deep_view() =~= reinstall_begin());
        let load = ReinstallLoad {
            uuid: uuid.to_string(),
            volumes_path: self.volumes_path.clone(),
            install_script: install_script.to_string(),
            image,
            startup_command,
        };
        (tasks, load)
    }
}

impl ReinstallLoad {
    /// Takes the record of the container.
    pub fn tracker_loaded(self, reply: Result<Option<ContainerTracker>, String>) -> (r: Next<
        ReinstallCreate,
        String,
    >)
        ensures
            r.deep_view() == reinstall_loaded(self.deep_view(), result_view(reply)),
    {
        let tracker = match reply {
            Err(e) => {
                return Next::End(release(e));
            },
            Ok(None) => {
                return Next::End(release("Container not found".to_string()));
            },
            Ok(Some(tracker)) => tracker,
        };
        let volumes = self.volumes_path.as_str();
        let uuid = self.uuid.as_str();
        let image = match self.image {
            Some(image) => image,
            None => tracker.image.clone(),
        };
        let line = match &self.startup_command {
            Some(_) => startup_line_of(&self.startup_command),
            None => startup_line_of(&tracker.startup_command),
        };
        let entrypoint = entrypoint_path_of(volumes, uuid);
        let mut tasks: Vec<Task> = Vec::new();
        tasks.push(
            Task::insist(
                Action::MakeDirectory(data_path_of(volumes, uuid)),
                "Failed to create data dir: ",
            ),
        );
        tasks.push(
            Task::insist(
                Action::WriteFile { path: entrypoint.clone(), content: self.install_script },
                "Failed to write install script: ",
            ),
        );
        tasks.push(Task::attempt(Action::MakeExecutable(entrypoint.clone())));
        let ghost first = seq![
            insist(
                ActionView::MakeDirectory(data_path(volumes@, uuid@)),
                "Failed to create data dir: "@,
            ),
            insist(
                ActionView::WriteFile { path: entrypoint@, content: self.install_script@ },
                "Failed to write install script: "@,
            ),
            attempt(ActionView::MakeExecutable(entrypoint@)),
        ];
        assert(tasks.deep_view() =~= first);
        push_teardown(&mut tasks, &tracker, TEARDOWN_PAUSE_MS);
        let ghost second = tasks.deep_view();
        tasks.push(Task::insist(Action::Pull(image.clone()), "Failed to pull image: "));
        assert(tasks.deep_view() =~= second + seq![
            insist(ActionView::Pull(image@), "Failed to pull image: "@),
        ]);
        let env = tracker.env.duplicate();
        let limits = tracker.limits.duplicate();
        let request = successor_request_of(uuid, &tracker, image, env, None, limits);
        Next::Go(
            tasks,
            ReinstallCreate {
                request,
                tracker,
                startup_command: self.startup_command,
                entrypoint,
                line,
            },
        )
    }
}

impl ReinstallCreate {
    /// Takes the new container and its ports.
    pub fn created(self, reply: Result<(String, Vec<PortAllocation>), String>) -> (r: Next<
        ReinstallWait,
        String,
    >)
        ensures
            r.deep_view() == reinstall_created(self.deep_view(), result_view(reply)),
    {
        match reply {
            Err(e) => Next::End(release(cat2("Failed to create container: ", e.as_str()))),
            Ok((container_id, ports)) => {
                let mut tracker = succeed(self.tracker, container_id.as_str(), ports);
                tracker.image = self.request.image;
                if let Some(words) = self.startup_command {
                    tracker.startup_command = Some(words);
                }
                let mut tasks: Vec<Task> = Vec::new();
                tasks.push(Task::attempt(Action::SaveTracker(tracker)));
                tasks.push(Task::attempt(Action::SetContainerId(container_id.clone())));
                tasks.push(Task::attempt(Action::SetState("installing".to_string())));
                tasks.push(
                    Task::insist(
                        Action::Start(container_id.clone()),
                        "Failed to start container: ",
                    ),
                );
                assert(tasks.deep_view() =~= reinstall_created(
                    self.deep_view(),
                    result_view(reply),
                )->Go_0);
                Next::Go(
                    tasks,
                    ReinstallWait {
                        container_id,
                        entrypoint: self.entrypoint,
                        line: self.line,
                        wait: ExitWait::new(SCRIPT_TIMEOUT_SECS),
                    },
                )
            },
        }
    }
}

impl ReinstallWait {
    /// Takes how the wait for the script ended.
    pub fn waited(self, end: WaitEnd) -> (r: Next<ReinstallStart, String>)
        ensures
            r.deep_view() == reinstall_waited(self.deep_view(), end.succeeded()),
    {
        let mut tasks: Vec<Task> = Vec::new();
        if end.is_success() {
            tasks.push(
                Task::insist(
                    Action::WriteFile { path: self.entrypoint, content: self.line },
                    "Failed to write startup command: ",
                ),
            );
            assert(tasks.deep_view() =~= reinstall_waited(self.deep_view(), true)->Go_0);
            Next::Go(tasks, ReinstallStart { container_id: self.container_id })
        } else {
            tasks.push(Task::attempt(Action::SetState("install_failed".to_string())));
            tasks.push(Task::attempt(Action::Unlock));
            assert(tasks.deep_view() =~= seq![
                attempt(ActionView::SetState("install_failed"@)),
                attempt(ActionView::Unlock),
            ]);
            Next::End(
                Ending { tasks, result: Err("Install script failed or timed out".to_string()) },
            )
        }
    }
}

impl ReinstallStart {
    /// Takes whether what was installed started. It is installed either way.
    pub fn started(self, reply: &Result<(), String>) -> (r: Ending<String>)
        ensures
            r.deep_view() == reinstall_started(self.container_id@, reply is Ok),
    {
        let state = match reply {
            Ok(_) => "running",
            Err(_) => "stopped",
        };
        let mut tasks: Vec<Task> = Vec::new();
        tasks.push(Task::attempt(Action::SetState(state.to_string())));
        tasks.push(Task::attempt(Action::Unlock));
        assert(tasks.deep_view() =~= reinstall_started(self.container_id@, reply is Ok).tasks);
        Ending { tasks, result: Ok(self.container_id) }
    }
}

/// All tasks of a reinstallation and its result, given the answers to its questions, where no
/// task ends it before.
pub open spec fn reinstall_run(
    stage: ReinstallLoadView,
    tracker: Result<Option<ContainerTrackerView>, Seq<char>>,
    created: Result<(Seq<char>, Seq<PortAllocationView>), Seq<char>>,
    success: bool,
    started: bool,
) -> EndingView<Seq<char>> {
    match reinstall_loaded(stage, tracker) {
        NextView::End(ending) => EndingView { tasks: reinstall_begin() + ending.tasks, ..ending },
        NextView::Go(first, create) => match reinstall_created(create, created) {
            NextView::End(ending) => EndingView {
                tasks: reinstall_begin() + first + ending.tasks,
                ..ending
            },
            NextView::Go(second, wait) => match reinstall_waited(wait, success) {
                NextView::End(ending) => EndingView {
                    tasks: reinstall_begin() + first + second + ending.tasks,
                    ..ending
                },
                NextView::Go(third, start) => {
                    let ending = reinstall_started(start.container_id, started);
                    EndingView {
                        tasks: reinstall_begin() + first + second + third + ending.tasks,
                        ..ending
                    }
                },
            },
        },
    }
}

/// A reinstallation holds the lock from its beginning until its very end, whatever comes of it,
/// and touches nothing before it has the lock. Whichever of its tasks fail, also where one ends
/// it, a container that was not locked before is not locked after it.
pub proof fn law_reinstall_unlocks(
    stage: ReinstallLoadView,
    tracker: Result<Option<ContainerTrackerView>, Seq<char>>,
    created: Result<(Seq<char>, Seq<PortAllocationView>), Seq<char>>,
    success: bool,
    started: bool,
)
    ensures
        ({
            let tasks = reinstall_run(stage, tracker, created, success, started).tasks;
            &&& is_guarded(tasks, tasks.len() - 1)
            &&& forall|results: Seq<Result<(), Seq<char>>>|
                !#[trigger] left_locked(tasks, results, false)
        }),
{
    let tasks = reinstall_run(stage, tracker, created, success, started).tasks;
    let lock = reinstall_begin()[0];
    match reinstall_loaded(stage, tracker) {
        NextView::End(ending) => {
            assert(tasks =~= seq![lock] + Seq::<TaskView>::empty() + ending.tasks);
            lemma_guarded(lock, Seq::empty(), ending.tasks, 0);
        },
        NextView::Go(first, create) => {
            let old = create.tracker;
            let down = teardown(old.container_id, TEARDOWN_PAUSE_MS, old.allocated_ports);
            law_teardown_cannot_fail(old.container_id, TEARDOWN_PAUSE_MS, old.allocated_ports);
            lemma_keep_lock_both(first.take(3), down);
            lemma_keep_lock_both(first.take(3) + down, seq![first.last()]);
            assert(first =~= first.take(3) + down + seq![first.last()]);
            match reinstall_created(create, created) {
                NextView::End(ending) => {
                    assert(tasks =~= seq![lock] + first + ending.tasks);
                    lemma_guarded(lock, first, ending.tasks, 0);
                },
                NextView::Go(second, wait) => {
                    lemma_keep_lock_both(first, second);
                    match reinstall_waited(wait, success) {
                        NextView::End(ending) => {
                            assert(tasks =~= seq![lock] + (first + second) + ending.tasks);
                            lemma_guarded(lock, first + second, ending.tasks, 1);
                        },
                        NextView::Go(third, start) => {
                            let ending = reinstall_started(start.container_id, started);
                            let body = first + second + third;
                            lemma_keep_lock_both(first + second, third);
                            assert(tasks =~= seq![lock] + body + ending.tasks);
                            lemma_guarded(lock, body, ending.tasks, 1);
                        },
                    }
                },
            }
        },
    }
    assert forall|results: Seq<Result<(), Seq<char>>>|
        !#[trigger] left_locked(tasks, results, false) by {
        law_guarded_tasks_unlock(tasks, tasks.len() - 1, results);
    }
}

/// A container is installed anew under its UUID and name, with the limits and the environment of
/// its record, and what is recorded of it stays but for the container of the engine, its ports,
/// its image and its startup command.
pub proof fn law_reinstall_keeps_identity(
    stage: ReinstallLoadView,
    tracker: ContainerTrackerView,
    container_id: Seq<char>,
    ports: Seq<PortAllocationView>,
)
    ensures
        reinstall_loaded(stage, Ok(Some(tracker))) matches NextView::Go(_, create) && {
            let saved = reinstalled_tracker(create, container_id, ports);
            &&& create.request.custom_uuid == Some(stage.uuid)
            &&& create.request.name == Some(tracker.name)
            &&& create.request.env == tracker.env
            &&& create.request.limits == Some(tracker.limits)
            &&& saved == (ContainerTrackerView {
                container_id,
                allocated_ports: ports,
                image: saved.image,
                startup_command: saved.startup_command,
                ..tracker
            })
        },
{
}

/// A container runs its startup command only after its script succeeded.
pub proof fn law_startup_after_success(stage: ReinstallWaitView, end: WaitEnd)
    ensures
        (reinstall_waited(stage, end.succeeded()) is Go) == (end == WaitEnd::Exited(0)),
{
}

/// A reinstallation asks for the container as it is recorded, with the image that was given, or
/// its own. What it will run afterwards is the command that was given, or its own.
pub proof fn law_reinstall_request(stage: ReinstallLoadView, tracker: ContainerTrackerView)
    ensures
        reinstall_loaded(stage, Ok(Some(tracker))) matches NextView::Go(_, create) && {
            let request = create.request;
            &&& stage.image matches Some(image) ==> request.image == image
            &&& stage.image is None ==> request.image == tracker.image
            &&& request.env == tracker.env
            &&& request.limits == Some(tracker.limits)
            &&& request.description == tracker.description
            &&& request.runtime == tracker.runtime
            &&& request.custom_uuid == Some(stage.uuid)
            &&& request.startup_command == Some(seq!["/bin/sh"@, "/data/entrypoint.sh"@])
            &&& request.volumes is None
            &&& port_map(tracker.allocated_ports) != Map::<Seq<char>, Seq<char>>::empty()
                ==> request.ports == Some(port_map(tracker.allocated_ports))
            &&& create.tracker == tracker
            &&& create.startup_command == stage.startup_command
            &&& create.entrypoint == stage.volumes_path + "/"@ + stage.uuid + "_data"@
                + "/entrypoint.sh"@
            &&& stage.startup_command matches Some(words) ==> create.line == shell_line(words)
            &&& stage.startup_command is None ==> (tracker.startup_command matches Some(words)
                ==> create.line == shell_line(words))
            &&& stage.startup_command is None && tracker.startup_command is None ==> create.line
                == "sleep infinity"@
        },
{
}

/// The script is what the new container runs first: it is written to the entrypoint before the
/// old container is stopped and removed, and the image is there before the new one is made.
pub proof fn law_reinstall_order(stage: ReinstallLoadView, tracker: ContainerTrackerView)
    ensures
        reinstall_loaded(stage, Ok(Some(tracker))) matches NextView::Go(tasks, create) && {
            &&& tasks.len() >= 7
            &&& tasks[0].action == ActionView::MakeDirectory(
                stage.volumes_path + "/"@ + stage.uuid + "_data"@,
            )
            &&& tasks[1].action == (ActionView::WriteFile {
                path: create.entrypoint,
                content: stage.install_script,
            })
            &&& tasks[2].action == ActionView::MakeExecutable(create.entrypoint)
            &&& tasks[3].action == ActionView::Stop(tracker.container_id)
            &&& tasks[4].action == ActionView::Pause(300)
            &&& tasks[5].action == ActionView::Remove(tracker.container_id)
            &&& tasks.last().action == ActionView::Pull(create.request.image)
            &&& tasks[0].failure == Some("Failed to create data dir: "@) && tasks[0].unlocks
            &&& tasks[1].failure == Some("Failed to write install script: "@) && tasks[1].unlocks
            &&& tasks.last().failure == Some("Failed to pull image: "@) && tasks.last().unlocks
        },
{
}

/// The record then names the new container, its ports, the image that it was asked for with and
/// the command that it will run, and the container is shown as being installed while its script
/// runs, for ten minutes at most.
pub proof fn law_reinstall_is_recorded(
    stage: ReinstallCreateView,
    container_id: Seq<char>,
    ports: Seq<PortAllocationView>,
    e: Seq<char>,
)
    ensures
        reinstall_created(stage, Ok((container_id, ports))) matches NextView::Go(tasks, wait) && {
            &&& tasks.len() == 4
            &&& tasks[0].action matches ActionView::SaveTracker(saved) && {
                &&& saved.container_id == container_id
                &&& saved.allocated_ports == ports
                &&& saved.image == stage.request.image
                &&& stage.startup_command is Some ==> saved.startup_command
                    == stage.startup_command
                &&& stage.startup_command is None ==> saved.startup_command
                    == stage.tracker.startup_command
                &&& saved == (ContainerTrackerView {
                    container_id,
                    allocated_ports: ports,
                    image: saved.image,
                    startup_command: saved.startup_command,
                    ..stage.tracker
                })
            }
            &&& tasks[1].action == ActionView::SetContainerId(container_id)
            &&& tasks[2].action == ActionView::SetState("installing"@)
            &&& tasks[3].action == ActionView::Start(container_id)
            &&& tasks[3].failure == Some("Failed to start container: "@) && tasks[3].unlocks
            &&& wait.container_id == container_id
            &&& wait.entrypoint == stage.entrypoint
            &&& wait.line == stage.line
            &&& wait.wait.waited == 0
            &&& wait.wait.timeout_secs == 600
        },
        reinstall_created(stage, Err(e)) matches NextView::End(ending) && {
            &&& ending.result == Err::<Seq<char>, Seq<char>>("Failed to create container: "@ + e)
            &&& ending.tasks.len() == 1
            &&& ending.tasks[0].action == ActionView::Unlock
        },
{
}

/// After a script that succeeded the entrypoint holds the startup command, and the container is
/// started: it runs, or is stopped where it could not be started. After one that failed it is
/// marked as such. Either way it is unlocked.
pub proof fn law_reinstall_ends(stage: ReinstallWaitView, started: bool)
    ensures
        reinstall_waited(stage, true) matches NextView::Go(tasks, next) && {
            &&& tasks.len() == 1
            &&& tasks[0].action == (ActionView::WriteFile {
                path: stage.entrypoint,
                content: stage.line,
            })
            &&& tasks[0].failure == Some("Failed to write startup command: "@) && tasks[0].unlocks
            &&& next.container_id == stage.container_id
        },
        reinstall_waited(stage, false) matches NextView::End(ending) && {
            &&& ending.result == Err::<Seq<char>, Seq<char>>("Install script failed or timed out"@)
            &&& ending.tasks.len() == 2
            &&& ending.tasks[0].action == ActionView::SetState("install_failed"@)
            &&& ending.tasks[1].action == ActionView::Unlock
        },
        ({
            let ending = reinstall_started(stage.container_id, started);
            &&& ending.result == Ok::<Seq<char>, Seq<char>>(stage.container_id)
            &&& ending.tasks.len() == 2
            &&& started ==> ending.tasks[0].action == ActionView::SetState("running"@)
            &&& !started ==> ending.tasks[0].action == ActionView::SetState("stopped"@)
            &&& ending.tasks[1].action == ActionView::Unlock
        }),
{
}

/// A reinstallation ends well exactly where the container is recorded, the new one could be made
/// and the script succeeded; that the container could not be started afterwards is no failure.
pub proof fn law_reinstall_result(
    stage: ReinstallLoadView,
    tracker: Result<Option<ContainerTrackerView>, Seq<char>>,
    created: Result<(Seq<char>, Seq<PortAllocationView>), Seq<char>>,
    success: bool,
    started: bool,
)
    ensures
        ({
            let result = reinstall_run(stage, tracker, created, success, started).result;
            &&& result is Ok <==> (tracker is Ok && tracker->Ok_0 is Some && created is Ok
                && success)
            &&& result is Ok ==> result->Ok_0 == created->Ok_0.0
            &&& tracker matches Err(e) ==> result == Err::<Seq<char>, Seq<char>>(e)
            &&& tracker == Ok::<Option<ContainerTrackerView>, Seq<char>>(None) ==> result == Err::<
                Seq<char>,
                Seq<char>,
            >("Container not found"@)
        }),
{
}

/// A reinstallation begins with the lock, without which it does not go on.
pub proof fn law_reinstall_begins()
    ensures
        reinstall_begin().len() == 1,
        reinstall_begin()[0].action == ActionView::Lock("Reinstalling"@),
        reinstall_begin()[0].failure == Some("Failed to lock container: "@),
{
}

/// A reinstallation runs the script that was given and then the command that was given, in a
/// container of the image that was given.
pub proof fn law_reinstall_does_what_was_asked(
    uuid: Seq<char>,
    volumes: Seq<char>,
    script: Seq<char>,
    image: Seq<char>,
    words: Seq<Seq<char>>,
    tracker: ContainerTrackerView,
)
    ensures
        reinstall_loaded(
            reinstall_stage(uuid, volumes, script, Some(image), Some(words)),
            Ok(Some(tracker)),
        ) matches NextView::Go(tasks, create) && {
            &&& tasks[1].action == (ActionView::WriteFile {
                path: volumes + "/"@ + uuid + "_data"@ + "/entrypoint.sh"@,
                content: script,
            })
            &&& tasks.last().action == ActionView::Pull(image)
            &&& create.request.image == image
            &&& create.request.custom_uuid == Some(uuid)
            &&& create.startup_command == Some(words)
            &&& create.line == shell_line(words)
        },
        reinstall_loaded(
            reinstall_stage(uuid, volumes, script, None, None),
            Ok(Some(tracker)),
        ) matches NextView::Go(_, create) && create.request.image == tracker.image
            && create.startup_command is None,
{
}

} // verus!
