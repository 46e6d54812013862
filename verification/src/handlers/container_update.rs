//! Requests that change a container: a script to run in it, or another configuration.

use super::container::{ActionAccepted, ActionAcceptedView};
use crate::models::{UpdateConfigRequest, UpdateConfigRequestView};
use crate::services::container_lifecycle::{ContainerUpdateRequest, ContainerUpdateRequestView};
use crate::services::exit_wait::{ExitWait, WaitEnd, SCRIPT_TIMEOUT_SECS};
use crate::services::recipe::{
    data_path, data_path_of, entrypoint_path, entrypoint_path_of, shell_line, shell_line_of,
};
use crate::services::task::{
    attempt, demand, has_action, Action, ActionView, Step, StepView, Task, TaskView,
};
use crate::state_manager::{ContainerState, ContainerStateView};
use crate::text::cat2;
use vstd::prelude::*;

verus! {

/// An update that asks for its script to be written.
#[derive(Debug, Clone)]
pub struct UpdateWrite {
    pub container_id: String,
    /// The script that the container runs.
    pub entrypoint: String,
    /// The script of the update.
    pub script: String,
    /// What the container ran before, and runs again.
    pub line: String,
}

/// What a [`UpdateWrite`] holds.
#[verifier::ext_equal]
pub struct UpdateWriteView {
    pub container_id: Seq<char>,
    pub entrypoint: Seq<char>,
    pub script: Seq<char>,
    pub line: Seq<char>,
}

impl DeepView for UpdateWrite {
    type V = UpdateWriteView;

    open spec fn deep_view(&self) -> UpdateWriteView {
        UpdateWriteView {
            container_id: self.container_id@,
            entrypoint: self.entrypoint@,
            script: self.script@,
            line: self.line@,
        }
    }
}

/// An update that asks for the start of its script.
#[derive(Debug, Clone)]
pub struct UpdateStart {
    pub container_id: String,
    pub entrypoint: String,
    pub line: String,
}

/// What a [`UpdateStart`] holds.
#[verifier::ext_equal]
pub struct UpdateStartView {
    pub container_id: Seq<char>,
    pub entrypoint: Seq<char>,
    pub line: Seq<char>,
}

impl DeepView for UpdateStart {
    type V = UpdateStartView;

    open spec fn deep_view(&self) -> UpdateStartView {
        UpdateStartView {
            container_id: self.container_id@,
            entrypoint: self.entrypoint@,
            line: self.line@,
        }
    }
}

/// An update whose script runs.
#[derive(Debug, Clone)]
pub struct UpdateWait {
    pub container_id: String,
    pub entrypoint: String,
    pub line: String,
    pub wait: ExitWait,
}

/// What a [`UpdateWait`] holds.
#[verifier::ext_equal]
pub struct UpdateWaitView {
    pub container_id: Seq<char>,
    pub entrypoint: Seq<char>,
    pub line: Seq<char>,
    pub wait: ExitWait,
}

impl DeepView for UpdateWait {
    type V = UpdateWaitView;

    open spec fn deep_view(&self) -> UpdateWaitView {
        UpdateWaitView {
            container_id: self.container_id@,
            entrypoint: self.entrypoint@,
            line: self.line@,
            wait: self.wait,
        }
    }
}

/// An update that asks for the start of what the container ran before.
#[derive(Debug, Clone)]
pub struct UpdateRestart {
    pub container_id: String,
}

/// What a [`UpdateRestart`] holds.
#[verifier::ext_equal]
pub struct UpdateRestartView {
    pub container_id: Seq<char>,
}

impl DeepView for UpdateRestart {
    type V = UpdateRestartView;

    open spec fn deep_view(&self) -> UpdateRestartView {
        UpdateRestartView {
            container_id: self.container_id@,
        }
    }
}

/// What a container runs after an update: what is remembered, or nothing.
pub open spec fn remembered_line(state: ContainerStateView) -> Seq<char> {
    match state.startup_command {
        Some(line) => line,
        None => "sleep infinity"@,
    }
}

/// How an update begins.
#[derive(Debug, Clone)]
pub struct UpdateBegun {
    /// What is done before the request is answered.
    pub before: Vec<Task>,
    /// What is done after that.
    pub after: Vec<Task>,
    pub write: UpdateWrite,
}

/// What an [`UpdateBegun`] holds.
#[verifier::ext_equal]
pub struct UpdateBegunView {
    pub before: Seq<TaskView>,
    pub after: Seq<TaskView>,
    pub write: UpdateWriteView,
}

impl DeepView for UpdateBegun {
    type V = UpdateBegunView;

    open spec fn deep_view(&self) -> UpdateBegunView {
        UpdateBegunView {
            before: self.before.deep_view(),
            after: self.after.deep_view(),
            write: self.write.deep_view(),
        }
    }
}

/// How an update begins: the container is locked before the request is answered, and then stopped
/// and given time to stop.
pub open spec fn update_begun(
    uuid: Seq<char>,
    volumes: Seq<char>,
    state: ContainerStateView,
    container_id: Seq<char>,
    script: Seq<char>,
) -> UpdateBegunView {
    UpdateBegunView {
        before: seq![
            attempt(ActionView::Lock("Running update script"@)),
            attempt(ActionView::SetState("updating"@)),
        ],
        after: seq![attempt(ActionView::Stop(container_id)), attempt(ActionView::Pause(2000))],
        write: UpdateWriteView {
            container_id,
            entrypoint: entrypoint_path(volumes, uuid),
            script,
            line: remembered_line(state),
        },
    }
}

/// The tasks with which an update ends.
pub open spec fn update_over(state: Seq<char>) -> Seq<TaskView> {
    seq![attempt(ActionView::SetState(state)), attempt(ActionView::Unlock)]
}

fn over(state: &str) -> (r: Vec<Task>)
    ensures
        r.deep_view() == update_over(state@),
{
    let mut r: Vec<Task> = Vec::new();
    r.push(Task::attempt(Action::SetState(state.to_string())));
    r.push(Task::attempt(Action::Unlock));
    assert(r.deep_view() =~= update_over(state@));
    r
}

/// Begins an update of a container with a script.
pub fn update_container(
    uuid: &str,
    volumes_path: &str,
    state: &ContainerState,
    container_id: &str,
    script: String,
) -> (r: UpdateBegun)
    ensures
        r.deep_view() == update_begun(
            uuid@,
            volumes_path@,
            state.deep_view(),
            container_id@,
            script@,
        ),
{
    let mut before: Vec<Task> = Vec::new();
    before.push(Task::attempt(Action::Lock("Running update script".to_string())));
    before.push(Task::attempt(Action::SetState("updating".to_string())));
    let mut after: Vec<Task> = Vec::new();
    after.push(Task::attempt(Action::Stop(container_id.to_string())));
    after.push(Task::attempt(Action::Pause(2000)));
    let line = match &state.startup_command {
        Some(line) => line.clone(),
        None => "sleep infinity".to_string(),
    };
    let write = UpdateWrite {
        container_id: container_id.to_string(),
        entrypoint: entrypoint_path_of(volumes_path, uuid),
        script,
        line,
    };
    assert(before.deep_view() =~= seq![
        attempt(ActionView::Lock("Running update script"@)),
        attempt(ActionView::SetState("updating"@)),
    ]);
    assert(after.deep_view() =~= seq![
        attempt(ActionView::Stop(container_id@)),
        attempt(ActionView::Pause(2000)),
    ]);
    UpdateBegun { before, after, write }
}

/// The answer to an update that began.
pub fn update_reply(id: &str) -> (r: String)
    ensures
        r@ == "Update started for container "@ + id@,
{
    cat2("Update started for container ", id)
}

/// What an update does once its script is written, or is not.
pub open spec fn update_written(stage: UpdateWriteView, written: bool) -> StepView<UpdateStartView> {
    if written {
        StepView::Go(
            Seq::empty(),
            UpdateStartView {
                container_id: stage.container_id,
                entrypoint: stage.entrypoint,
                line: stage.line,
            },
        )
    } else {
        StepView::Over(update_over("update_failed"@))
    }
}

/// What an update does once its script runs, or does not.
pub open spec fn update_started(stage: UpdateStartView, started: bool) -> StepView<UpdateWaitView> {
    if started {
        StepView::Go(
            Seq::empty(),
            UpdateWaitView {
                container_id: stage.container_id,
                entrypoint: stage.entrypoint,
                line: stage.line,
                wait: ExitWait { waited: 0, timeout_secs: SCRIPT_TIMEOUT_SECS },
            },
        )
    } else {
        StepView::Over(update_over("update_failed"@))
    }
}

/// What an update does when the wait for its script has ended.
pub open spec fn update_waited(stage: UpdateWaitView, end: WaitEnd) -> StepView<UpdateRestartView> {
    match end {
        WaitEnd::TimedOut => StepView::Over(update_over("update_timeout"@)),
        WaitEnd::Lost => StepView::Over(update_over("failed"@)),
        WaitEnd::Exited(code) => if code == 0 {
            StepView::Go(
                seq![
                    attempt(
                        ActionView::WriteFile { path: stage.entrypoint, content: stage.line },
                    ),
                ],
                UpdateRestartView { container_id: stage.container_id },
            )
        } else {
            StepView::Over(update_over("update_failed"@))
        },
    }
}

/// How an update ends, given whether what the container ran before started again.
pub open spec fn update_restarted(started: bool) -> Seq<TaskView> {
    update_over(
        if started {
            "running"@
        } else {
            "failed"@
        },
    )
}

impl UpdateWrite {
    /// Takes whether the script of the update was written.
    pub fn written(self, reply: &Result<(), String>) -> (r: Step<UpdateStart>)
        ensures
            r.deep_view() == update_written(self.deep_view(), reply is Ok),
    {
        if reply.is_err() {
            return Step::Over(over("update_failed"));
        }
        let tasks: Vec<Task> = Vec::new();
        assert(tasks.deep_view() =~= Seq::<TaskView>::empty());
        Step::Go(
            tasks,
            UpdateStart {
                container_id: self.container_id,
                entrypoint: self.entrypoint,
                line: self.line,
            },
        )
    }
}

impl UpdateStart {
    /// Takes whether the container started, which runs the script of the update.
    pub fn started(self, reply: &Result<(), String>) -> (r: Step<UpdateWait>)
        ensures
            r.deep_view() == update_started(self.deep_view(), reply is Ok),
    {
        if reply.is_err() {
            return Step::Over(over("update_failed"));
        }
        let tasks: Vec<Task> = Vec::new();
        assert(tasks.deep_view() =~= Seq::<TaskView>::empty());
        Step::Go(
            tasks,
            UpdateWait {
                container_id: self.container_id,
                entrypoint: self.entrypoint,
                line: self.line,
                wait: ExitWait::new(SCRIPT_TIMEOUT_SECS),
            },
        )
    }
}

impl UpdateWait {
    /// Takes how the wait for the script ended.
    pub fn waited(self, end: WaitEnd) -> (r: Step<UpdateRestart>)
        ensures
            r.deep_view() == update_waited(self.deep_view(), end),
    {
        match end {
            WaitEnd::TimedOut => Step::Over(over("update_timeout")),
            WaitEnd::Lost => Step::Over(over("failed")),
            WaitEnd::Exited(code) => if code == 0 {
                let mut tasks: Vec<Task> = Vec::new();
                tasks.push(
                    Task::attempt(
                        Action::WriteFile { path: self.entrypoint, content: self.line },
                    ),
                );
                assert(tasks.deep_view() =~= update_waited(self.deep_view(), end)->Go_0);
                Step::Go(tasks, UpdateRestart { container_id: self.container_id })
            } else {
                Step::Over(over("update_failed"))
            },
        }
    }
}

impl UpdateRestart {
    /// Takes whether what the container ran before started again.
    pub fn started(self, reply: &Result<(), String>) -> (r: Vec<Task>)
        ensures
            r.deep_view() == update_restarted(reply is Ok),
    {
        if reply.is_ok() {
            over("running")
        } else {
            over("failed")
        }
    }
}

/// The answer to an installation that goes on unseen.
#[derive(Debug, Clone)]
pub struct InstallAccepted {
    pub message: String,
    pub uuid: String,
    pub status: String,
}

/// What a [`InstallAccepted`] holds.
#[verifier::ext_equal]
pub struct InstallAcceptedView {
    pub message: Seq<char>,
    pub uuid: Seq<char>,
    pub status: Seq<char>,
}

impl DeepView for InstallAccepted {
    type V = InstallAcceptedView;

    open spec fn deep_view(&self) -> InstallAcceptedView {
        InstallAcceptedView {
            message: self.message@,
            uuid: self.uuid@,
            status: self.status@,
        }
    }
}

/// The answer to an installation that goes on unseen, and what the panel is told.
pub fn install_container(id: &str, uuid: &str) -> (r: (Task, InstallAccepted))
    ensures
        r.0.deep_view() == attempt(
            ActionView::Notify { status: "installing"@, message: None },
        ),
        r.1.deep_view() == (InstallAcceptedView {
            message: "Installation started for container "@ + id@,
            uuid: uuid@,
            status: "installing"@,
        }),
{
    (
        Task::attempt(Action::Notify { status: "installing".to_string(), message: None }),
        InstallAccepted {
            message: cat2("Installation started for container ", id),
            uuid: uuid.to_string(),
            status: "installing".to_string(),
        },
    )
}

/// The answer to a change of the startup command.
#[derive(Debug, Clone)]
pub struct StartupUpdated {
    pub status: String,
    pub message: String,
    pub startup_command: String,
}

/// What a [`StartupUpdated`] holds.
#[verifier::ext_equal]
pub struct StartupUpdatedView {
    pub status: Seq<char>,
    pub message: Seq<char>,
    pub startup_command: Seq<char>,
}

impl DeepView for StartupUpdated {
    type V = StartupUpdatedView;

    open spec fn deep_view(&self) -> StartupUpdatedView {
        StartupUpdatedView {
            status: self.status@,
            message: self.message@,
            startup_command: self.startup_command@,
        }
    }
}

/// What is done about another configuration.
#[derive(Debug)]
pub enum ConfigChange {
    /// It is refused.
    Refused(String),
    /// Only the script is written anew.
    Startup(Vec<Task>, StartupUpdated),
    /// The container is made anew.
    Recreate(Task, ContainerUpdateRequest, ActionAccepted),
}

/// What a [`ConfigChange`] holds.
#[verifier::ext_equal]
pub enum ConfigChangeView {
    Refused(Seq<char>),
    Startup(Seq<TaskView>, StartupUpdatedView),
    Recreate(TaskView, ContainerUpdateRequestView, ActionAcceptedView),
}

impl DeepView for ConfigChange {
    type V = ConfigChangeView;

    open spec fn deep_view(&self) -> ConfigChangeView {
        match self {
            ConfigChange::Refused(message) => ConfigChangeView::Refused(message@),
            ConfigChange::Startup(tasks, answer) => ConfigChangeView::Startup(
                tasks.deep_view(),
                answer.deep_view(),
            ),
            ConfigChange::Recreate(task, update, answer) => ConfigChangeView::Recreate(
                task.deep_view(),
                update.deep_view(),
                answer.deep_view(),
            ),
        }
    }
}

/// Whether a request changes the startup command and nothing else.
pub open spec fn is_startup_only(request: UpdateConfigRequestView) -> bool {
    &&& request.startup_command is Some
    &&& request.env is None
    &&& request.limits is None
    &&& request.ports is None
    &&& request.image is None
}

/// The tasks that change the startup command: the script is written, and the command is
/// remembered and recorded.
pub open spec fn startup_tasks(
    uuid: Seq<char>,
    volumes: Seq<char>,
    words: Seq<Seq<char>>,
) -> Seq<TaskView> {
    let entrypoint = entrypoint_path(volumes, uuid);
    seq![
        demand(
            ActionView::MakeDirectory(data_path(volumes, uuid)),
            "Failed to create data directory: "@,
        ),
        demand(
            ActionView::WriteFile { path: entrypoint, content: shell_line(words) + "\n"@ },
            "Failed to write entrypoint: "@,
        ),
        attempt(ActionView::MakeExecutable(entrypoint)),
        attempt(ActionView::SetStartupCommand(shell_line(words))),
        attempt(ActionView::TrackStartupCommand(words)),
    ]
}

/// What is done about another configuration. A change of the startup command alone only writes
/// the script anew, and leaves the container as it is; every other change makes it anew.
pub open spec fn config_change(
    uuid: Seq<char>,
    volumes: Seq<char>,
    request: UpdateConfigRequestView,
    locked: bool,
    suspended: bool,
    known: bool,
) -> ConfigChangeView {
    if locked {
        ConfigChangeView::Refused("Container is currently locked (operation in progress)"@)
    } else if suspended {
        ConfigChangeView::Refused("Cannot update suspended container"@)
    } else if is_startup_only(request) {
        if !known {
            ConfigChangeView::Refused("Container not found in daemon state"@)
        } else {
            let words = request.startup_command->0;
            ConfigChangeView::Startup(
                startup_tasks(uuid, volumes, words),
                StartupUpdatedView {
                    status: "ok"@,
                    message:
                        "Startup command updated. Restart the server for changes to take effect."@,
                    startup_command: shell_line(words),
                },
            )
        }
    } else {
        ConfigChangeView::Recreate(
            attempt(
                ActionView::Notify {
                    status: "recreating"@,
                    message: Some("Applying configuration changes"@),
                },
            ),
            ContainerUpdateRequestView {
                env: request.env,
                limits: request.limits,
                ports: request.ports,
                image: request.image,
                startup_command: request.startup_command,
            },
            ActionAcceptedView {
                status: "accepted"@,
                message: "Config update initiated for container "@ + uuid,
            },
        )
    }
}

fn change_startup(uuid: &str, volumes_path: &str, words: Vec<String>) -> (r: (
    Vec<Task>,
    StartupUpdated,
))
    ensures
        r.0.deep_view() == startup_tasks(uuid@, volumes_path@, words.deep_view()),
        r.1.deep_view() == (StartupUpdatedView {
            status: "ok"@,
            message: "Startup command updated. Restart the server for changes to take effect."@,
            startup_command: shell_line(words.deep_view()),
        }),
{
    let line = shell_line_of(&words);
    let entrypoint = entrypoint_path_of(volumes_path, uuid);
    let mut tasks: Vec<Task> = Vec::new();
    tasks.push(
        Task::demand(
            Action::MakeDirectory(data_path_of(volumes_path, uuid)),
            "Failed to create data directory: ",
        ),
    );
    tasks.push(
        Task::demand(
            Action::WriteFile { path: entrypoint.clone(), content: cat2(line.as_str(), "\n") },
            "Failed to write entrypoint: ",
        ),
    );
    tasks.push(Task::attempt(Action::MakeExecutable(entrypoint)));
    tasks.push(Task::attempt(Action::SetStartupCommand(line.clone())));
    tasks.push(Task::attempt(Action::TrackStartupCommand(words)));
    assert(tasks.deep_view() =~= startup_tasks(uuid@, volumes_path@, words.deep_view()));
    let message = "Startup command updated. Restart the server for changes to take effect.";
    (
        tasks,
        StartupUpdated {
            status: "ok".to_string(),
            message: message.to_string(),
            startup_command: line,
        },
    )
}

/// What is done about another configuration, given whether the container is locked, suspended and
/// known.
pub fn update_container_config(
    uuid: &str,
    volumes_path: &str,
    request: UpdateConfigRequest,
    locked: bool,
    suspended: bool,
    known: bool,
) -> (r: ConfigChange)
    ensures
        r.deep_view() == config_change(
            uuid@,
            volumes_path@,
            request.deep_view(),
            locked,
            suspended,
            known,
        ),
{
    if locked {
        return ConfigChange::Refused(
            "Container is currently locked (operation in progress)".to_string(),
        );
    }
    if suspended {
        return ConfigChange::Refused("Cannot update suspended container".to_string());
    }
    let startup_only = request.startup_command.is_some() && request.env.is_none()
        && request.limits.is_none() && request.ports.is_none() && request.image.is_none();
    if startup_only {
        if !known {
            return ConfigChange::Refused("Container not found in daemon state".to_string());
        }
        if let Some(words) = request.startup_command {
            let (tasks, answer) = change_startup(uuid, volumes_path, words);
            return ConfigChange::Startup(tasks, answer);
        }
    }
    let update = ContainerUpdateRequest {
        env: request.env,
        limits: request.limits,
        ports: request.ports,
        image: request.image,
        startup_command: request.startup_command,
    };
    let task = Task::attempt(
        Action::Notify {
            status: "recreating".to_string(),
            message: Some("Applying configuration changes".to_string()),
        },
    );
    let answer = ActionAccepted {
        status: "accepted".to_string(),
        message: cat2("Config update initiated for container ", uuid),
    };
    ConfigChange::Recreate(task, update, answer)
}

/// The answer to other environment variables: the container is made anew with them, unless it is
/// locked.
pub fn update_container_env(uuid: &str, locked: bool) -> (r: Result<ActionAccepted, String>)
    ensures
        match r {
            Ok(answer) => !locked && answer.deep_view() == (ActionAcceptedView {
                status: "accepted"@,
                message: "Env update initiated for container "@ + uuid@,
            }),
            Err(e) => locked && e@ == "Container is currently locked"@,
        },
{
    if locked {
        return Err("Container is currently locked".to_string());
    }
    Ok(
        ActionAccepted {
            status: "accepted".to_string(),
            message: cat2("Env update initiated for container ", uuid),
        },
    )
}

/// However an update ends, the container is unlocked.
pub proof fn law_update_unlocks(
    write: UpdateWriteView,
    start: UpdateStartView,
    wait: UpdateWaitView,
    ok: bool,
    end: WaitEnd,
)
    ensures
        update_written(write, ok) matches StepView::Over(tasks) ==> has_action(
            tasks,
            ActionView::Unlock,
        ),
        update_started(start, ok) matches StepView::Over(tasks) ==> has_action(
            tasks,
            ActionView::Unlock,
        ),
        update_waited(wait, end) matches StepView::Over(tasks) ==> has_action(
            tasks,
            ActionView::Unlock,
        ),
        has_action(update_restarted(ok), ActionView::Unlock),
{
    if let StepView::Over(tasks) = update_written(write, ok) {
        assert(tasks[1].action == ActionView::Unlock);
    }
    if let StepView::Over(tasks) = update_started(start, ok) {
        assert(tasks[1].action == ActionView::Unlock);
    }
    if let StepView::Over(tasks) = update_waited(wait, end) {
        assert(tasks[1].action == ActionView::Unlock);
    }
    assert(update_restarted(ok)[1].action == ActionView::Unlock);
}

/// Any other change of the configuration of a container that is neither locked nor suspended
/// makes it anew, with everything that was asked for.
pub proof fn law_other_changes_recreate(
    uuid: Seq<char>,
    volumes: Seq<char>,
    request: UpdateConfigRequestView,
    known: bool,
)
    requires
        !is_startup_only(request),
    ensures
        config_change(uuid, volumes, request, false, false, known) matches ConfigChangeView::Recreate(
            _,
            update,
            _,
        ) && {
            &&& update.env == request.env
            &&& update.limits == request.limits
            &&& update.ports == request.ports
            &&& update.image == request.image
            &&& update.startup_command == request.startup_command
        },
{
}

/// A change of the startup command alone does not make the container anew, and touches neither
/// its lock nor its container of the engine.
pub proof fn law_startup_change_is_light(
    uuid: Seq<char>,
    volumes: Seq<char>,
    request: UpdateConfigRequestView,
    locked: bool,
    suspended: bool,
    known: bool,
)
    requires
        is_startup_only(request),
    ensures
        match config_change(uuid, volumes, request, locked, suspended, known) {
            ConfigChangeView::Recreate(_, _, _) => false,
            ConfigChangeView::Startup(tasks, _) => forall|i: int|
                0 <= i < tasks.len() ==> match (#[trigger] tasks[i]).action {
                    ActionView::MakeDirectory(_) => true,
                    ActionView::WriteFile { .. } => true,
                    ActionView::MakeExecutable(_) => true,
                    ActionView::SetStartupCommand(_) => true,
                    ActionView::TrackStartupCommand(_) => true,
                    _ => false,
                },
            ConfigChangeView::Refused(_) => locked || suspended || !known,
        },
{
}

/// An update locks the container and shows it as being updated before it stops it. It writes the
/// given script to the entrypoint, and remembers the startup command that will follow it.
pub proof fn law_update_begins(
    uuid: Seq<char>,
    volumes: Seq<char>,
    state: ContainerStateView,
    container_id: Seq<char>,
    script: Seq<char>,
)
    ensures
        ({
            let begun = update_begun(uuid, volumes, state, container_id, script);
            &&& begun.before.len() == 2
            &&& begun.before[0].action == ActionView::Lock("Running update script"@)
            &&& begun.before[1].action == ActionView::SetState("updating"@)
            &&& begun.after.len() == 2
            &&& begun.after[0].action == ActionView::Stop(container_id)
            &&& begun.after[1].action == ActionView::Pause(2000)
            &&& begun.write.container_id == container_id
            &&& begun.write.entrypoint == volumes + "/"@ + uuid + "_data"@ + "/entrypoint.sh"@
            &&& begun.write.script == script
            &&& state.startup_command matches Some(line) ==> begun.write.line == line
            &&& state.startup_command is None ==> begun.write.line == "sleep infinity"@
        }),
{
}

/// What an update goes on with is the same container, entrypoint and startup command, at every
/// step; the script may run for ten minutes.
pub proof fn law_update_goes_on(
    write: UpdateWriteView,
    start: UpdateStartView,
    wait: UpdateWaitView,
)
    ensures
        update_written(write, true) matches StepView::Go(tasks, next) && {
            &&& tasks.len() == 0
            &&& next.container_id == write.container_id
            &&& next.entrypoint == write.entrypoint
            &&& next.line == write.line
        },
        update_started(start, true) matches StepView::Go(tasks, next) && {
            &&& tasks.len() == 0
            &&& next.container_id == start.container_id
            &&& next.entrypoint == start.entrypoint
            &&& next.line == start.line
            &&& next.wait.waited == 0
            &&& next.wait.timeout_secs == 600
        },
        update_waited(wait, WaitEnd::Exited(0)) matches StepView::Go(tasks, next) && {
            &&& tasks.len() == 1
            &&& tasks[0].action == (ActionView::WriteFile {
                path: wait.entrypoint,
                content: wait.line,
            })
            &&& next.container_id == wait.container_id
        },
{
}

/// The state in which an update leaves the container tells how it ended: failed where the script
/// could not be written or started or ended badly, too late, lost, and running where all went
/// well and the container could be started again.
pub proof fn law_update_ends(
    write: UpdateWriteView,
    start: UpdateStartView,
    wait: UpdateWaitView,
    code: i64,
)
    ensures
        update_written(write, false) matches StepView::Over(tasks) && tasks[0].action
            == ActionView::SetState("update_failed"@),
        update_started(start, false) matches StepView::Over(tasks) && tasks[0].action
            == ActionView::SetState("update_failed"@),
        code != 0 ==> (update_waited(wait, WaitEnd::Exited(code)) matches StepView::Over(tasks)
            && tasks[0].action == ActionView::SetState("update_failed"@)),
        update_waited(wait, WaitEnd::TimedOut) matches StepView::Over(tasks) && tasks[0].action
            == ActionView::SetState("update_timeout"@),
        update_waited(wait, WaitEnd::Lost) matches StepView::Over(tasks) && tasks[0].action
            == ActionView::SetState("failed"@),
        update_restarted(true)[0].action == ActionView::SetState("running"@),
        update_restarted(false)[0].action == ActionView::SetState("failed"@),
        update_restarted(true).len() == 2,
        update_restarted(true)[1].action == ActionView::Unlock,
{
}

/// A change is refused where the container is locked, and else where it is suspended. A change
/// of the startup command alone is written at once, and the answer shows it; every other one
/// recreates the container, and says so.
pub proof fn law_config_changes(
    uuid: Seq<char>,
    volumes: Seq<char>,
    request: UpdateConfigRequestView,
    suspended: bool,
    known: bool,
)
    ensures
        config_change(uuid, volumes, request, true, suspended, known) == ConfigChangeView::Refused(
            "Container is currently locked (operation in progress)"@,
        ),
        config_change(uuid, volumes, request, false, true, known) == ConfigChangeView::Refused(
            "Cannot update suspended container"@,
        ),
        ({
            let only = request.startup_command is Some && request.env is None && request.limits
                is None && request.ports is None && request.image is None;
            let change = config_change(uuid, volumes, request, false, false, known);
            &&& only && !known ==> change == ConfigChangeView::Refused(
                "Container not found in daemon state"@,
            )
            &&& only && known ==> (change matches ConfigChangeView::Startup(tasks, answer) && {
                let words = request.startup_command->0;
                let data = volumes + "/"@ + uuid + "_data"@;
                &&& tasks.len() == 5
                &&& tasks[0].action == ActionView::MakeDirectory(data)
                &&& tasks[0].failure == Some("Failed to create data directory: "@)
                &&& tasks[1].action == (ActionView::WriteFile {
                    path: data + "/entrypoint.sh"@,
                    content: shell_line(words) + "\n"@,
                })
                &&& tasks[1].failure == Some("Failed to write entrypoint: "@)
                &&& tasks[2].action == ActionView::MakeExecutable(data + "/entrypoint.sh"@)
                &&& tasks[3].action == ActionView::SetStartupCommand(shell_line(words))
                &&& tasks[4].action == ActionView::TrackStartupCommand(words)
                &&& answer.status == "ok"@
                &&& answer.message
                    == "Startup command updated. Restart the server for changes to take effect."@
                &&& answer.startup_command == shell_line(words)
            })
            &&& !only ==> (change matches ConfigChangeView::Recreate(told, update, answer) && {
                &&& told.action == (ActionView::Notify {
                    status: "recreating"@,
                    message: Some("Applying configuration changes"@),
                })
                &&& update.env == request.env
                &&& update.limits == request.limits
                &&& update.ports == request.ports
                &&& update.image == request.image
                &&& update.startup_command == request.startup_command
                &&& answer.status == "accepted"@
                &&& answer.message == "Config update initiated for container "@ + uuid
            })
        }),
{
}

} // verus!
